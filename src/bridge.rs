//! How one request is resolved: validate, lease a pooled connection, run one
//! storage operation off the request runtime, give the lease back, and
//! collapse whatever happened into one outcome.
//!
//! The waiting is done by the caller. A resolution says which action to take
//! next (`Action`), and the caller reports what came of it (`Event`) to
//! `Resolution::step`, until a `Step::Finished` carries the outcome.
use vstd::prelude::*;
use crate::error::ResolverError;
use crate::models::{build_user_at_time, current_time, is_v7, CreateUserAttrs, Timestamp, User, UserId};
use crate::schema;
use crate::schema::{shape, UserInput};

verus! {

/// The one storage operation that a request makes on its leased connection.
#[derive(Debug)]
pub enum Job {
    /// Look up the record with this identifier.
    Fetch(UserId),
    /// Insert this record and return it as stored.
    Create(User),
}

/// Why the pool handed out no connection.
#[derive(Clone, Copy, Debug, PartialEq, Eq, Structural)]
pub enum PoolFailure {
    Exhausted,
    Unavailable,
    TimedOut,
}

/// What the caller reports back after an action.
#[derive(Debug)]
pub enum Event {
    /// The pool handed out a connection.
    LeaseGranted,
    /// The pool handed out none.
    LeaseRefused(PoolFailure),
    /// The offloaded work could not run or did not finish (the worker pool
    /// was shut down, the work panicked or timed out).
    OffloadFailed,
    /// The work ran and the storage operation failed.
    RepositoryFailed,
    /// The work ran: the record, or none where nothing matched.
    Completed(Option<User>),
    /// The connection went back to the pool.
    LeaseReturned,
}

/// A storage operation that ran and failed.
#[derive(Clone, Copy, Debug, PartialEq, Eq, Structural)]
pub struct RepositoryError;

/// Offloaded work that could not run or did not finish.
#[derive(Clone, Copy, Debug, PartialEq, Eq, Structural)]
pub struct OffloadError;

impl Event {
    /// The report for offloaded work: whether it ran, and if so what the
    /// storage operation gave.
    pub fn from_work(work: Result<Result<Option<User>, RepositoryError>, OffloadError>) -> (e: Event)
        ensures
            match work {
                Ok(Ok(found)) => e == Event::Completed(found),
                Ok(Err(_)) => e is RepositoryFailed,
                Err(_) => e is OffloadFailed,
            },
    {
        match work {
            Ok(Ok(found)) => Event::Completed(found),
            Ok(Err(_)) => Event::RepositoryFailed,
            Err(_) => Event::OffloadFailed,
        }
    }
}

/// What the caller is to do next.
#[derive(Debug)]
pub enum Action {
    /// Wait for a connection from the pool.
    AcquireLease,
    /// Run the job on the leased connection, off the request runtime.
    Execute(Job),
    /// Give the connection back to the pool.
    ReleaseLease,
}

/// The result of a request once it is resolved.
#[derive(Debug)]
pub enum Outcome {
    Found(User),
    NotFound,
    Failed(ResolverError),
}

/// A request between its actions.
#[derive(Debug)]
pub enum Resolution {
    /// Waiting for a connection; the job to run once it comes.
    AcquiringLease(Job),
    /// The job runs on the leased connection.
    Executing,
    /// The job is over with this outcome; the connection goes back.
    Releasing(Outcome),
}

/// A request after a step: still going, with its next action, or done.
#[derive(Debug)]
pub enum Step {
    Continue(Resolution, Action),
    Finished(Outcome),
}

/// The outcome for what the work reported.
pub open spec fn settle(e: Event) -> Outcome {
    match e {
        Event::Completed(Some(u)) => Outcome::Found(u),
        Event::Completed(None) => Outcome::NotFound,
        _ => Outcome::Failed(ResolverError::InternalServer),
    }
}

/// One transition. An event that does not answer the pending action is a
/// fault below the service and counts as an internal failure; a lease that
/// is held is still given back first.
pub open spec fn next(r: Resolution, e: Event) -> Step {
    match r {
        Resolution::AcquiringLease(job) => match e {
            Event::LeaseGranted => Step::Continue(Resolution::Executing, Action::Execute(job)),
            _ => Step::Finished(Outcome::Failed(ResolverError::InternalServer)),
        },
        Resolution::Executing => match e {
            Event::LeaseReturned => Step::Finished(Outcome::Failed(ResolverError::InternalServer)),
            _ => Step::Continue(Resolution::Releasing(settle(e)), Action::ReleaseLease),
        },
        Resolution::Releasing(o) => match e {
            Event::LeaseReturned => Step::Finished(o),
            _ => Step::Continue(Resolution::Releasing(o), Action::ReleaseLease),
        },
    }
}

/// A request with valid input: it waits for a connection to run `job` on.
pub open spec fn begin(job: Job) -> Step {
    Step::Continue(Resolution::AcquiringLease(job), Action::AcquireLease)
}

/// Whether `s` rejects the request at once, with `reason`, before any lease.
pub open spec fn rejected(s: Step, reason: Seq<char>) -> bool {
    s matches Step::Finished(Outcome::Failed(ResolverError::UnprocessableContent(m))) && m@
        == reason
}

/// Where the steps lead from `s` when the caller reports `events` in turn.
pub open spec fn run(s: Step, events: Seq<Event>) -> Step
    decreases events.len(),
{
    if events.len() == 0 {
        s
    } else {
        match s {
            Step::Continue(r, _) => run(next(r, events[0]), events.drop_first()),
            Step::Finished(_) => s,
        }
    }
}

impl Resolution {
    /// Whether the request holds a leased connection.
    pub open spec fn holds_lease(self) -> bool {
        !(self is AcquiringLease)
    }

    /// Takes the caller's report of the pending action.
    pub fn step(self, e: Event) -> (s: Step)
        ensures
            s == next(self, e),
    {
        match self {
            Resolution::AcquiringLease(job) => match e {
                Event::LeaseGranted => Step::Continue(Resolution::Executing, Action::Execute(job)),
                _ => Step::Finished(Outcome::Failed(ResolverError::InternalServer)),
            },
            Resolution::Executing => match e {
                Event::LeaseReturned => Step::Finished(
                    Outcome::Failed(ResolverError::InternalServer),
                ),
                Event::Completed(Some(u)) => Step::Continue(
                    Resolution::Releasing(Outcome::Found(u)),
                    Action::ReleaseLease,
                ),
                Event::Completed(None) => Step::Continue(
                    Resolution::Releasing(Outcome::NotFound),
                    Action::ReleaseLease,
                ),
                _ => Step::Continue(
                    Resolution::Releasing(Outcome::Failed(ResolverError::InternalServer)),
                    Action::ReleaseLease,
                ),
            },
            Resolution::Releasing(o) => match e {
                Event::LeaseReturned => Step::Finished(o),
                _ => Step::Continue(Resolution::Releasing(o), Action::ReleaseLease),
            },
        }
    }
}

/// The response for an outcome: the shaped record, nothing, or the error.
pub open spec fn response(o: Outcome) -> Result<Option<schema::User>, ResolverError> {
    match o {
        Outcome::Found(u) => Ok(Some(shape(u))),
        Outcome::NotFound => Ok(None),
        Outcome::Failed(e) => Err(e),
    }
}

impl Outcome {
    /// The response that the API boundary returns for this outcome.
    pub fn into_response(self) -> (r: Result<Option<schema::User>, ResolverError>)
        ensures
            r == response(self),
    {
        match self {
            Outcome::Found(u) => Ok(Some(schema::User::from_record(u))),
            Outcome::NotFound => Ok(None),
            Outcome::Failed(e) => Err(e),
        }
    }
}

/// Why a create input is refused, or none where it is complete. The input
/// must be there (its absence gives the plain reason `reason`), then each
/// attribute, in this order.
pub open spec fn missing_reason(input: Option<UserInput>) -> Option<Seq<char>> {
    match input {
        None => Some("reason"@),
        Some(i) => if i.first_name is None {
            Some("firstName is required"@)
        } else if i.last_name is None {
            Some("lastName is required"@)
        } else if i.email_address is None {
            Some("emailAddress is required"@)
        } else {
            None
        },
    }
}

/// Whether `a` holds exactly the attributes of `i`.
pub open spec fn attrs_of(i: UserInput, a: CreateUserAttrs) -> bool {
    &&& i.first_name == Some(a.first_name)
    &&& i.last_name == Some(a.last_name)
    &&& i.email_address == Some(a.email_address)
}

/// Whether `u` is the record prepared for the complete input `i`: its
/// attributes, a version 7 identifier, equal creation and update times, and
/// no deletion time.
pub open spec fn prepared_from(u: User, i: UserInput) -> bool {
    &&& i.first_name matches Some(f) && u.first_name@ == f@
    &&& i.last_name matches Some(l) && u.last_name@ == l@
    &&& i.email_address matches Some(m) && u.email_address@ == m@
    &&& is_v7(u.id.value)
    &&& u.created_at == u.updated_at
    &&& u.deleted_at is None
}

fn unprocessable(reason: &str) -> (e: ResolverError)
    ensures
        e matches ResolverError::UnprocessableContent(m) && m@ == reason@,
{
    ResolverError::UnprocessableContent(reason.to_owned())
}

/// Checks that a create input is there with all of its attributes.
pub fn validate_input(input: Option<UserInput>) -> (r: Result<CreateUserAttrs, ResolverError>)
    ensures
        match missing_reason(input) {
            Some(m) => r matches Err(ResolverError::UnprocessableContent(s)) && s@ == m,
            None => r matches Ok(a) && input matches Some(i) && attrs_of(i, a),
        },
{
    match input {
        None => Err(unprocessable("reason")),
        Some(i) => match (i.first_name, i.last_name, i.email_address) {
            (None, _, _) => Err(unprocessable("firstName is required")),
            (Some(_), None, _) => Err(unprocessable("lastName is required")),
            (Some(_), Some(_), None) => Err(unprocessable("emailAddress is required")),
            (Some(first_name), Some(last_name), Some(email_address)) => Ok(
                CreateUserAttrs { first_name, last_name, email_address },
            ),
        },
    }
}

/// Starts the lookup of a user. A missing identifier is refused at once,
/// before the pool is asked for anything.
pub fn resolve_fetch(id: Option<UserId>) -> (s: Step)
    ensures
        match id {
            None => rejected(s, "reason"@),
            Some(i) => s == begin(Job::Fetch(i)),
        },
{
    match id {
        None => Step::Finished(Outcome::Failed(unprocessable("reason"))),
        Some(i) => Step::Continue(Resolution::AcquiringLease(Job::Fetch(i)), Action::AcquireLease),
    }
}

/// Starts the creation of a user at the instant `now`. An incomplete input is
/// refused at once, before the pool is asked for anything; an instant before
/// 1970 is an internal failure; otherwise the input becomes the record to
/// insert, made at `now`.
pub fn resolve_create_at(input: Option<UserInput>, now: Timestamp) -> (s: Step)
    ensures
        match missing_reason(input) {
            Some(m) => rejected(s, m),
            None => if now.micros < 0 {
                s == Step::Finished(Outcome::Failed(ResolverError::InternalServer))
            } else {
                s matches Step::Continue(
                    Resolution::AcquiringLease(Job::Create(u)),
                    Action::AcquireLease,
                ) && input matches Some(i) && prepared_from(u, i) && u.created_at == now
            },
        },
{
    match validate_input(input) {
        Err(e) => Step::Finished(Outcome::Failed(e)),
        Ok(attrs) => match build_user_at_time(attrs, now) {
            None => Step::Finished(Outcome::Failed(ResolverError::InternalServer)),
            Some(u) => Step::Continue(
                Resolution::AcquiringLease(Job::Create(u)),
                Action::AcquireLease,
            ),
        },
    }
}

/// Starts the creation of a user at the current instant (see
/// `resolve_create_at`).
pub fn resolve_create(input: Option<UserInput>) -> (s: Step)
    ensures
        match missing_reason(input) {
            Some(m) => rejected(s, m),
            None => s == Step::Finished(Outcome::Failed(ResolverError::InternalServer)) || (
            s matches Step::Continue(
                Resolution::AcquiringLease(Job::Create(u)),
                Action::AcquireLease,
            ) && input matches Some(i) && prepared_from(u, i)),
        },
{
    resolve_create_at(input, current_time())
}

} // verus!
