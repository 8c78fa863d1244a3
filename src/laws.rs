//! What holds of every resolution, whatever the store and the pool do.
use vstd::prelude::*;
use crate::bridge::{begin, next, response, run, Event, Job, Outcome, PoolFailure, Resolution, Step};
use crate::error::{internal_code, ResolverError};
use crate::models::{User, UserId};
use crate::schema::shape;

verus! {

/// The reports of a request that gets a connection, runs its job with the
/// result `answer`, and gives the connection back.
pub open spec fn served(answer: Event) -> Seq<Event> {
    seq![Event::LeaseGranted, answer, Event::LeaseReturned]
}

proof fn lemma_run_served(job: Job, answer: Event)
    requires
        !(answer is LeaseReturned),
    ensures
        run(begin(job), served(answer)) == match next(Resolution::Executing, answer) {
            Step::Continue(Resolution::Releasing(o), _) => Step::Finished(o),
            other => other,
        },
{
    let events = served(answer);
    assert(events.drop_first() =~= seq![answer, Event::LeaseReturned]);
    assert(events.drop_first().drop_first() =~= seq![Event::LeaseReturned]);
    assert(events.drop_first().drop_first().drop_first() =~= Seq::<Event>::empty());
    reveal_with_fuel(run, 4);
}

/// A record that the store returns for a create, and returns again for a
/// lookup of its identifier, is found by both; the response is that record,
/// shaped.
pub proof fn lemma_round_trip(prepared: User, stored: User)
    ensures
        run(begin(Job::Create(prepared)), served(Event::Completed(Some(stored))))
            == Step::Finished(Outcome::Found(stored)),
        run(begin(Job::Fetch(stored.id)), served(Event::Completed(Some(stored))))
            == Step::Finished(Outcome::Found(stored)),
        response(Outcome::Found(stored)) == Ok::<Option<crate::schema::User>, ResolverError>(
            Some(shape(stored)),
        ),
{
    lemma_run_served(Job::Create(prepared), Event::Completed(Some(stored)));
    lemma_run_served(Job::Fetch(stored.id), Event::Completed(Some(stored)));
}

/// A lookup for which the store has no record ends in `NotFound`, which is
/// answered with no user and no error.
pub proof fn lemma_absent_is_not_found(id: UserId)
    ensures
        run(begin(Job::Fetch(id)), served(Event::Completed(None))) == Step::Finished(
            Outcome::NotFound,
        ),
        response(Outcome::NotFound) == Ok::<Option<crate::schema::User>, ResolverError>(None),
{
    lemma_run_served(Job::Fetch(id), Event::Completed(None));
}

/// A refused lease, work that could not run, and a failed storage operation
/// all end in the same internal error, with the same code.
pub proof fn lemma_failures_are_uniform(job: Job, why: PoolFailure)
    ensures
        run(begin(job), seq![Event::LeaseRefused(why)]) == Step::Finished(
            Outcome::Failed(ResolverError::InternalServer),
        ),
        run(begin(job), served(Event::OffloadFailed)) == Step::Finished(
            Outcome::Failed(ResolverError::InternalServer),
        ),
        run(begin(job), served(Event::RepositoryFailed)) == Step::Finished(
            Outcome::Failed(ResolverError::InternalServer),
        ),
        ResolverError::InternalServer.spec_code() == internal_code(),
{
    let refused = seq![Event::LeaseRefused(why)];
    assert(refused.drop_first() =~= Seq::<Event>::empty());
    reveal_with_fuel(run, 2);
    lemma_run_served(job, Event::OffloadFailed);
    lemma_run_served(job, Event::RepositoryFailed);
}

/// A request holds at most its one lease, asks for it only at the start,
/// and lets go of it only when it is back in the pool: once a lease is held,
/// every action until the end is to give it back.
pub proof fn lemma_lease_hygiene(r: Resolution, e: Event)
    ensures
        next(r, e) is Finished && r.holds_lease() ==> e is LeaseReturned,
        next(r, e) matches Step::Continue(r2, a) ==> r2.holds_lease() && !(a is AcquireLease),
        r.holds_lease() ==> (next(r, e) matches Step::Continue(_, a) ==> a is ReleaseLease),
        next(r, e) is Continue && !r.holds_lease() ==> e is LeaseGranted,
{
}

/// Whatever the work reports, a request that got its lease gives it back,
/// and is finished once it is back.
pub proof fn lemma_lease_always_returned(job: Job, answer: Event)
    requires
        !(answer is LeaseReturned),
    ensures
        next(Resolution::Executing, answer) matches Step::Continue(_, a) && a is ReleaseLease,
        run(begin(job), served(answer)) is Finished,
{
    lemma_run_served(job, answer);
}

/// How many of the requests `rs` hold a lease.
pub open spec fn leases_held(rs: Seq<Resolution>) -> nat
    decreases rs.len(),
{
    if rs.len() == 0 {
        0
    } else {
        leases_held(rs.drop_last()) + if rs.last().holds_lease() {
            1nat
        } else {
            0nat
        }
    }
}

/// One for a request that holds a lease, else zero.
pub open spec fn lease_of(r: Resolution) -> nat {
    if r.holds_lease() {
        1
    } else {
        0
    }
}

proof fn lemma_leases_held_update(rs: Seq<Resolution>, i: int, x: Resolution)
    requires
        0 <= i < rs.len(),
    ensures
        leases_held(rs.update(i, x)) + lease_of(rs[i]) == leases_held(rs) + lease_of(x),
    decreases rs.len(),
{
    if i < rs.len() - 1 {
        assert(rs.update(i, x).drop_last() =~= rs.drop_last().update(i, x));
        lemma_leases_held_update(rs.drop_last(), i, x);
    } else {
        assert(rs.update(i, x).drop_last() =~= rs.drop_last());
    }
}

proof fn lemma_leases_held_remove(rs: Seq<Resolution>, i: int)
    requires
        0 <= i < rs.len(),
    ensures
        leases_held(rs.remove(i)) + lease_of(rs[i]) == leases_held(rs),
    decreases rs.len(),
{
    if i < rs.len() - 1 {
        assert(rs.remove(i).drop_last() =~= rs.drop_last().remove(i));
        assert(rs.remove(i).last() == rs.last());
        lemma_leases_held_remove(rs.drop_last(), i);
    } else {
        assert(rs.remove(i) =~= rs.drop_last());
    }
}

/// The requests in flight after request `i` of `rs` takes the report `e`:
/// it moves on, or leaves once finished.
pub open spec fn after_step(rs: Seq<Resolution>, i: int, e: Event) -> Seq<Resolution> {
    match next(rs[i], e) {
        Step::Continue(r2, _) => rs.update(i, r2),
        Step::Finished(_) => rs.remove(i),
    }
}

/// Across any number of requests in flight, a step changes how many of them
/// hold a lease by exactly the lease that the pool just handed to one of
/// them or took back from it. So the requests together hold as many leases
/// as the pool has handed out and not had back, never more than it has.
pub proof fn lemma_leases_follow_the_pool(rs: Seq<Resolution>, i: int, e: Event)
    requires
        0 <= i < rs.len(),
    ensures
        leases_held(after_step(rs, i, e)) + (if e is LeaseReturned && rs[i].holds_lease() {
            1nat
        } else {
            0nat
        }) == leases_held(rs) + (if e is LeaseGranted && !rs[i].holds_lease() {
            1nat
        } else {
            0nat
        }),
{
    match next(rs[i], e) {
        Step::Continue(r2, _) => lemma_leases_held_update(rs, i, r2),
        Step::Finished(_) => lemma_leases_held_remove(rs, i),
    }
}

} // verus!
