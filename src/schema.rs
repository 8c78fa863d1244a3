//! The shapes at the API boundary: the input of a create, the user as a
//! response, and the two entry points.
use vstd::prelude::*;
use crate::models::{Timestamp, UserId};
use crate::models;
use crate::bridge::{begin, missing_reason, prepared_from, rejected, resolve_create, resolve_fetch, Action, Job, Outcome, Resolution, Step};
use crate::error::ResolverError;

verus! {

/// A user as a response carries it. Every field may be absent on the wire;
/// a response made from a stored record has all of them but `deleted_at`,
/// which is there exactly when the record was deleted.
#[derive(Clone, Debug)]
pub struct User {
    pub id: Option<UserId>,
    pub first_name: Option<String>,
    pub last_name: Option<String>,
    pub email_address: Option<String>,
    pub created_at: Option<Timestamp>,
    pub updated_at: Option<Timestamp>,
    pub deleted_at: Option<Timestamp>,
}

impl User {
    /// Field-wise equality, the texts compared by their characters.
    pub open spec fn same_as(&self, o: &User) -> bool {
        &&& self.id == o.id
        &&& same_text(self.first_name, o.first_name)
        &&& same_text(self.last_name, o.last_name)
        &&& same_text(self.email_address, o.email_address)
        &&& self.created_at == o.created_at
        &&& self.updated_at == o.updated_at
        &&& self.deleted_at == o.deleted_at
    }
}

/// Both absent, or both there with the same characters.
pub open spec fn same_text(a: Option<String>, b: Option<String>) -> bool {
    match (a, b) {
        (Some(x), Some(y)) => x@ == y@,
        (None, None) => true,
        _ => false,
    }
}

fn eq_text(a: &Option<String>, b: &Option<String>) -> (r: bool)
    ensures
        r == same_text(*a, *b),
{
    match (a, b) {
        (Some(x), Some(y)) => *x == *y,
        (None, None) => true,
        _ => false,
    }
}

fn eq_instant(a: Option<Timestamp>, b: Option<Timestamp>) -> (r: bool)
    ensures
        r == (a == b),
{
    match (a, b) {
        (Some(x), Some(y)) => x.micros == y.micros,
        (None, None) => true,
        _ => false,
    }
}

impl PartialEq for User {
    fn eq(&self, o: &User) -> (r: bool)
        ensures
            r == self.same_as(o),
    {
        let same_id = match (self.id, o.id) {
            (Some(x), Some(y)) => x.value == y.value,
            (None, None) => true,
            _ => false,
        };
        same_id && eq_text(&self.first_name, &o.first_name) && eq_text(
            &self.last_name,
            &o.last_name,
        ) && eq_text(&self.email_address, &o.email_address) && eq_instant(
            self.created_at,
            o.created_at,
        ) && eq_instant(self.updated_at, o.updated_at) && eq_instant(
            self.deleted_at,
            o.deleted_at,
        )
    }
}

impl vstd::std_specs::cmp::PartialEqSpecImpl for User {
    open spec fn obeys_eq_spec() -> bool {
        true
    }

    open spec fn eq_spec(&self, o: &User) -> bool {
        self.same_as(o)
    }
}

/// The response for a stored record.
pub open spec fn shape(u: models::User) -> User {
    User {
        id: Some(u.id),
        first_name: Some(u.first_name),
        last_name: Some(u.last_name),
        email_address: Some(u.email_address),
        created_at: Some(u.created_at),
        updated_at: Some(u.updated_at),
        deleted_at: u.deleted_at,
    }
}

/// The full name for a first and a last name: the two joined by one space.
pub open spec fn joined_name(first: Seq<char>, last: Seq<char>) -> Seq<char> {
    first + " "@ + last
}

impl User {
    /// The response for the stored record `u`.
    pub fn from_record(u: models::User) -> (r: User)
        ensures
            r == shape(u),
    {
        User {
            id: Some(u.id),
            first_name: Some(u.first_name),
            last_name: Some(u.last_name),
            email_address: Some(u.email_address),
            created_at: Some(u.created_at),
            updated_at: Some(u.updated_at),
            deleted_at: u.deleted_at,
        }
    }

    /// The derived full name: first and last name joined by one space, or
    /// absent where either of them is.
    pub fn full_name(&self) -> (r: Option<String>)
        ensures
            match (self.first_name, self.last_name) {
                (Some(f), Some(l)) => r matches Some(n) && n@ == joined_name(f@, l@),
                _ => r is None,
            },
    {
        match (&self.first_name, &self.last_name) {
            (Some(f), Some(l)) => {
                let mut n = f.clone();
                n.append(" ");
                n.append(l.as_str());
                Some(n)
            },
            _ => None,
        }
    }
}

/// The input of a create, as it arrives: any attribute may be missing.
#[derive(Clone, Debug)]
pub struct UserInput {
    pub first_name: Option<String>,
    pub last_name: Option<String>,
    pub email_address: Option<String>,
}

/// The query entry point for users.
#[derive(Clone, Copy, Debug, Default)]
pub struct UserQuery;

impl UserQuery {
    /// Starts the lookup of the user with identifier `id`.
    pub fn user(&self, id: Option<UserId>) -> (s: Step)
        ensures
            match id {
                None => rejected(s, "reason"@),
                Some(i) => s == begin(Job::Fetch(i)),
            },
    {
        resolve_fetch(id)
    }
}

/// The mutation entry point for users.
#[derive(Clone, Copy, Debug, Default)]
pub struct UserMutation;

impl UserMutation {
    /// Starts the creation of a user from `input`.
    pub fn create_user(&self, input: Option<UserInput>) -> (s: Step)
        ensures
            match missing_reason(input) {
                Some(m) => rejected(s, m),
                None => s == Step::Finished(Outcome::Failed(ResolverError::InternalServer)) || (
                s matches Step::Continue(
                    Resolution::AcquiringLease(Job::Create(u)),
                    Action::AcquireLease,
                ) && input matches Some(i) && prepared_from(u, i)),
            },
    {
        resolve_create(input)
    }
}

} // verus!
