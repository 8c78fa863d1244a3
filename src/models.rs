//! The stored user record and the preparation of a new one.
use vstd::prelude::*;

verus! {

/// A user identifier: the 128 bits of a UUID, most significant byte first.
#[derive(Clone, Copy, Debug, PartialEq, Eq, Structural, Hash)]
pub struct UserId {
    pub value: u128,
}

/// An instant, as microseconds since the Unix epoch (UTC).
#[derive(Clone, Copy, Debug, PartialEq, Eq, Structural, Hash)]
pub struct Timestamp {
    pub micros: i64,
}

/// Whether a UUID carries version 7 in its version nibble and the RFC 4122
/// variant in its two variant bits.
pub open spec fn is_v7(value: u128) -> bool {
    &&& (value >> 76u128) & 0xfu128 == 7
    &&& (value >> 62u128) & 0x3u128 == 2
}

/// Relies on `uuid::Uuid::new_v7` over
/// `uuid::Timestamp::from_unix(uuid::NoContext, secs, nanos)`, which builds a
/// version 7 UUID of the RFC 4122 variant from that instant and random bits,
/// and on `Uuid::as_u128`, which gives its bytes most significant first.
#[verifier::external_body]
fn v7_id(secs: u64, nanos: u32) -> (r: UserId)
    ensures
        is_v7(r.value),
{
    UserId { value: uuid::Uuid::new_v7(uuid::Timestamp::from_unix(uuid::NoContext, secs, nanos)).as_u128() }
}

/// Relies on chrono's `From<std::time::SystemTime> for DateTime<Utc>`, which
/// takes the instant of `SystemTime::now` (one before 1970 as a negative
/// one), and on `DateTime::timestamp_micros` to count it in microseconds.
/// Nothing is promised of the instant.
#[verifier::external_body]
pub(crate) fn current_time() -> (r: Timestamp) {
    Timestamp { micros: chrono::DateTime::<chrono::Utc>::from(std::time::SystemTime::now()).timestamp_micros() }
}

/// A stored user. The store owns it; the service only holds copies.
#[derive(Clone, Debug)]
pub struct User {
    pub id: UserId,
    pub first_name: String,
    pub last_name: String,
    pub email_address: String,
    pub created_at: Timestamp,
    pub updated_at: Timestamp,
    pub deleted_at: Option<Timestamp>,
}

impl User {
    /// Field-wise equality, the names compared by their characters.
    pub open spec fn same_as(&self, o: &User) -> bool {
        &&& self.id == o.id
        &&& self.first_name@ == o.first_name@
        &&& self.last_name@ == o.last_name@
        &&& self.email_address@ == o.email_address@
        &&& self.created_at == o.created_at
        &&& self.updated_at == o.updated_at
        &&& self.deleted_at == o.deleted_at
    }
}

impl PartialEq for User {
    fn eq(&self, o: &User) -> (r: bool)
        ensures
            r == self.same_as(o),
    {
        let same_deletion = match (self.deleted_at, o.deleted_at) {
            (Some(a), Some(b)) => a.micros == b.micros,
            (None, None) => true,
            _ => false,
        };
        self.id.value == o.id.value && self.first_name == o.first_name && self.last_name
            == o.last_name && self.email_address == o.email_address && self.created_at.micros
            == o.created_at.micros && self.updated_at.micros == o.updated_at.micros
            && same_deletion
    }
}

impl vstd::std_specs::cmp::PartialEqSpecImpl for User {
    open spec fn obeys_eq_spec() -> bool {
        true
    }

    open spec fn eq_spec(&self, o: &User) -> bool {
        self.same_as(o)
    }
}

/// The caller-supplied attributes of a new user.
#[derive(Clone, Debug)]
pub struct CreateUserAttrs {
    pub first_name: String,
    pub last_name: String,
    pub email_address: String,
}

/// Whether `u` is the fresh record for `attrs` with identifier `id`, made at
/// `now`: both timestamps are `now` and it is not deleted.
pub open spec fn is_fresh_record(u: User, attrs: CreateUserAttrs, id: UserId, now: Timestamp) -> bool {
    &&& u.id == id
    &&& u.first_name@ == attrs.first_name@
    &&& u.last_name@ == attrs.last_name@
    &&& u.email_address@ == attrs.email_address@
    &&& u.created_at == now
    &&& u.updated_at == now
    &&& u.deleted_at is None
}

/// The record to insert for `attrs`, with the given identifier and instant.
pub fn build_user_at(attrs: CreateUserAttrs, id: UserId, now: Timestamp) -> (r: User)
    ensures
        is_fresh_record(r, attrs, id, now),
{
    User {
        id,
        first_name: attrs.first_name,
        last_name: attrs.last_name,
        email_address: attrs.email_address,
        created_at: now,
        updated_at: now,
        deleted_at: None,
    }
}

/// The record to insert for `attrs` at the instant `now`: a new version 7
/// identifier made from `now`, which is both its creation and its update
/// time. There is none for an instant before 1970, which a version 7
/// identifier cannot hold.
pub fn build_user_at_time(attrs: CreateUserAttrs, now: Timestamp) -> (r: Option<User>)
    ensures
        now.micros < 0 ==> r is None,
        now.micros >= 0 ==> (r matches Some(u) && is_fresh_record(u, attrs, u.id, now) && is_v7(
            u.id.value,
        )),
{
    if now.micros < 0 {
        return None;
    }
    let secs = (now.micros / 1_000_000) as u64;
    let nanos = ((now.micros % 1_000_000) * 1000) as u32;
    let id = v7_id(secs, nanos);
    Some(build_user_at(attrs, id, now))
}

/// The record to insert for `attrs`, made at the current instant (see
/// `build_user_at_time`); none where the clock reads before 1970.
pub fn build_user(attrs: CreateUserAttrs) -> (r: Option<User>)
    ensures
        r matches Some(u) ==> is_fresh_record(u, attrs, u.id, u.created_at) && is_v7(u.id.value)
            && u.created_at.micros >= 0,
{
    build_user_at_time(attrs, current_time())
}

} // verus!
