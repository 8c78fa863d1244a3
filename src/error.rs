//! The errors that a caller of the service can see.
use vstd::prelude::*;

verus! {

/// Why a request failed, as the caller sees it. Every infrastructure fault
/// (pool, offload, storage) is `InternalServer`, whatever its cause.
#[derive(Clone, Debug)]
pub enum ResolverError {
    InternalServer,
    UnprocessableContent(String),
}

/// The machine-readable code of an internal failure.
pub open spec fn internal_code() -> Seq<char> {
    "INTERNAL_SERVER_ERROR"@
}

/// The machine-readable code of a rejected request.
pub open spec fn unprocessable_code() -> Seq<char> {
    "UNPROCESSABLE_CONTENT"@
}

impl ResolverError {
    /// The machine-readable code of this error.
    pub open spec fn spec_code(&self) -> Seq<char> {
        match self {
            ResolverError::InternalServer => internal_code(),
            ResolverError::UnprocessableContent(_) => unprocessable_code(),
        }
    }

    /// The reason given with this error, if any.
    pub open spec fn spec_reason(&self) -> Option<Seq<char>> {
        match self {
            ResolverError::InternalServer => None,
            ResolverError::UnprocessableContent(reason) => Some(reason@),
        }
    }

    /// Same variant, and the same reason where there is one.
    pub open spec fn same_as(&self, o: &ResolverError) -> bool {
        match (self, o) {
            (ResolverError::InternalServer, ResolverError::InternalServer) => true,
            (ResolverError::UnprocessableContent(a), ResolverError::UnprocessableContent(b)) => a@
                == b@,
            _ => false,
        }
    }

    pub fn code(&self) -> (r: &'static str)
        ensures
            r@ == self.spec_code(),
    {
        match self {
            ResolverError::InternalServer => "INTERNAL_SERVER_ERROR",
            ResolverError::UnprocessableContent(_) => "UNPROCESSABLE_CONTENT",
        }
    }

    /// The human-readable message of this error.
    pub fn message(&self) -> (r: &'static str)
        ensures
            self is InternalServer ==> r@ == "Internal server error"@,
            self is UnprocessableContent ==> r@ == "Unprocessable content"@,
    {
        match self {
            ResolverError::InternalServer => "Internal server error",
            ResolverError::UnprocessableContent(_) => "Unprocessable content",
        }
    }

    pub fn reason(&self) -> (r: Option<String>)
        ensures
            r matches Some(s) ==> self.spec_reason() == Some(s@),
            r is None ==> self.spec_reason() is None,
    {
        match self {
            ResolverError::InternalServer => None,
            ResolverError::UnprocessableContent(reason) => Some(reason.clone()),
        }
    }

    /// The error as it goes out on the wire: message, code and reason.
    pub fn extend(&self) -> (r: GqlError)
        ensures
            r.code@ == self.spec_code(),
            r.reason matches Some(s) ==> self.spec_reason() == Some(s@),
            r.reason is None ==> self.spec_reason() is None,
            self is InternalServer ==> r.message@ == "Internal server error"@,
            self is UnprocessableContent ==> r.message@ == "Unprocessable content"@,
    {
        GqlError {
            message: self.message().to_owned(),
            code: self.code().to_owned(),
            reason: self.reason(),
        }
    }
}

impl PartialEq for ResolverError {
    fn eq(&self, o: &ResolverError) -> (r: bool)
        ensures
            r == self.same_as(o),
    {
        match (self, o) {
            (ResolverError::InternalServer, ResolverError::InternalServer) => true,
            (ResolverError::UnprocessableContent(a), ResolverError::UnprocessableContent(b)) => {
                *a == *b
            },
            _ => false,
        }
    }
}

impl vstd::std_specs::cmp::PartialEqSpecImpl for ResolverError {
    open spec fn obeys_eq_spec() -> bool {
        true
    }

    open spec fn eq_spec(&self, o: &ResolverError) -> bool {
        self.same_as(o)
    }
}

/// A failure in the form the API boundary sends: a message, a stable code,
/// and a reason for a rejected request.
#[derive(Clone, Debug)]
pub struct GqlError {
    pub message: String,
    pub code: String,
    pub reason: Option<String>,
}

} // verus!
