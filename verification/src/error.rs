//! The four ways in which a request fails.

use vstd::prelude::*;
use vstd::std_specs::convert::FromSpecImpl;

verus! {

/// The request carried no credential, or one that the credential check refused.
#[derive(Debug, Clone, Copy, PartialEq, Eq)]
pub struct FailAuth;

/// The `id` of a submitted record is not a 64-bit signed integer.
#[derive(Debug, Clone, Copy, PartialEq, Eq)]
pub struct InvalidID;

/// The collection could not be written to the store.
#[derive(Debug, Clone, Copy, PartialEq, Eq)]
pub struct ServerFailure;

/// The collection holds no record with the requested id.
#[derive(Debug, Clone, Copy, PartialEq, Eq)]
pub struct NotFound;

/// Any of the four failures, as the answer to a request.
#[derive(Debug, Clone, Copy, PartialEq, Eq)]
pub enum Failure {
    FailAuth,
    InvalidID,
    ServerFailure,
    NotFound,
}

impl From<FailAuth> for Failure {
    fn from(_failure: FailAuth) -> (failure: Self) {
        Failure::FailAuth
    }
}

impl FromSpecImpl<FailAuth> for Failure {
    open spec fn obeys_from_spec() -> bool {
        true
    }

    open spec fn from_spec(_failure: FailAuth) -> Self {
        Failure::FailAuth
    }
}

impl From<InvalidID> for Failure {
    fn from(_failure: InvalidID) -> (failure: Self) {
        Failure::InvalidID
    }
}

impl FromSpecImpl<InvalidID> for Failure {
    open spec fn obeys_from_spec() -> bool {
        true
    }

    open spec fn from_spec(_failure: InvalidID) -> Self {
        Failure::InvalidID
    }
}

impl From<ServerFailure> for Failure {
    fn from(_failure: ServerFailure) -> (failure: Self) {
        Failure::ServerFailure
    }
}

impl FromSpecImpl<ServerFailure> for Failure {
    open spec fn obeys_from_spec() -> bool {
        true
    }

    open spec fn from_spec(_failure: ServerFailure) -> Self {
        Failure::ServerFailure
    }
}

impl From<NotFound> for Failure {
    fn from(_failure: NotFound) -> (failure: Self) {
        Failure::NotFound
    }
}

impl FromSpecImpl<NotFound> for Failure {
    open spec fn obeys_from_spec() -> bool {
        true
    }

    open spec fn from_spec(_failure: NotFound) -> Self {
        Failure::NotFound
    }
}

/// The HTTP status that reports a failure.
pub open spec fn status_of(failure: Failure) -> u16 {
    match failure {
        Failure::FailAuth => 401,
        Failure::InvalidID => 400,
        Failure::ServerFailure => 500,
        Failure::NotFound => 404,
    }
}

impl Failure {
    /// The HTTP status that reports the failure.
    pub fn status(self) -> (code: u16)
        ensures
            code == status_of(self),
    {
        match self {
            Failure::FailAuth => 401,
            Failure::InvalidID => 400,
            Failure::ServerFailure => 500,
            Failure::NotFound => 404,
        }
    }
}

/// Each failure has a status of its own, and none is reported as a success.
pub proof fn lemma_status_tells_failures_apart(a: Failure, b: Failure)
    ensures
        status_of(a) == status_of(b) ==> a == b,
        400 <= status_of(a) < 600,
{
}

} // verus!
