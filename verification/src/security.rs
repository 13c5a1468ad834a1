//! The guard in front of every operation on the records.
//!
//! How a credential is encoded and checked is not decided here: the caller
//! runs that check on the request's credential header and hands in what it
//! found. The guard turns the finding into a user context or a refusal.

use vstd::prelude::*;

use crate::error::FailAuth;

verus! {

/// What the credential check found in a request.
#[derive(Debug, Clone, Copy, PartialEq, Eq)]
pub enum Credential {
    /// The request has no credential header.
    Missing,
    /// The header is there, and the check refused it.
    Invalid,
    /// The header is there, and names this user.
    Valid(i64),
}

/// The user on whose behalf one request is served. It lives as long as the
/// request and is never stored.
#[derive(Debug, Clone, Copy, PartialEq, Eq)]
pub struct UserCtx {
    pub user_id: i64,
}

/// The user context that `credential` gives, or the refusal.
pub open spec fn authenticated(credential: Credential) -> Result<UserCtx, FailAuth> {
    match credential {
        Credential::Valid(user_id) => Ok(UserCtx { user_id }),
        Credential::Missing | Credential::Invalid => Err(FailAuth),
    }
}

/// Admits a request with a valid credential, as the user that the credential
/// names, and refuses every other request.
pub fn do_auth(credential: Credential) -> (auth: Result<UserCtx, FailAuth>)
    ensures
        auth == authenticated(credential),
{
    match credential {
        Credential::Valid(user_id) => Ok(UserCtx { user_id }),
        Credential::Missing | Credential::Invalid => Err(FailAuth),
    }
}

} // verus!
