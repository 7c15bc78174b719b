//! What the handlers of the service answer: the status of each outcome.

use crate::repository::RepositoryError;
use vstd::prelude::*;

verus! {

/// The handlers of the service.
#[derive(Clone, Copy, Debug, PartialEq, Eq, Structural)]
pub enum Endpoint {
    ListFaeries,
    GetFaery,
    UpdateFaery,
    CreateFaery,
    DeleteFaery,
    AuthenticateUser,
    SendLoginEmail,
}

pub const OK: u16 = 200;

pub const CREATED: u16 = 201;

pub const NO_CONTENT: u16 = 204;

pub const BAD_REQUEST: u16 = 400;

pub const NOT_FOUND: u16 = 404;

pub const INTERNAL_SERVER_ERROR: u16 = 500;

impl Endpoint {
    /// The status of a success: `201` for a creation, `204` for a deletion,
    /// `200` for everything else.
    pub open spec fn success(self) -> u16 {
        match self {
            Endpoint::CreateFaery => CREATED,
            Endpoint::DeleteFaery => NO_CONTENT,
            _ => OK,
        }
    }

    /// The status of a failure of the repository. A deletion that fails
    /// found nothing to delete; a lookup answers `404` for what is not
    /// found; every other failure is the server's.
    pub open spec fn failure(self, error: RepositoryError) -> u16 {
        match self {
            Endpoint::DeleteFaery => NOT_FOUND,
            Endpoint::GetFaery | Endpoint::AuthenticateUser => if error is NotFound {
                NOT_FOUND
            } else {
                INTERNAL_SERVER_ERROR
            },
            _ => INTERNAL_SERVER_ERROR,
        }
    }

    /// The status that answers a success.
    pub fn success_status(&self) -> (status: u16)
        ensures
            status == self.success(),
    {
        match self {
            Endpoint::CreateFaery => CREATED,
            Endpoint::DeleteFaery => NO_CONTENT,
            _ => OK,
        }
    }

    /// The status that answers a failure of the repository.
    pub fn failure_status(&self, error: &RepositoryError) -> (status: u16)
        ensures
            status == self.failure(*error),
    {
        match self {
            Endpoint::DeleteFaery => NOT_FOUND,
            Endpoint::GetFaery | Endpoint::AuthenticateUser => match error {
                RepositoryError::NotFound => NOT_FOUND,
                _ => INTERNAL_SERVER_ERROR,
            },
            _ => INTERNAL_SERVER_ERROR,
        }
    }
}

/// Whether a submitted faery is the one that the path of the request names.
/// A faery without a row is none.
pub fn names_same_faery(submitted: Option<i64>, path: i64) -> (same: bool)
    ensures
        same == (submitted == Some(path)),
{
    match submitted {
        Some(id) => id == path,
        None => false,
    }
}

} // verus!
