//! What every repository of the service shares: the error it reports and the
//! description of the rows it keeps.

use crate::version::Version;
use vstd::prelude::*;

verus! {

/// Why a repository operation did not succeed.
#[derive(Clone, Copy, Debug, PartialEq, Eq, Structural)]
pub enum RepositoryError {
    /// No row answers the query.
    NotFound,
    /// The row is already there.
    AlreadyExists,
    /// A login token was presented after its expiry.
    ExpiredGuard,
    /// The submitted item cannot be read as a model.
    InvalidModel,
    /// A migration step from the first version to the second did not complete.
    MigrationFailed(Version, Version),
    /// Any other failure of the storage layer.
    Other,
}

pub type RepositoryResult<T> = Result<T, RepositoryError>;

/// The columns of the table that holds an item.
pub trait RepositoryItem {
    /// The columns hidden from a reader with the given role.
    fn masked_columns(is_admin: bool) -> Vec<String>;

    /// The columns written when an item is saved.
    fn saved_columns() -> Vec<String>;

    /// Every column of the table.
    fn all_columns() -> Vec<String>;

    /// The name of the table.
    fn table_name() -> String where Self: Sized;
}

/// Marks the types that identify a row.
pub trait RepositoryRowIdentifier {

}

impl RepositoryRowIdentifier for u32 {

}

impl RepositoryRowIdentifier for i32 {

}

impl RepositoryRowIdentifier for u64 {

}

impl RepositoryRowIdentifier for i64 {

}

impl RepositoryRowIdentifier for () {

}

/// How the storage layer classifies a failure of its own.
#[derive(Clone, Copy, Debug, PartialEq, Eq, Structural)]
pub enum StorageFault {
    /// A query that must return a row returned none.
    QueryReturnedNoRows,
    /// A statement that must return no row returned some.
    ExecuteReturnedRows,
    /// Anything else.
    Unclassified,
}

/// How a submitted JSON body was rejected.
#[derive(Clone, Copy, Debug, PartialEq, Eq, Structural)]
pub enum BodyRejection {
    /// Well-formed JSON that does not fit the model.
    DataError,
    /// Text that is not JSON.
    SyntaxError,
    /// Any other rejection.
    Unclassified,
}

/// The error of the storage layer, carried through as it is.
#[verifier::external_type_specification]
#[verifier::external_body]
pub struct ExStorageError(libsql::Error);

/// Tells the variants of `libsql::Error` apart: the two that say how many
/// rows came back, and every other. Nothing is promised of which it is.
#[verifier::external_body]
fn classify(error: &libsql::Error) -> (fault: StorageFault) {
    match error {
        libsql::Error::QueryReturnedNoRows => StorageFault::QueryReturnedNoRows,
        libsql::Error::ExecuteReturnedRows => StorageFault::ExecuteReturnedRows,
        _ => StorageFault::Unclassified,
    }
}

impl RepositoryError {
    /// The repository error that a failure of the storage layer surfaces as.
    pub open spec fn of_fault(fault: StorageFault) -> RepositoryError {
        match fault {
            StorageFault::QueryReturnedNoRows => RepositoryError::NotFound,
            StorageFault::ExecuteReturnedRows => RepositoryError::AlreadyExists,
            StorageFault::Unclassified => RepositoryError::Other,
        }
    }

    /// The repository error that a rejected body surfaces as.
    pub open spec fn of_rejection(rejection: BodyRejection) -> RepositoryError {
        match rejection {
            BodyRejection::DataError => RepositoryError::InvalidModel,
            BodyRejection::SyntaxError => RepositoryError::InvalidModel,
            BodyRejection::Unclassified => RepositoryError::Other,
        }
    }

    pub fn from_fault(fault: StorageFault) -> (error: RepositoryError)
        ensures
            error == RepositoryError::of_fault(fault),
    {
        match fault {
            StorageFault::QueryReturnedNoRows => RepositoryError::NotFound,
            StorageFault::ExecuteReturnedRows => RepositoryError::AlreadyExists,
            StorageFault::Unclassified => RepositoryError::Other,
        }
    }

    /// The repository error that an error of the storage layer surfaces as:
    /// one of the three that a fault surfaces as, whatever the error is.
    pub fn from_storage(error: &libsql::Error) -> (surfaced: RepositoryError)
        ensures
            surfaced is NotFound || surfaced is AlreadyExists || surfaced is Other,
    {
        RepositoryError::from_fault(classify(error))
    }

    pub fn from_rejection(rejection: BodyRejection) -> (error: RepositoryError)
        ensures
            error == RepositoryError::of_rejection(rejection),
    {
        match rejection {
            BodyRejection::DataError | BodyRejection::SyntaxError => RepositoryError::InvalidModel,
            BodyRejection::Unclassified => RepositoryError::Other,
        }
    }
}

} // verus!
