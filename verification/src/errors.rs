//! The errors that the flows answer with, and the failures that the outside
//! reports to them.

use vstd::prelude::*;

verus! {

/// What a flow answers its caller where it cannot succeed.
#[derive(Debug, PartialEq, Eq)]
pub enum ApiErrorResponse {
    InternalServerError,
    IncorrectPaymentMethodConfiguration,
    CustomerNotFound,
    CustomerRedacted,
    PaymentMethodNotFound,
    ClientSecretExpired,
    MissingRequiredField { field_name: &'static str },
    InvalidDataValue { field_name: &'static str },
    InvalidRequestData { message: String },
    PreconditionFailed { message: String },
    UnprocessableEntity { message: String },
    GenericNotFoundError { message: String },
    GenericDuplicateError { message: String },
    /// An error that an outside service answered with, handed on as it came.
    Upstream { code: String, message: String },
}

/// How a storage operation failed.
#[derive(Clone, Copy, Debug, PartialEq, Eq, Structural)]
pub enum StorageError {
    ValueNotFound,
    DuplicateValue,
    CustomerRedacted,
    Other,
}

impl StorageError {
    /// Whether the failure is that the record does not exist.
    pub fn is_db_not_found(&self) -> (r: bool)
        ensures
            r == (*self is ValueNotFound),
    {
        match self {
            StorageError::ValueNotFound => true,
            _ => false,
        }
    }

    /// The answer to a failed lookup, where a missing record is answered with
    /// `not_found`.
    pub open spec fn not_found_response(self, not_found: ApiErrorResponse) -> ApiErrorResponse {
        match self {
            StorageError::ValueNotFound => not_found,
            StorageError::CustomerRedacted => ApiErrorResponse::CustomerRedacted,
            _ => ApiErrorResponse::InternalServerError,
        }
    }

    /// Computes [`StorageError::not_found_response`].
    pub fn to_not_found_response(self, not_found: ApiErrorResponse) -> (r: ApiErrorResponse)
        ensures
            r == self.not_found_response(not_found),
    {
        match self {
            StorageError::ValueNotFound => not_found,
            StorageError::CustomerRedacted => ApiErrorResponse::CustomerRedacted,
            _ => ApiErrorResponse::InternalServerError,
        }
    }

    /// The answer to a failed insertion, where an existing record is answered
    /// with `duplicate`.
    pub open spec fn duplicate_response(self, duplicate: ApiErrorResponse) -> ApiErrorResponse {
        match self {
            StorageError::DuplicateValue => duplicate,
            _ => ApiErrorResponse::InternalServerError,
        }
    }

    /// Computes [`StorageError::duplicate_response`].
    pub fn to_duplicate_response(self, duplicate: ApiErrorResponse) -> (r: ApiErrorResponse)
        ensures
            r == self.duplicate_response(duplicate),
    {
        match self {
            StorageError::DuplicateValue => duplicate,
            _ => ApiErrorResponse::InternalServerError,
        }
    }
}

/// An outside operation failed, and its caller answers with an error of its
/// own whatever the cause was.
#[derive(Clone, Copy, Debug, PartialEq, Eq, Structural)]
pub struct OperationFailed;

/// A missing record is told as such, a redacted customer is told as such where a
/// record was looked for, an existing record is told where one was inserted, and
/// every other failure is an internal error.
pub proof fn failures_are_told_by_their_cause(
    error: StorageError,
    not_found: ApiErrorResponse,
    duplicate: ApiErrorResponse,
    is_missing: bool,
    of_lookup: ApiErrorResponse,
    of_insertion: ApiErrorResponse,
)
    requires
        call_ensures(StorageError::is_db_not_found, (&error,), is_missing),
        call_ensures(StorageError::to_not_found_response, (error, not_found), of_lookup),
        call_ensures(StorageError::to_duplicate_response, (error, duplicate), of_insertion),
    ensures
        is_missing <==> error == StorageError::ValueNotFound,
        error is ValueNotFound ==> of_lookup == not_found
            && of_insertion is InternalServerError,
        error is CustomerRedacted ==> of_lookup is CustomerRedacted
            && of_insertion is InternalServerError,
        error is DuplicateValue ==> of_lookup is InternalServerError && of_insertion == duplicate,
        error is Other ==> of_lookup is InternalServerError && of_insertion is InternalServerError,
{
}

} // verus!
