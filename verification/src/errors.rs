use vstd::prelude::*;

verus! {

/// The error taxonomy of the service: every failing operation reports exactly
/// one of these, and the HTTP layer maps each to a status code and a message.
#[derive(Clone, Copy, Debug, PartialEq, Eq, Structural)]
pub enum ServiceError {
    /// Malformed or missing required input.
    ValidationError,
    /// No record exists for the given identifier.
    NotFound,
    /// The record store failed: constraint violation or connectivity.
    StoreError,
    /// The external prediction call failed or returned malformed data.
    PredictionUnavailable,
}

impl ServiceError {
    /// The HTTP status code carried by the response for this error:
    /// a distinct 404 for a missing record, 400 for bad input, and 500 for
    /// store or prediction-dependency failures.
    pub fn http_status(&self) -> (code: u16)
        ensures
            code == match *self {
                ServiceError::ValidationError => 400u16,
                ServiceError::NotFound => 404u16,
                ServiceError::StoreError => 500u16,
                ServiceError::PredictionUnavailable => 500u16,
            },
    {
        match *self {
            ServiceError::ValidationError => 400,
            ServiceError::NotFound => 404,
            ServiceError::StoreError => 500,
            ServiceError::PredictionUnavailable => 500,
        }
    }

    /// The human-readable message for the structured error response.
    pub fn message(&self) -> (msg: String)
        ensures
            msg@ == match *self {
                ServiceError::ValidationError => "invalid input"@,
                ServiceError::NotFound => "account not found"@,
                ServiceError::StoreError => "store operation failed"@,
                ServiceError::PredictionUnavailable => "failed to get payment prediction"@,
            },
    {
        match *self {
            ServiceError::ValidationError => "invalid input".to_owned(),
            ServiceError::NotFound => "account not found".to_owned(),
            ServiceError::StoreError => "store operation failed".to_owned(),
            ServiceError::PredictionUnavailable => "failed to get payment prediction".to_owned(),
        }
    }
}

} // verus!
