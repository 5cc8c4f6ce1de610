use vstd::prelude::*;

verus! {

/// The failure surface of every public operation of the library.
///
/// Each variant carries a human-readable message; the variant itself is the
/// stable kind that callers map to a transport status.
#[derive(Debug)]
pub enum AppError {
    /// The caller sent something malformed; never retried by the library.
    InvalidInput(String),
    /// A payment, subscription or document that was asked for is absent.
    NotFound(String),
    /// The idempotency guard of a payment request tripped.
    DuplicateRequest(String),
    /// The payment gateway could not be reached or refused to answer.
    GatewayUnavailable(String),
    /// A quota of the user's plan would be exceeded.
    QuotaExceeded(String),
    /// Persistence or an unexpected provider shape failed.
    Internal(String),
}

impl AppError {
    /// The HTTP status that a transport layer reports for this kind of error.
    pub fn status_code(&self) -> (r: u16)
        ensures
            r == match self {
                AppError::InvalidInput(_) => 400u16,
                AppError::NotFound(_) => 404u16,
                AppError::DuplicateRequest(_) => 409u16,
                AppError::GatewayUnavailable(_) => 503u16,
                AppError::QuotaExceeded(_) => 403u16,
                AppError::Internal(_) => 500u16,
            },
    {
        match self {
            AppError::InvalidInput(_) => 400,
            AppError::NotFound(_) => 404,
            AppError::DuplicateRequest(_) => 409,
            AppError::GatewayUnavailable(_) => 503,
            AppError::QuotaExceeded(_) => 403,
            AppError::Internal(_) => 500,
        }
    }

    /// The human-readable message carried by the error.
    pub fn message(&self) -> (r: &String)
        ensures
            r == match self {
                AppError::InvalidInput(m) => m,
                AppError::NotFound(m) => m,
                AppError::DuplicateRequest(m) => m,
                AppError::GatewayUnavailable(m) => m,
                AppError::QuotaExceeded(m) => m,
                AppError::Internal(m) => m,
            },
    {
        match self {
            AppError::InvalidInput(m) => m,
            AppError::NotFound(m) => m,
            AppError::DuplicateRequest(m) => m,
            AppError::GatewayUnavailable(m) => m,
            AppError::QuotaExceeded(m) => m,
            AppError::Internal(m) => m,
        }
    }
}

} // verus!
