use vstd::prelude::*;
use crate::error::PutawayError;
use crate::quantity::{quantity_text, quantity_text_of};
use crate::text::join4;

verus! {

/// What a caller is shown for a failed request: an HTTP status, a short
/// error title and a message. Store failures are shown with a generic
/// message: their text stays inside. Request errors, a short stock among
/// them, are shown with their detail.
#[derive(Debug, Clone)]
pub struct ErrorResponse {
    pub status: u16,
    pub error: String,
    pub message: String,
}

/// The status, title and message shown for `e`.
pub open spec fn response_for(e: PutawayError) -> (u16, Seq<char>, Seq<char>) {
    match e {
        PutawayError::LotNotFound { lot_no } => (404, "Lot not found"@, "Lot '"@ + lot_no@ + "' not found"@),
        PutawayError::ValidationError(m) => (400, "Validation error"@, m@),
        PutawayError::InvalidBin { bin_no, location } => (
            400,
            "Invalid bin"@,
            "Bin '"@ + bin_no@ + "' is not valid in location '"@ + location@ + "'"@,
        ),
        PutawayError::DatabaseError(_) => (500, "Database error"@, "Internal server error occurred"@),
        PutawayError::TransactionError(_) => (500, "Transaction error"@, "Failed to complete transaction"@),
        PutawayError::InsufficientQuantity { requested, available } => (
            400,
            "Insufficient quantity"@,
            "Requested "@ + quantity_text_of(requested as int) + " but only "@ + quantity_text_of(
                available as int,
            ) + " available"@,
        ),
    }
}

/// The response shown to a caller for `e`.
pub fn handle_putaway_error(e: &PutawayError) -> (r: ErrorResponse)
    ensures
        (r.status, r.error@, r.message@) == response_for(*e),
{
    match e {
        PutawayError::LotNotFound { lot_no } => ErrorResponse {
            status: 404,
            error: String::from_str("Lot not found"),
            message: String::from_str("Lot '").concat(lot_no.as_str()).concat("' not found"),
        },
        PutawayError::ValidationError(m) => ErrorResponse {
            status: 400,
            error: String::from_str("Validation error"),
            message: m.clone(),
        },
        PutawayError::InvalidBin { bin_no, location } => ErrorResponse {
            status: 400,
            error: String::from_str("Invalid bin"),
            message: join4("Bin '", bin_no.as_str(), "' is not valid in location '", location.as_str()).concat(
                "'",
            ),
        },
        PutawayError::DatabaseError(_) => ErrorResponse {
            status: 500,
            error: String::from_str("Database error"),
            message: String::from_str("Internal server error occurred"),
        },
        PutawayError::TransactionError(_) => ErrorResponse {
            status: 500,
            error: String::from_str("Transaction error"),
            message: String::from_str("Failed to complete transaction"),
        },
        PutawayError::InsufficientQuantity { requested, available } => ErrorResponse {
            status: 400,
            error: String::from_str("Insufficient quantity"),
            message: join4(
                "Requested ",
                quantity_text(*requested).as_str(),
                " but only ",
                quantity_text(*available).as_str(),
            ).concat(" available"),
        },
    }
}

/// The status, title and message shown when a transfer fails with `e`.
pub open spec fn transfer_response_for(e: PutawayError) -> (u16, Seq<char>, Seq<char>) {
    match e {
        PutawayError::TransactionError(_) => (
            500,
            "Transaction error"@,
            "Failed to complete transfer transaction"@,
        ),
        _ => response_for(e),
    }
}

/// The response shown when a transfer request fails with `e`.
pub fn transfer_error_response(e: &PutawayError) -> (r: ErrorResponse)
    ensures
        (r.status, r.error@, r.message@) == transfer_response_for(*e),
{
    match e {
        PutawayError::TransactionError(_) => ErrorResponse {
            status: 500,
            error: String::from_str("Transaction error"),
            message: String::from_str("Failed to complete transfer transaction"),
        },
        _ => handle_putaway_error(e),
    }
}

} // verus!
