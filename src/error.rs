use vstd::prelude::*;

verus! {

/// What can go wrong while validating or executing a transfer.
///
/// Quantities are in millionths of a stock unit.
#[derive(Debug, Clone)]
pub enum PutawayError {
    LotNotFound { lot_no: String },
    ValidationError(String),
    InvalidBin { bin_no: String, location: String },
    InsufficientQuantity { requested: i64, available: i64 },
    DatabaseError(String),
    TransactionError(String),
}

impl PutawayError {
    /// A variant-by-variant copy.
    pub fn copy_error(&self) -> (r: PutawayError)
        ensures
            r == *self,
    {
        match self {
            PutawayError::LotNotFound { lot_no } => PutawayError::LotNotFound { lot_no: lot_no.clone() },
            PutawayError::ValidationError(m) => PutawayError::ValidationError(m.clone()),
            PutawayError::InvalidBin { bin_no, location } => PutawayError::InvalidBin {
                bin_no: bin_no.clone(),
                location: location.clone(),
            },
            PutawayError::InsufficientQuantity { requested, available } => PutawayError::InsufficientQuantity {
                requested: *requested,
                available: *available,
            },
            PutawayError::DatabaseError(m) => PutawayError::DatabaseError(m.clone()),
            PutawayError::TransactionError(m) => PutawayError::TransactionError(m.clone()),
        }
    }
}

} // verus!
