use vstd::prelude::*;
use crate::balance::BalanceRecord;
use crate::error::PutawayError;
use crate::quantity::QUANTITY_TOLERANCE;
use crate::text::{join2, join4, same_text};

verus! {

/// An approved transfer: how much actually moves, and whether the move
/// empties the source bin.
#[derive(Debug, Clone, Copy, PartialEq, Eq, Structural)]
pub struct TransferPlan {
    pub actual_quantity: i64,
    pub is_full_transfer: bool,
}

/// A request within the tolerance of the available quantity empties the bin.
pub open spec fn is_full_request(requested: int, available: int) -> bool {
    requested + QUANTITY_TOLERANCE >= available
}

/// A request above the available quantity by more than the tolerance.
pub open spec fn exceeds_available(requested: int, available: int) -> bool {
    requested > available + QUANTITY_TOLERANCE
}

/// The plan approved for a request of `requested` against `available`:
/// a full transfer moves exactly what is available.
pub open spec fn approved_plan(requested: i64, available: i64) -> TransferPlan {
    if is_full_request(requested as int, available as int) {
        TransferPlan { actual_quantity: available, is_full_transfer: true }
    } else {
        TransferPlan { actual_quantity: requested, is_full_transfer: false }
    }
}

pub open spec fn not_found_message(lot_no: Seq<char>, bin_from: Seq<char>) -> Seq<char> {
    "Lot "@ + lot_no + " not found in bin "@ + bin_from + " or insufficient quantity available"@
}

pub open spec fn item_mismatch_message(found: Seq<char>, given: Seq<char>) -> Seq<char> {
    "Item key mismatch: expected "@ + found + ", got "@ + given
}

pub open spec fn location_mismatch_message(found: Seq<char>, given: Seq<char>) -> Seq<char> {
    "Location mismatch: expected "@ + found + ", got "@ + given
}

pub open spec fn nonpositive_message() -> Seq<char> {
    "Transfer quantity must be greater than 0"@
}

pub open spec fn same_bin_message() -> Seq<char> {
    "Source and destination bins cannot be the same"@
}

/// `r` is a `ValidationError` whose message is `m`.
pub open spec fn is_validation_error<T>(r: Result<T, PutawayError>, m: Seq<char>) -> bool {
    r matches Err(PutawayError::ValidationError(msg)) && msg@ == m
}

/// `r` is the verdict on moving `requested` units of the lot from
/// `bin_from` to `bin_to` on the available-quantity path: `source` is the
/// row found at the source bin, `destination_exists` whether `bin_to` is a
/// known bin. The checks run in this order: source row present, item and
/// location match, enough available stock, positive quantity, known
/// destination, distinct bins.
pub open spec fn transfer_verdict(
    source: Option<BalanceRecord>,
    lot_no: Seq<char>,
    item_key: Seq<char>,
    location: Seq<char>,
    bin_from: Seq<char>,
    bin_to: Seq<char>,
    requested: i64,
    destination_exists: bool,
    r: Result<TransferPlan, PutawayError>,
) -> bool {
        &&& source is None ==> is_validation_error(r, not_found_message(lot_no, bin_from))
        &&& source matches Some(rec) ==> {
            let available = rec.available();
            if rec.item_key@ != item_key {
                is_validation_error(r, item_mismatch_message(rec.item_key@, item_key))
            } else if rec.location@ != location {
                is_validation_error(r, location_mismatch_message(rec.location@, location))
            } else if exceeds_available(requested as int, available) {
                r matches Err(PutawayError::InsufficientQuantity { requested: q, available: a })
                    && q == requested && a == available
            } else if requested <= 0 {
                is_validation_error(r, nonpositive_message())
            } else if !destination_exists {
                r matches Err(PutawayError::InvalidBin { bin_no, location: loc })
                    && bin_no@ == bin_to && loc@ == location
            } else if bin_from == bin_to {
                is_validation_error(r, same_bin_message())
            } else {
                r == Ok::<TransferPlan, PutawayError>(approved_plan(requested, available as i64))
            }
        }
}

/// Decides whether a transfer of `requested` units of the lot may go from
/// `bin_from` to `bin_to`.
///
/// `source` is the balance row found for the lot at the source bin, if any;
/// `destination_exists` tells whether `bin_to` is a known bin of `location`.
/// The checks run in this order: source row present, item and location
/// match, enough available stock, positive quantity, known destination,
/// distinct bins.
pub fn validate_transfer(
    source: &Option<BalanceRecord>,
    lot_no: &str,
    item_key: &str,
    location: &str,
    bin_from: &str,
    bin_to: &str,
    requested: i64,
    destination_exists: bool,
) -> (r: Result<TransferPlan, PutawayError>)
    requires
        source matches Some(rec) ==> rec.wf(),
    ensures
        transfer_verdict(*source, lot_no@, item_key@, location@, bin_from@, bin_to@, requested, destination_exists, r),
{
    match source {
        None => {
            let m = join4("Lot ", lot_no, " not found in bin ", bin_from);
            let m = m.concat(" or insufficient quantity available");
            Err(PutawayError::ValidationError(m))
        },
        Some(rec) => {
            if !same_text(rec.item_key.as_str(), item_key) {
                return Err(
                    PutawayError::ValidationError(
                        join4("Item key mismatch: expected ", rec.item_key.as_str(), ", got ", item_key),
                    ),
                );
            }
            if !same_text(rec.location.as_str(), location) {
                return Err(
                    PutawayError::ValidationError(
                        join4("Location mismatch: expected ", rec.location.as_str(), ", got ", location),
                    ),
                );
            }
            let available: i64 = rec.qty_on_hand - rec.qty_committed;
            if requested as i128 > available as i128 + QUANTITY_TOLERANCE as i128 {
                return Err(PutawayError::InsufficientQuantity { requested, available });
            }
            if requested <= 0 {
                return Err(PutawayError::ValidationError(String::from_str("Transfer quantity must be greater than 0")));
            }
            let is_full_transfer = requested as i128 + QUANTITY_TOLERANCE as i128 >= available as i128;
            let actual_quantity = if is_full_transfer {
                available
            } else {
                requested
            };
            if !destination_exists {
                return Err(
                    PutawayError::InvalidBin {
                        bin_no: String::from_str(bin_to),
                        location: String::from_str(location),
                    },
                );
            }
            if same_text(bin_from, bin_to) {
                return Err(
                    PutawayError::ValidationError(
                        String::from_str("Source and destination bins cannot be the same"),
                    ),
                );
            }
            Ok(TransferPlan { actual_quantity, is_full_transfer })
        },
    }
}

pub open spec fn source_missing_message() -> Seq<char> {
    "Source lot not found"@
}

/// `r` is the verdict on moving `requested` units of reserved stock from
/// `bin_from` to `bin_to`. Reserved stock moves with its reservation, so
/// the request is measured against the stock on hand, with the same
/// tolerance as on the available-quantity path. The checks run in this
/// order: known destination, source row present, positive quantity, enough
/// stock on hand, distinct bins.
pub open spec fn committed_verdict(
    source: Option<BalanceRecord>,
    location: Seq<char>,
    bin_from: Seq<char>,
    bin_to: Seq<char>,
    requested: i64,
    destination_exists: bool,
    r: Result<TransferPlan, PutawayError>,
) -> bool {
    if !destination_exists {
        r matches Err(PutawayError::InvalidBin { bin_no, location: loc }) && bin_no@ == bin_to && loc@ == location
    } else {
        match source {
            None => is_validation_error(r, source_missing_message()),
            Some(rec) => if requested <= 0 {
                is_validation_error(r, nonpositive_message())
            } else if exceeds_available(requested as int, rec.qty_on_hand as int) {
                r matches Err(PutawayError::InsufficientQuantity { requested: q, available: a }) && q == requested
                    && a == rec.qty_on_hand
            } else if bin_from == bin_to {
                is_validation_error(r, same_bin_message())
            } else {
                r == Ok::<TransferPlan, PutawayError>(approved_plan(requested, rec.qty_on_hand))
            },
        }
    }
}

/// Decides whether reserved stock of the lot may move from `bin_from` to
/// `bin_to`; see [`committed_verdict`].
pub fn validate_committed_transfer(
    source: &Option<BalanceRecord>,
    location: &str,
    bin_from: &str,
    bin_to: &str,
    requested: i64,
    destination_exists: bool,
) -> (r: Result<TransferPlan, PutawayError>)
    requires
        source matches Some(rec) ==> rec.wf(),
    ensures
        committed_verdict(*source, location@, bin_from@, bin_to@, requested, destination_exists, r),
{
    if !destination_exists {
        return Err(
            PutawayError::InvalidBin { bin_no: String::from_str(bin_to), location: String::from_str(location) },
        );
    }
    match source {
        None => Err(PutawayError::ValidationError(String::from_str("Source lot not found"))),
        Some(rec) => {
            if requested <= 0 {
                return Err(PutawayError::ValidationError(String::from_str("Transfer quantity must be greater than 0")));
            }
            if requested as i128 > rec.qty_on_hand as i128 + QUANTITY_TOLERANCE as i128 {
                return Err(PutawayError::InsufficientQuantity { requested, available: rec.qty_on_hand });
            }
            if same_text(bin_from, bin_to) {
                return Err(
                    PutawayError::ValidationError(
                        String::from_str("Source and destination bins cannot be the same"),
                    ),
                );
            }
            let is_full_transfer = requested as i128 + QUANTITY_TOLERANCE as i128 >= rec.qty_on_hand as i128;
            Ok(
                TransferPlan {
                    actual_quantity: if is_full_transfer {
                        rec.qty_on_hand
                    } else {
                        requested
                    },
                    is_full_transfer,
                },
            )
        },
    }
}

} // verus!
