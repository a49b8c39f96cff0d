use vstd::prelude::*;
use crate::actor::ActorRef;
use crate::balance::{BalanceRecord, MovementPolicy};

verus! {

/// Ledger kind of an issue from a bin.
pub const ISSUE_KIND: u8 = 9;

/// Ledger kind of a receipt into a bin.
pub const RECEIPT_KIND: u8 = 8;

/// One side of a movement in the lot ledger.
///
/// Quantities are in millionths of a stock unit; dates are seconds.
#[derive(Debug, Clone)]
pub struct LedgerEntry {
    pub kind: u8,
    pub bin_no: String,
    pub quantity: i64,
    /// Whether the entry is already settled; entries of reserved stock stay
    /// pending, so the reservation keeps counting against the lot.
    pub processed: bool,
    pub date_received: i64,
    pub date_expiry: Option<i64>,
    pub vendor_key: String,
    pub vendor_lot_no: String,
}

/// The transfer-summary record of a movement.
#[derive(Debug, Clone)]
pub struct TransferRecord {
    pub bin_from: String,
    pub bin_to: String,
    /// Stock on hand at the source bin before the move.
    pub qty_on_hand: i64,
    pub quantity: i64,
    pub remarks: String,
    pub reference: String,
    /// Whether the record points at the issue entry's identifier, which the
    /// store assigns when it writes that entry.
    pub links_issue_entry: bool,
}

/// Everything the ledger step writes under one document number.
#[derive(Debug, Clone)]
pub struct LedgerWrites {
    pub document_no: String,
    pub actor: ActorRef,
    pub issue: LedgerEntry,
    pub receipt: LedgerEntry,
    pub transfer: TransferRecord,
}

/// `e` records `quantity` of kind `kind` at `bin`, dated and attributed
/// from the `source` row as it was before the move; `now` stands in for a
/// missing date.
pub open spec fn is_entry_for(
    e: LedgerEntry,
    policy: MovementPolicy,
    kind: u8,
    bin: Seq<char>,
    source: BalanceRecord,
    quantity: i64,
    now: i64,
) -> bool {
    &&& e.kind == kind
    &&& e.bin_no@ == bin
    &&& e.quantity == quantity
    &&& e.processed == (policy is AvailableQuantity)
    &&& e.date_received == source.date_received.unwrap_or(now)
    &&& e.date_expiry == match policy {
        MovementPolicy::AvailableQuantity => Some(source.date_expiry.unwrap_or(now)),
        MovementPolicy::CommittedStock => source.date_expiry,
    }
    &&& e.vendor_key == source.vendor_key
    &&& e.vendor_lot_no == source.vendor_lot_no
}

/// `w` is the ledger of moving `quantity` from `bin_from` to `bin_to`
/// under `document_no`: an issue at the source bin, a receipt at the
/// destination bin, and a summary carrying the remarks and reference, which
/// points at the issue entry on the available-quantity path.
pub open spec fn is_ledger_for(
    w: LedgerWrites,
    policy: MovementPolicy,
    bin_from: Seq<char>,
    bin_to: Seq<char>,
    remarks: Seq<char>,
    reference: Seq<char>,
    source: BalanceRecord,
    document_no: Seq<char>,
    quantity: i64,
    now: i64,
) -> bool {
    &&& w.document_no@ == document_no
    &&& is_entry_for(w.issue, policy, ISSUE_KIND, bin_from, source, quantity, now)
    &&& is_entry_for(w.receipt, policy, RECEIPT_KIND, bin_to, source, quantity, now)
    &&& w.transfer.bin_from@ == bin_from
    &&& w.transfer.bin_to@ == bin_to
    &&& w.transfer.qty_on_hand == source.qty_on_hand
    &&& w.transfer.quantity == quantity
    &&& w.transfer.remarks@ == remarks
    &&& w.transfer.reference@ == reference
    &&& w.transfer.links_issue_entry == (policy is AvailableQuantity)
}

fn entry(policy: MovementPolicy, kind: u8, bin: &str, source: &BalanceRecord, quantity: i64, now: i64) -> (r: LedgerEntry)
    ensures
        is_entry_for(r, policy, kind, bin@, *source, quantity, now),
{
    let date_received = match source.date_received {
        Some(t) => t,
        None => now,
    };
    let date_expiry = match policy {
        MovementPolicy::AvailableQuantity => Some(
            match source.date_expiry {
                Some(t) => t,
                None => now,
            },
        ),
        MovementPolicy::CommittedStock => source.date_expiry,
    };
    LedgerEntry {
        kind,
        bin_no: String::from_str(bin),
        quantity,
        processed: match policy {
            MovementPolicy::AvailableQuantity => true,
            MovementPolicy::CommittedStock => false,
        },
        date_received,
        date_expiry,
        vendor_key: source.vendor_key.clone(),
        vendor_lot_no: source.vendor_lot_no.clone(),
    }
}

/// The ledger of moving `quantity` of the lot out of the `source` row's bin
/// into `bin_to`, under `document_no`, by `actor`.
pub fn ledger_writes(
    policy: MovementPolicy,
    bin_from: &str,
    bin_to: &str,
    remarks: &str,
    reference: &str,
    source: &BalanceRecord,
    document_no: String,
    quantity: i64,
    actor: ActorRef,
    now: i64,
) -> (r: LedgerWrites)
    ensures
        is_ledger_for(r, policy, bin_from@, bin_to@, remarks@, reference@, *source, document_no@, quantity, now),
        r.actor@ == actor@,
{
    LedgerWrites {
        document_no,
        actor,
        issue: entry(policy, ISSUE_KIND, bin_from, source, quantity, now),
        receipt: entry(policy, RECEIPT_KIND, bin_to, source, quantity, now),
        transfer: TransferRecord {
            bin_from: String::from_str(bin_from),
            bin_to: String::from_str(bin_to),
            qty_on_hand: source.qty_on_hand,
            quantity,
            remarks: String::from_str(remarks),
            reference: String::from_str(reference),
            links_issue_entry: match policy {
                MovementPolicy::AvailableQuantity => true,
                MovementPolicy::CommittedStock => false,
            },
        },
    }
}

} // verus!
