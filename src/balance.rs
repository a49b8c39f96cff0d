use vstd::prelude::*;
use crate::error::PutawayError;

verus! {

/// Lot number, item key, location and bin: at most one row exists per key.
pub type BalanceKey = (Seq<char>, Seq<char>, Seq<char>, Seq<char>);

/// One lot-balance row: the stock of one lot in one bin.
///
/// Quantities are in millionths of a stock unit; dates are seconds since the
/// Unix epoch, as the store hands them over.
#[derive(Debug, Clone)]
pub struct BalanceRecord {
    pub lot_no: String,
    pub item_key: String,
    pub location: String,
    pub bin_no: String,
    pub qty_on_hand: i64,
    pub qty_committed: i64,
    pub qty_received: i64,
    pub date_received: Option<i64>,
    pub date_expiry: Option<i64>,
    pub vendor_key: String,
    pub vendor_lot_no: String,
    pub lot_status: Option<String>,
}

impl BalanceRecord {
    /// Stored quantities are never negative.
    pub open spec fn wf(&self) -> bool {
        &&& self.qty_on_hand >= 0
        &&& self.qty_committed >= 0
    }

    /// The row's identity: lot, item, location and bin.
    pub open spec fn key(&self) -> BalanceKey {
        (self.lot_no@, self.item_key@, self.location@, self.bin_no@)
    }

    /// A row that may be persisted: stock on hand, reservation not negative.
    pub open spec fn storable(&self) -> bool {
        &&& self.qty_on_hand > 0
        &&& self.qty_committed >= 0
    }

    /// This row with the given quantities and every other field kept.
    pub open spec fn with_quantities(&self, qty_on_hand: int, qty_committed: int) -> BalanceRecord {
        BalanceRecord {
            lot_no: self.lot_no,
            item_key: self.item_key,
            location: self.location,
            bin_no: self.bin_no,
            qty_on_hand: qty_on_hand as i64,
            qty_committed: qty_committed as i64,
            qty_received: self.qty_received,
            date_received: self.date_received,
            date_expiry: self.date_expiry,
            vendor_key: self.vendor_key,
            vendor_lot_no: self.vendor_lot_no,
            lot_status: self.lot_status,
        }
    }

    /// A field-by-field copy.
    pub fn copy_record(&self) -> (r: BalanceRecord)
        ensures
            r == *self,
    {
        BalanceRecord {
            lot_no: self.lot_no.clone(),
            item_key: self.item_key.clone(),
            location: self.location.clone(),
            bin_no: self.bin_no.clone(),
            qty_on_hand: self.qty_on_hand,
            qty_committed: self.qty_committed,
            qty_received: self.qty_received,
            date_received: self.date_received,
            date_expiry: self.date_expiry,
            vendor_key: self.vendor_key.clone(),
            vendor_lot_no: self.vendor_lot_no.clone(),
            lot_status: match &self.lot_status {
                Some(s) => Some(s.clone()),
                None => None,
            },
        }
    }

    /// On-hand stock that is not reserved against a sales order.
    pub open spec fn available(&self) -> int {
        self.qty_on_hand - self.qty_committed
    }
}

/// Which balance fields follow the stock.
#[derive(Debug, Clone, Copy, PartialEq, Eq, Structural)]
pub enum MovementPolicy {
    /// Unreserved stock moves; the reservations stay where they are.
    AvailableQuantity,
    /// Reserved stock moves together with its reservation.
    CommittedStock,
}

/// What happens to the source row.
#[derive(Debug, Clone, Copy, PartialEq, Eq, Structural)]
pub enum SourceWrite {
    /// The bin is emptied: the row goes away.
    Delete,
    /// The row stays with these quantities.
    Update { qty_on_hand: i64, qty_committed: i64 },
}

/// What happens at the destination bin.
#[derive(Debug, Clone)]
pub enum DestinationWrite {
    /// The bin already holds the lot: its row takes these quantities.
    Merge { qty_on_hand: i64, qty_committed: i64 },
    /// The bin did not hold the lot: this row is inserted.
    Create(BalanceRecord),
}

/// The writes that carry out one movement.
#[derive(Debug, Clone)]
pub struct BalanceWrites {
    pub source: SourceWrite,
    pub destination: DestinationWrite,
}

/// The source row's reservation after `quantity` leaves it.
pub open spec fn committed_after_issue(policy: MovementPolicy, committed: int, quantity: int) -> int {
    match policy {
        MovementPolicy::AvailableQuantity => committed,
        MovementPolicy::CommittedStock => crate::quantity::clamp_at_zero(committed - quantity),
    }
}

/// The write at the source when `quantity` leaves `source`: the row is
/// deleted once nothing remains on hand.
pub open spec fn source_write_for(policy: MovementPolicy, source: BalanceRecord, quantity: int) -> SourceWrite {
    if source.qty_on_hand - quantity <= 0 {
        SourceWrite::Delete
    } else {
        SourceWrite::Update {
            qty_on_hand: (source.qty_on_hand - quantity) as i64,
            qty_committed: committed_after_issue(policy, source.qty_committed as int, quantity) as i64,
        }
    }
}

/// The reservation that arrives at the destination with `quantity`.
pub open spec fn committed_received(policy: MovementPolicy, quantity: int) -> int {
    match policy {
        MovementPolicy::AvailableQuantity => 0,
        MovementPolicy::CommittedStock => quantity,
    }
}

/// Merging into `dest` stays within the range of `i64`.
pub open spec fn merge_fits(policy: MovementPolicy, dest: BalanceRecord, quantity: int) -> bool {
    &&& dest.qty_on_hand + quantity <= i64::MAX
    &&& dest.qty_committed + committed_received(policy, quantity) <= i64::MAX
}

/// The row created at `bin_to` carries the source row's descriptive fields,
/// as they were before the move, and holds `quantity` on hand.
pub open spec fn is_created_record(
    policy: MovementPolicy,
    created: BalanceRecord,
    source: BalanceRecord,
    bin_to: Seq<char>,
    quantity: int,
    now: i64,
) -> bool {
    &&& created.lot_no == source.lot_no
    &&& created.item_key == source.item_key
    &&& created.location == source.location
    &&& created.bin_no@ == bin_to
    &&& created.qty_on_hand == quantity
    &&& created.qty_committed == committed_received(policy, quantity)
    &&& created.vendor_key == source.vendor_key
    &&& created.vendor_lot_no == source.vendor_lot_no
    &&& created.date_received == Some(source.date_received.unwrap_or(now))
    &&& match policy {
        MovementPolicy::AvailableQuantity => {
            &&& created.qty_received == quantity
            &&& created.date_expiry == Some(source.date_expiry.unwrap_or(now))
            &&& created.lot_status == source.lot_status
        },
        MovementPolicy::CommittedStock => {
            &&& created.qty_received == source.qty_received
            &&& created.date_expiry == source.date_expiry
            &&& created.lot_status matches Some(s) && (source.lot_status matches Some(t) ==> s == t)
                && (source.lot_status is None ==> s@ == "P"@)
        },
    }
}

/// `w` is the write at the destination for moving `quantity` from `source`
/// to `bin_to`, where `dest` is the row already there, if any.
pub open spec fn is_destination_write(
    policy: MovementPolicy,
    w: DestinationWrite,
    source: BalanceRecord,
    dest: Option<BalanceRecord>,
    bin_to: Seq<char>,
    quantity: int,
    now: i64,
) -> bool {
    match dest {
        Some(d) => w == DestinationWrite::Merge {
            qty_on_hand: (d.qty_on_hand + quantity) as i64,
            qty_committed: (d.qty_committed + committed_received(policy, quantity)) as i64,
        },
        None => w matches DestinationWrite::Create(c) && is_created_record(policy, c, source, bin_to, quantity, now),
    }
}

fn status_or_default(status: &Option<String>) -> (r: String)
    ensures
        status matches Some(s) ==> r == s,
        status is None ==> r@ == "P"@,
{
    match status {
        Some(s) => s.clone(),
        None => String::from_str("P"),
    }
}

/// The writes that move `quantity` units of the lot from the `source` row to
/// `bin_to`, where `destination` is the row that bin holds for the lot, if
/// any; `now` stands in for missing receipt and expiry dates.
///
/// The source's descriptive fields are taken before anything is written, so
/// a row created at the destination keeps them even when the source row is
/// deleted. Fails only when a merged quantity would leave the range of `i64`.
pub fn plan_balance_writes(
    policy: MovementPolicy,
    source: &BalanceRecord,
    destination: &Option<BalanceRecord>,
    bin_to: &str,
    quantity: i64,
    now: i64,
) -> (r: Result<BalanceWrites, PutawayError>)
    requires
        source.wf(),
        destination matches Some(d) ==> d.wf(),
        quantity > 0,
    ensures
        r is Ok <==> (destination matches Some(d) ==> merge_fits(policy, *d, quantity as int)),
        r is Err ==> r->Err_0 is TransactionError,
        r matches Ok(w) ==> {
            &&& w.source == source_write_for(policy, *source, quantity as int)
            &&& is_destination_write(policy, w.destination, *source, *destination, bin_to@, quantity as int, now)
        },
{
    let remaining: i64 = source.qty_on_hand - quantity;
    let source_write = if remaining <= 0 {
        SourceWrite::Delete
    } else {
        let qty_committed = match policy {
            MovementPolicy::AvailableQuantity => source.qty_committed,
            MovementPolicy::CommittedStock => if source.qty_committed >= quantity {
                source.qty_committed - quantity
            } else {
                0
            },
        };
        SourceWrite::Update { qty_on_hand: remaining, qty_committed }
    };
    let arriving_committed: i64 = match policy {
        MovementPolicy::AvailableQuantity => 0,
        MovementPolicy::CommittedStock => quantity,
    };
    let destination_write = match destination {
        Some(d) => {
            if d.qty_on_hand > i64::MAX - quantity || d.qty_committed > i64::MAX - arriving_committed {
                return Err(
                    PutawayError::TransactionError(
                        String::from_str("Destination quantity out of range"),
                    ),
                );
            }
            DestinationWrite::Merge {
                qty_on_hand: d.qty_on_hand + quantity,
                qty_committed: d.qty_committed + arriving_committed,
            }
        },
        None => {
            let date_received = match source.date_received {
                Some(t) => t,
                None => now,
            };
            let created = match policy {
                MovementPolicy::AvailableQuantity => BalanceRecord {
                    lot_no: source.lot_no.clone(),
                    item_key: source.item_key.clone(),
                    location: source.location.clone(),
                    bin_no: String::from_str(bin_to),
                    qty_on_hand: quantity,
                    qty_committed: 0,
                    qty_received: quantity,
                    date_received: Some(date_received),
                    date_expiry: Some(
                        match source.date_expiry {
                            Some(t) => t,
                            None => now,
                        },
                    ),
                    vendor_key: source.vendor_key.clone(),
                    vendor_lot_no: source.vendor_lot_no.clone(),
                    lot_status: source.lot_status.clone(),
                },
                MovementPolicy::CommittedStock => BalanceRecord {
                    lot_no: source.lot_no.clone(),
                    item_key: source.item_key.clone(),
                    location: source.location.clone(),
                    bin_no: String::from_str(bin_to),
                    qty_on_hand: quantity,
                    qty_committed: quantity,
                    qty_received: source.qty_received,
                    date_received: Some(date_received),
                    date_expiry: source.date_expiry,
                    vendor_key: source.vendor_key.clone(),
                    vendor_lot_no: source.vendor_lot_no.clone(),
                    lot_status: Some(status_or_default(&source.lot_status)),
                },
            };
            DestinationWrite::Create(created)
        },
    };
    Ok(BalanceWrites { source: source_write, destination: destination_write })
}

/// The writes of a movement never leave a row at zero or below: a source
/// row that keeps stock keeps a positive quantity and a reservation that is
/// not negative, and the destination row ends with stock on hand.
pub proof fn lemma_writes_keep_rows_storable(
    policy: MovementPolicy,
    source: BalanceRecord,
    dest: Option<BalanceRecord>,
    quantity: int,
    w: DestinationWrite,
    bin_to: Seq<char>,
    now: i64,
)
    requires
        source.wf(),
        dest matches Some(d) ==> d.wf(),
        quantity > 0,
        is_destination_write(policy, w, source, dest, bin_to, quantity, now),
        dest matches Some(d) ==> merge_fits(policy, d, quantity),
    ensures
        source_write_for(policy, source, quantity) matches SourceWrite::Update { qty_on_hand, qty_committed }
            ==> qty_on_hand > 0 && qty_committed >= 0,
        w matches DestinationWrite::Merge { qty_on_hand, qty_committed } ==> qty_on_hand > 0 && qty_committed >= 0,
        w matches DestinationWrite::Create(c) ==> c.storable(),
{
}

/// Moving reserved stock reduces the source row's reservation by the
/// quantity moved, never below zero: whenever the source row keeps stock,
/// its reservation becomes `max(0, before - moved)`.
pub proof fn lemma_committed_reservation_follows_stock(source: BalanceRecord, quantity: int)
    requires
        source.wf(),
        quantity > 0,
    ensures
        source_write_for(MovementPolicy::CommittedStock, source, quantity) matches SourceWrite::Update {
            qty_committed,
            ..
        } ==> qty_committed == crate::quantity::clamp_at_zero(source.qty_committed - quantity),
{
}

} // verus!
