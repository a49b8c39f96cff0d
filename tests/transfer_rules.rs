use putaway::balance::{plan_balance_writes, BalanceRecord, DestinationWrite, MovementPolicy, SourceWrite};
use putaway::error::PutawayError;
use putaway::table::BalanceTable;
use putaway::validation::{validate_committed_transfer, validate_transfer, TransferPlan};

const UNIT: i64 = 1_000_000;

fn record(bin: &str, on_hand: i64, committed: i64) -> BalanceRecord {
    BalanceRecord {
        lot_no: "L1".to_string(),
        item_key: "ITEM".to_string(),
        location: "WH1".to_string(),
        bin_no: bin.to_string(),
        qty_on_hand: on_hand,
        qty_committed: committed,
        qty_received: on_hand,
        date_received: Some(1_700_000_000),
        date_expiry: Some(1_800_000_000),
        vendor_key: "V01".to_string(),
        vendor_lot_no: "VL-9".to_string(),
        lot_status: Some("P".to_string()),
    }
}

fn validate(source: Option<BalanceRecord>, from: &str, to: &str, requested: i64, exists: bool) -> Result<TransferPlan, PutawayError> {
    validate_transfer(&source, "L1", "ITEM", "WH1", from, to, requested, exists)
}

#[test]
fn full_transfer_absorbs_residual_within_tolerance() {
    let r = validate(Some(record("A", 10_000_500, 0)), "A", "B", 10 * UNIT, true);
    assert_eq!(r.unwrap(), TransferPlan { actual_quantity: 10_000_500, is_full_transfer: true });
}

#[test]
fn request_beyond_tolerance_is_insufficient() {
    let r = validate(Some(record("A", 5 * UNIT, 0)), "A", "B", 5_002_000, true);
    match r {
        Err(PutawayError::InsufficientQuantity { requested, available }) => {
            assert_eq!(requested, 5_002_000);
            assert_eq!(available, 5_000_000);
        }
        other => panic!("unexpected {:?}", other),
    }
}

#[test]
fn request_within_tolerance_is_full_transfer() {
    let r = validate(Some(record("A", 5 * UNIT, 0)), "A", "B", 5_000_900, true);
    assert_eq!(r.unwrap(), TransferPlan { actual_quantity: 5_000_000, is_full_transfer: true });
}

#[test]
fn partial_transfer_moves_requested_quantity() {
    let r = validate(Some(record("A", 8 * UNIT, 2 * UNIT)), "A", "B", 3 * UNIT, true);
    assert_eq!(r.unwrap(), TransferPlan { actual_quantity: 3 * UNIT, is_full_transfer: false });
}

#[test]
fn available_quantity_excludes_reserved_stock() {
    let r = validate(Some(record("A", 8 * UNIT, 2 * UNIT)), "A", "B", 7 * UNIT, true);
    assert!(matches!(r, Err(PutawayError::InsufficientQuantity { requested: 7_000_000, available: 6_000_000 })));
}

#[test]
fn missing_source_row_is_validation_error() {
    match validate(None, "A", "B", UNIT, true) {
        Err(PutawayError::ValidationError(m)) => {
            assert_eq!(m, "Lot L1 not found in bin A or insufficient quantity available")
        }
        other => panic!("unexpected {:?}", other),
    }
}

#[test]
fn item_and_location_mismatch_are_rejected() {
    let mut rec = record("A", UNIT, 0);
    rec.item_key = "OTHER".to_string();
    match validate(Some(rec), "A", "B", UNIT, true) {
        Err(PutawayError::ValidationError(m)) => assert_eq!(m, "Item key mismatch: expected OTHER, got ITEM"),
        other => panic!("unexpected {:?}", other),
    }
    let mut rec = record("A", UNIT, 0);
    rec.location = "WH2".to_string();
    match validate(Some(rec), "A", "B", UNIT, true) {
        Err(PutawayError::ValidationError(m)) => assert_eq!(m, "Location mismatch: expected WH2, got WH1"),
        other => panic!("unexpected {:?}", other),
    }
}

#[test]
fn nonpositive_quantity_is_rejected() {
    for q in [0, -5] {
        match validate(Some(record("A", UNIT, 0)), "A", "B", q, true) {
            Err(PutawayError::ValidationError(m)) => assert_eq!(m, "Transfer quantity must be greater than 0"),
            other => panic!("unexpected {:?}", other),
        }
    }
}

#[test]
fn unknown_destination_bin_is_invalid() {
    match validate(Some(record("A", UNIT, 0)), "A", "Z9", UNIT, false) {
        Err(PutawayError::InvalidBin { bin_no, location }) => {
            assert_eq!(bin_no, "Z9");
            assert_eq!(location, "WH1");
        }
        other => panic!("unexpected {:?}", other),
    }
}

#[test]
fn same_source_and_destination_is_rejected() {
    match validate(Some(record("A", UNIT, 0)), "A", "A", UNIT, true) {
        Err(PutawayError::ValidationError(m)) => assert_eq!(m, "Source and destination bins cannot be the same"),
        other => panic!("unexpected {:?}", other),
    }
}

#[test]
fn committed_validation_checks_bin_then_source() {
    let src = Some(record("A", 8 * UNIT, 5 * UNIT));
    assert!(matches!(validate_committed_transfer(&src, "WH1", "A", "B", UNIT, false), Err(PutawayError::InvalidBin { .. })));
    match validate_committed_transfer(&None, "WH1", "A", "B", UNIT, true) {
        Err(PutawayError::ValidationError(m)) => assert_eq!(m, "Source lot not found"),
        other => panic!("unexpected {:?}", other),
    }
    let plan = validate_committed_transfer(&src, "WH1", "A", "B", 8 * UNIT, true).unwrap();
    assert_eq!(plan, TransferPlan { actual_quantity: 8 * UNIT, is_full_transfer: true });
}

#[test]
fn planner_deletes_emptied_source_and_merges() {
    let src = record("A", 8 * UNIT, 0);
    let dst = Some(record("B", 3 * UNIT, 0));
    let w = plan_balance_writes(MovementPolicy::AvailableQuantity, &src, &dst, "B", 8 * UNIT, 0).unwrap();
    assert_eq!(w.source, SourceWrite::Delete);
    match w.destination {
        DestinationWrite::Merge { qty_on_hand, qty_committed } => {
            assert_eq!(qty_on_hand, 11 * UNIT);
            assert_eq!(qty_committed, 0);
        }
        other => panic!("unexpected {:?}", other),
    }
}

#[test]
fn planner_moves_reservation_with_committed_stock() {
    let src = record("A", 8 * UNIT, 5 * UNIT);
    let w = plan_balance_writes(MovementPolicy::CommittedStock, &src, &None, "B", 3 * UNIT, 0).unwrap();
    assert_eq!(w.source, SourceWrite::Update { qty_on_hand: 5 * UNIT, qty_committed: 2 * UNIT });
    match w.destination {
        DestinationWrite::Create(c) => {
            assert_eq!(c.bin_no, "B");
            assert_eq!(c.qty_on_hand, 3 * UNIT);
            assert_eq!(c.qty_committed, 3 * UNIT);
            assert_eq!(c.qty_received, 8 * UNIT);
        }
        other => panic!("unexpected {:?}", other),
    }
}

#[test]
fn planner_reports_overflowing_merge() {
    let src = record("A", 8 * UNIT, 0);
    let dst = Some(record("B", i64::MAX - 1, 0));
    let r = plan_balance_writes(MovementPolicy::AvailableQuantity, &src, &dst, "B", 8 * UNIT, 0);
    assert!(matches!(r, Err(PutawayError::TransactionError(_))));
}

fn table_with(rows: Vec<BalanceRecord>) -> BalanceTable {
    let mut t = BalanceTable::new();
    for r in rows {
        t.receive(r).unwrap();
    }
    t
}

#[test]
fn consolidation_merges_into_existing_destination() {
    let mut t = table_with(vec![record("A", 8 * UNIT, 0), record("B", 3 * UNIT, 0)]);
    t.apply_transfer(MovementPolicy::AvailableQuantity, "L1", "ITEM", "WH1", "A", "B", 8 * UNIT, 0).unwrap();
    assert!(t.find("L1", "ITEM", "WH1", "A").is_none());
    assert_eq!(t.find("L1", "ITEM", "WH1", "B").unwrap().qty_on_hand, 11 * UNIT);
    assert_eq!(t.records().len(), 1);
}

#[test]
fn new_destination_carries_source_snapshot() {
    let mut t = table_with(vec![record("A", 8 * UNIT, 0)]);
    t.apply_transfer(MovementPolicy::AvailableQuantity, "L1", "ITEM", "WH1", "A", "B", 3 * UNIT, 99).unwrap();
    assert_eq!(t.find("L1", "ITEM", "WH1", "A").unwrap().qty_on_hand, 5 * UNIT);
    let b = t.find("L1", "ITEM", "WH1", "B").unwrap();
    assert_eq!(b.qty_on_hand, 3 * UNIT);
    assert_eq!(b.date_received, Some(1_700_000_000));
    assert_eq!(b.date_expiry, Some(1_800_000_000));
    assert_eq!(b.vendor_key, "V01");
    assert_eq!(b.vendor_lot_no, "VL-9");
    assert_eq!(b.lot_status, Some("P".to_string()));
}

#[test]
fn committed_transfer_reduces_reservation_at_zero_floor() {
    let mut t = table_with(vec![record("A", 10 * UNIT, 5 * UNIT)]);
    t.apply_transfer(MovementPolicy::CommittedStock, "L1", "ITEM", "WH1", "A", "B", 3 * UNIT, 0).unwrap();
    assert_eq!(t.find("L1", "ITEM", "WH1", "A").unwrap().qty_committed, 2 * UNIT);
    t.apply_transfer(MovementPolicy::CommittedStock, "L1", "ITEM", "WH1", "A", "C", 3 * UNIT, 0).unwrap();
    let a = t.find("L1", "ITEM", "WH1", "A").unwrap();
    assert_eq!(a.qty_on_hand, 4 * UNIT);
    assert_eq!(a.qty_committed, 0);
    assert_eq!(t.find("L1", "ITEM", "WH1", "C").unwrap().qty_committed, 3 * UNIT);
}

#[test]
fn no_row_is_left_at_zero_after_transfers() {
    let mut t = table_with(vec![record("A", 2 * UNIT, 0), record("B", UNIT, 0)]);
    t.apply_transfer(MovementPolicy::AvailableQuantity, "L1", "ITEM", "WH1", "A", "B", 2 * UNIT, 0).unwrap();
    t.apply_transfer(MovementPolicy::AvailableQuantity, "L1", "ITEM", "WH1", "B", "C", 3 * UNIT, 0).unwrap();
    assert_eq!(t.records().len(), 1);
    assert!(t.records().iter().all(|r| r.qty_on_hand > 0));
    assert_eq!(t.find("L1", "ITEM", "WH1", "C").unwrap().qty_on_hand, 3 * UNIT);
}

#[test]
fn transfer_from_missing_source_leaves_table() {
    let mut t = table_with(vec![record("B", UNIT, 0)]);
    let r = t.apply_transfer(MovementPolicy::AvailableQuantity, "L1", "ITEM", "WH1", "A", "B", UNIT, 0);
    match r {
        Err(PutawayError::ValidationError(m)) => assert_eq!(m, "Source lot not found before transfer"),
        other => panic!("unexpected {:?}", other),
    }
    assert_eq!(t.find("L1", "ITEM", "WH1", "B").unwrap().qty_on_hand, UNIT);
}

#[test]
fn receiving_duplicate_or_empty_row_is_rejected() {
    let mut t = table_with(vec![record("A", UNIT, 0)]);
    assert!(matches!(t.receive(record("A", UNIT, 0)), Err(PutawayError::ValidationError(_))));
    assert!(matches!(t.receive(record("B", 0, 0)), Err(PutawayError::ValidationError(_))));
}

#[test]
fn committed_request_beyond_stock_on_hand_is_insufficient() {
    let src = Some(record("A", 8 * UNIT, 5 * UNIT));
    let r = validate_committed_transfer(&src, "WH1", "A", "B", 9 * UNIT, true);
    assert!(matches!(r, Err(PutawayError::InsufficientQuantity { requested: 9_000_000, available: 8_000_000 })));
    match validate_committed_transfer(&src, "WH1", "A", "B", 0, true) {
        Err(PutawayError::ValidationError(m)) => assert_eq!(m, "Transfer quantity must be greater than 0"),
        other => panic!("unexpected {:?}", other),
    }
    match validate_committed_transfer(&src, "WH1", "A", "A", UNIT, true) {
        Err(PutawayError::ValidationError(m)) => assert_eq!(m, "Source and destination bins cannot be the same"),
        other => panic!("unexpected {:?}", other),
    }
}
