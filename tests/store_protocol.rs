use putaway::actor::ActorRef;
use putaway::balance::{BalanceRecord, DestinationWrite, MovementPolicy, SourceWrite};
use putaway::error::PutawayError;
use putaway::locking::{bin_precedes, lock_order};
use putaway::orchestrator::{StoreCommand, StoreEvent, TransferPhase, TransferRequest, TransferRun};
use putaway::sequence::{allocated_document_number, document_number};

const UNIT: i64 = 1_000_000;

fn record(bin: &str, on_hand: i64, committed: i64) -> BalanceRecord {
    BalanceRecord {
        lot_no: "L1".to_string(),
        item_key: "ITEM".to_string(),
        location: "WH1".to_string(),
        bin_no: bin.to_string(),
        qty_on_hand: on_hand,
        qty_committed: committed,
        qty_received: on_hand,
        date_received: Some(1_700_000_000),
        date_expiry: None,
        vendor_key: "V01".to_string(),
        vendor_lot_no: "VL-9".to_string(),
        lot_status: None,
    }
}

fn request(from: &str, to: &str, quantity: i64) -> TransferRequest {
    TransferRequest {
        lot_no: "L1".to_string(),
        item_key: "ITEM".to_string(),
        location: "WH1".to_string(),
        bin_from: from.to_string(),
        bin_to: to.to_string(),
        quantity,
        user_id: "warehouse.operator".to_string(),
        remarks: "move".to_string(),
        reference: "REF".to_string(),
        now: 1_750_000_000,
    }
}

#[test]
fn document_numbers_are_zero_padded() {
    assert_eq!(document_number(42), "BT-00000042");
    assert_eq!(document_number(0), "BT-00000000");
    assert_eq!(document_number(123_456_789), "BT-123456789");
}

#[test]
fn allocation_failures_are_database_errors() {
    assert_eq!(allocated_document_number(Some(7)).unwrap(), "BT-00000007");
    match allocated_document_number(None) {
        Err(PutawayError::DatabaseError(m)) => assert_eq!(m, "BT sequence not found or update failed"),
        other => panic!("unexpected {:?}", other),
    }
    assert!(matches!(allocated_document_number(Some(-1)), Err(PutawayError::DatabaseError(_))));
}

#[test]
fn successive_allocations_give_distinct_documents() {
    let docs: Vec<String> = (1..=500).map(|n| allocated_document_number(Some(n)).unwrap()).collect();
    let mut sorted = docs.clone();
    sorted.sort();
    sorted.dedup();
    assert_eq!(sorted.len(), docs.len());
}

#[test]
fn locks_follow_ascending_bin_order() {
    assert_eq!(lock_order("B2", "A1"), ("A1".to_string(), "B2".to_string()));
    assert_eq!(lock_order("A1", "B2"), ("A1".to_string(), "B2".to_string()));
    assert!(bin_precedes("A1", "A10"));
    assert!(!bin_precedes("A10", "A1"));
    assert!(!bin_precedes("A1", "A1"));
}

#[test]
fn actor_is_cut_to_eight_characters() {
    assert_eq!(ActorRef::from_user_id("warehouse.operator").as_str(), "warehous");
    assert_eq!(ActorRef::from_user_id("bob").as_str(), "bob");
}

#[test]
fn available_transfer_runs_to_commit() {
    let (mut run, cmd) = TransferRun::start(MovementPolicy::AvailableQuantity, request("B", "A", 3 * UNIT));
    assert!(matches!(cmd, StoreCommand::Validate));
    let cmd = run.advance(StoreEvent::Looked { source: Some(record("B", 8 * UNIT, 0)), destination_exists: true });
    match cmd {
        StoreCommand::OpenAndLock { first_bin, second_bin } => {
            assert_eq!(first_bin, "A");
            assert_eq!(second_bin, "B");
        }
        other => panic!("unexpected {:?}", other),
    }
    let cmd = run.advance(StoreEvent::Locked { source: Some(record("B", 8 * UNIT, 0)), destination: Some(record("A", 2 * UNIT, 0)) });
    assert!(matches!(cmd, StoreCommand::AllocateDocument));
    let cmd = run.advance(StoreEvent::Allocated(Some(15)));
    match cmd {
        StoreCommand::WriteLedger { ledger } => {
            assert_eq!(ledger.document_no, "BT-00000015");
            assert_eq!(ledger.actor.as_str(), "warehous");
            assert_eq!((ledger.issue.kind, ledger.issue.bin_no.as_str(), ledger.issue.quantity), (9, "B", 3 * UNIT));
            assert_eq!((ledger.receipt.kind, ledger.receipt.bin_no.as_str(), ledger.receipt.quantity), (8, "A", 3 * UNIT));
            assert!(ledger.issue.processed && ledger.receipt.processed);
            assert_eq!(ledger.issue.date_expiry, Some(1_750_000_000));
            assert_eq!(ledger.transfer.qty_on_hand, 8 * UNIT);
            assert_eq!(ledger.transfer.remarks, "move");
            assert_eq!(ledger.transfer.reference, "REF");
            assert!(ledger.transfer.links_issue_entry);
        }
        other => panic!("unexpected {:?}", other),
    }
    let cmd = run.advance(StoreEvent::LedgerWritten);
    match cmd {
        StoreCommand::WriteBalances { writes, .. } => {
            assert_eq!(writes.source, SourceWrite::Update { qty_on_hand: 5 * UNIT, qty_committed: 0 });
            assert!(matches!(writes.destination, DestinationWrite::Merge { qty_on_hand: 5_000_000, qty_committed: 0 }));
        }
        other => panic!("unexpected {:?}", other),
    }
    assert!(matches!(run.advance(StoreEvent::BalancesWritten), StoreCommand::Commit));
    assert!(matches!(run.advance(StoreEvent::CommitDone), StoreCommand::Finish));
    assert_eq!(run.phase(), TransferPhase::Committed);
    assert_eq!(run.outcome().unwrap().unwrap(), "BT-00000015");
}

#[test]
fn ledger_failure_rolls_back_without_balance_writes() {
    let (mut run, _) = TransferRun::start(MovementPolicy::AvailableQuantity, request("A", "B", 3 * UNIT));
    let mut commands = Vec::new();
    commands.push(run.advance(StoreEvent::Looked { source: Some(record("A", 8 * UNIT, 0)), destination_exists: true }));
    commands.push(run.advance(StoreEvent::Locked { source: Some(record("A", 8 * UNIT, 0)), destination: None }));
    commands.push(run.advance(StoreEvent::Allocated(Some(1))));
    let failure = PutawayError::TransactionError("Failed to create issue transaction".to_string());
    commands.push(run.advance(StoreEvent::Failed(failure)));
    assert!(matches!(commands.last(), Some(StoreCommand::Rollback)));
    assert!(!commands.iter().any(|c| matches!(c, StoreCommand::WriteBalances { .. })));
    assert_eq!(run.phase(), TransferPhase::RolledBack);
    match run.outcome() {
        Some(Err(PutawayError::TransactionError(m))) => assert_eq!(m, "Failed to create issue transaction"),
        other => panic!("unexpected {:?}", other),
    }
}

#[test]
fn validation_failure_releases_without_rollback() {
    let (mut run, _) = TransferRun::start(MovementPolicy::AvailableQuantity, request("A", "B", 9 * UNIT));
    let cmd = run.advance(StoreEvent::Looked { source: Some(record("A", 8 * UNIT, 0)), destination_exists: true });
    assert!(matches!(cmd, StoreCommand::Release));
    assert!(matches!(run.outcome(), Some(Err(PutawayError::InsufficientQuantity { .. }))));
}

#[test]
fn missing_lock_row_rolls_back() {
    let (mut run, _) = TransferRun::start(MovementPolicy::AvailableQuantity, request("A", "B", UNIT));
    run.advance(StoreEvent::Looked { source: Some(record("A", 8 * UNIT, 0)), destination_exists: true });
    let cmd = run.advance(StoreEvent::Locked { source: None, destination: None });
    assert!(matches!(cmd, StoreCommand::Rollback));
    assert!(matches!(run.outcome(), Some(Err(PutawayError::ValidationError(_)))));
}

#[test]
fn committed_transfer_creates_reserved_destination() {
    let (mut run, _) = TransferRun::start(MovementPolicy::CommittedStock, request("A", "B", 3 * UNIT));
    run.advance(StoreEvent::Looked { source: Some(record("A", 8 * UNIT, 5 * UNIT)), destination_exists: true });
    run.advance(StoreEvent::Locked { source: Some(record("A", 8 * UNIT, 5 * UNIT)), destination: None });
    run.advance(StoreEvent::Allocated(Some(2)));
    match run.advance(StoreEvent::LedgerWritten) {
        StoreCommand::WriteBalances { writes, document_no, actor } => {
            assert_eq!(actor.as_str(), "warehous");
            assert_eq!(document_no, "BT-00000002");
            assert_eq!(writes.source, SourceWrite::Update { qty_on_hand: 5 * UNIT, qty_committed: 2 * UNIT });
            match writes.destination {
                DestinationWrite::Create(c) => {
                    assert_eq!(c.qty_committed, 3 * UNIT);
                    assert_eq!(c.lot_status, Some("P".to_string()));
                    assert_eq!(c.date_expiry, None);
                }
                other => panic!("unexpected {:?}", other),
            }
        }
        other => panic!("unexpected {:?}", other),
    }
}

#[test]
fn run_rejects_events_out_of_phase() {
    let (run, _) = TransferRun::start(MovementPolicy::AvailableQuantity, request("A", "B", UNIT));
    assert!(!run.accepts(&StoreEvent::LedgerWritten));
    assert!(run.accepts(&StoreEvent::Failed(PutawayError::DatabaseError("x".to_string()))));
    assert!(!run.accepts(&StoreEvent::Looked { source: Some(record("A", -1, 0)), destination_exists: true }));
}

#[test]
fn committed_ledger_stays_pending_and_unlinked() {
    let (mut run, _) = TransferRun::start(MovementPolicy::CommittedStock, request("A", "B", 3 * UNIT));
    run.advance(StoreEvent::Looked { source: Some(record("A", 8 * UNIT, 5 * UNIT)), destination_exists: true });
    run.advance(StoreEvent::Locked { source: Some(record("A", 8 * UNIT, 5 * UNIT)), destination: None });
    match run.advance(StoreEvent::Allocated(Some(4))) {
        StoreCommand::WriteLedger { ledger } => {
            assert!(!ledger.issue.processed && !ledger.receipt.processed);
            assert!(!ledger.transfer.links_issue_entry);
            assert_eq!(ledger.issue.date_expiry, None);
        }
        other => panic!("unexpected {:?}", other),
    }
}

#[test]
fn locked_row_that_shrank_is_measured_again() {
    let (mut run, _) = TransferRun::start(MovementPolicy::AvailableQuantity, request("A", "B", 6 * UNIT));
    run.advance(StoreEvent::Looked { source: Some(record("A", 8 * UNIT, 0)), destination_exists: true });
    let cmd = run.advance(StoreEvent::Locked { source: Some(record("A", 4 * UNIT, 0)), destination: None });
    assert!(matches!(cmd, StoreCommand::Rollback));
    assert!(matches!(
        run.outcome(),
        Some(Err(PutawayError::InsufficientQuantity { requested: 6_000_000, available: 4_000_000 }))
    ));
}

#[test]
fn locked_row_sets_the_full_transfer_quantity() {
    let (mut run, _) = TransferRun::start(MovementPolicy::AvailableQuantity, request("A", "B", 5 * UNIT));
    run.advance(StoreEvent::Looked { source: Some(record("A", 5 * UNIT, 0)), destination_exists: true });
    run.advance(StoreEvent::Locked { source: Some(record("A", 5_000_400, 0)), destination: None });
    assert_eq!(run.plan().unwrap().actual_quantity, 5_000_400);
    assert!(run.plan().unwrap().is_full_transfer);
}

#[test]
fn validation_error_reaches_the_run_unchanged() {
    let (mut run, _) = TransferRun::start(MovementPolicy::AvailableQuantity, request("A", "A", UNIT));
    run.advance(StoreEvent::Looked { source: Some(record("A", 8 * UNIT, 0)), destination_exists: true });
    match run.outcome() {
        Some(Err(PutawayError::ValidationError(m))) => assert_eq!(m, "Source and destination bins cannot be the same"),
        other => panic!("unexpected {:?}", other),
    }
    let (mut run, _) = TransferRun::start(MovementPolicy::CommittedStock, request("A", "Z", UNIT));
    let cmd = run.advance(StoreEvent::Looked { source: Some(record("A", 8 * UNIT, 0)), destination_exists: false });
    assert!(matches!(cmd, StoreCommand::Release));
    match run.outcome() {
        Some(Err(PutawayError::InvalidBin { bin_no, location })) => assert_eq!((bin_no.as_str(), location.as_str()), ("Z", "WH1")),
        other => panic!("unexpected {:?}", other),
    }
}

#[test]
fn fully_reserved_stock_cannot_move_as_available() {
    let (mut run, _) = TransferRun::start(MovementPolicy::AvailableQuantity, request("A", "B", 500));
    let cmd = run.advance(StoreEvent::Looked { source: Some(record("A", 5 * UNIT, 5 * UNIT)), destination_exists: true });
    assert!(matches!(cmd, StoreCommand::Release));
    assert!(matches!(run.outcome(), Some(Err(PutawayError::ValidationError(_)))));
}
