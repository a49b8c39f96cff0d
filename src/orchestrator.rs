use vstd::prelude::*;
use crate::actor::{ActorRef, actor_text};
use crate::ledger::{LedgerWrites, is_ledger_for, ledger_writes};
use crate::balance::{
    BalanceRecord, BalanceWrites, MovementPolicy, is_destination_write, merge_fits, plan_balance_writes,
    source_write_for,
};
use crate::error::PutawayError;
use crate::locking::{lock_order, text_less};
use crate::sequence::{
    allocated_document_number, document_number_of, missing_sequence_message, negative_sequence_message,
};
use crate::quantity::QUANTITY_TOLERANCE;
use crate::validation::{
    TransferPlan, approved_plan, committed_verdict, exceeds_available, is_validation_error, nonpositive_message,
    transfer_verdict, validate_committed_transfer, validate_transfer,
};

verus! {

/// Where a transfer stands. Runs move forward through the phases in the
/// order listed, and end in `Committed` or `RolledBack`.
#[derive(Debug, Clone, Copy, PartialEq, Eq, Structural)]
pub enum TransferPhase {
    Validating,
    Locking,
    Allocating,
    Auditing,
    Mutating,
    Committing,
    Committed,
    RolledBack,
}

/// The phase that follows `p` when its work succeeds.
pub open spec fn successor(p: TransferPhase) -> TransferPhase {
    match p {
        TransferPhase::Validating => TransferPhase::Locking,
        TransferPhase::Locking => TransferPhase::Allocating,
        TransferPhase::Allocating => TransferPhase::Auditing,
        TransferPhase::Auditing => TransferPhase::Mutating,
        TransferPhase::Mutating => TransferPhase::Committing,
        TransferPhase::Committing => TransferPhase::Committed,
        TransferPhase::Committed => TransferPhase::Committed,
        TransferPhase::RolledBack => TransferPhase::RolledBack,
    }
}

/// `Committed` and `RolledBack` end a run.
pub open spec fn is_terminal(p: TransferPhase) -> bool {
    p == TransferPhase::Committed || p == TransferPhase::RolledBack
}

/// A request to move stock of one lot between two bins of a location.
///
/// `quantity` is in millionths of a stock unit; `now` is the timestamp
/// stamped on the rows the transfer writes, in seconds.
#[derive(Debug, Clone)]
pub struct TransferRequest {
    pub lot_no: String,
    pub item_key: String,
    pub location: String,
    pub bin_from: String,
    pub bin_to: String,
    pub quantity: i64,
    pub user_id: String,
    pub remarks: String,
    pub reference: String,
    pub now: i64,
}

/// What the store reports back after carrying out a command.
#[derive(Debug, Clone)]
pub enum StoreEvent {
    /// The source row found for the lot, if any, and whether the
    /// destination bin is a known bin of the location.
    Looked { source: Option<BalanceRecord>, destination_exists: bool },
    /// The rows the lock statement locked at the source and destination.
    Locked { source: Option<BalanceRecord>, destination: Option<BalanceRecord> },
    /// The transfer counter's new value, or nothing if its row is missing.
    Allocated(Option<i32>),
    /// The audit record and both ledger entries are written.
    LedgerWritten,
    /// The balance writes are applied.
    BalancesWritten,
    /// The transaction is committed.
    CommitDone,
    /// The command failed in the store.
    Failed(PutawayError),
}

/// What the store is asked to do next.
#[derive(Debug, Clone)]
pub enum StoreCommand {
    /// Read the source row and check the destination bin; no transaction
    /// is open yet.
    Validate,
    /// Open a repeatable-read transaction and lock the lot's rows at both
    /// bins in one statement that names and returns them in ascending bin
    /// order, `first_bin` before `second_bin`.
    OpenAndLock { first_bin: String, second_bin: String },
    /// Raise the transfer counter and return its new value, in one step.
    AllocateDocument,
    /// Write the audit record and these ledger rows.
    WriteLedger { ledger: LedgerWrites },
    /// Apply these writes to the balance rows.
    WriteBalances { document_no: String, writes: BalanceWrites, actor: ActorRef },
    /// Commit the transaction.
    Commit,
    /// Roll the transaction back.
    Rollback,
    /// Hand the connection back; no transaction was opened.
    Release,
    /// The run is over; reading the resulting statuses is best-effort.
    Finish,
}

/// Whether `event` answers the command issued in phase `p`: each phase has
/// its own event, `Failed` fits every phase but the terminal ones, and the
/// rows reported hold no negative quantity.
pub open spec fn accepts_event(p: TransferPhase, event: StoreEvent) -> bool {
    match event {
        StoreEvent::Looked { source, destination_exists } => p == TransferPhase::Validating && (source matches Some(
            rec,
        ) ==> rec.wf()),
        StoreEvent::Locked { source, destination } => {
            &&& p == TransferPhase::Locking
            &&& source matches Some(s) ==> s.wf()
            &&& destination matches Some(d) ==> d.wf()
        },
        StoreEvent::Allocated(_) => p == TransferPhase::Allocating,
        StoreEvent::LedgerWritten => p == TransferPhase::Auditing,
        StoreEvent::BalancesWritten => p == TransferPhase::Mutating,
        StoreEvent::CommitDone => p == TransferPhase::Committing,
        StoreEvent::Failed(_) => !is_terminal(p),
    }
}

/// `r` is the validation verdict on `req` under `policy`, given the source
/// row found and whether the destination bin exists.
pub open spec fn verdict(
    policy: MovementPolicy,
    req: TransferRequest,
    source: Option<BalanceRecord>,
    destination_exists: bool,
    r: Result<TransferPlan, PutawayError>,
) -> bool {
    match policy {
        MovementPolicy::AvailableQuantity => transfer_verdict(
            source,
            req.lot_no@,
            req.item_key@,
            req.location@,
            req.bin_from@,
            req.bin_to@,
            req.quantity,
            destination_exists,
            r,
        ),
        MovementPolicy::CommittedStock => committed_verdict(
            source,
            req.location@,
            req.bin_from@,
            req.bin_to@,
            req.quantity,
            destination_exists,
            r,
        ),
    }
}

/// The stock a request is measured against in a row: what is available,
/// or, for reserved stock, all that is on hand.
pub open spec fn measure_of(policy: MovementPolicy, rec: BalanceRecord) -> int {
    match policy {
        MovementPolicy::AvailableQuantity => rec.available(),
        MovementPolicy::CommittedStock => rec.qty_on_hand as int,
    }
}

/// The plan for `req` against the row as locked.
pub open spec fn locked_plan(policy: MovementPolicy, req: TransferRequest, source: BalanceRecord) -> TransferPlan {
    approved_plan(req.quantity, measure_of(policy, source) as i64)
}

pub open spec fn lock_missing_message() -> Seq<char> {
    "Source bin not found for locking"@
}

/// One transfer, from validation to commit or rollback.
///
/// The run owns the decisions: given each store event it says which
/// command comes next. Every failure after the transaction opens ends in a
/// rollback, and the failure is kept unchanged as the run's error.
#[derive(Debug)]
pub struct TransferRun {
    policy: MovementPolicy,
    request: TransferRequest,
    actor: ActorRef,
    phase: TransferPhase,
    plan: Option<TransferPlan>,
    source_row: Option<BalanceRecord>,
    destination_row: Option<BalanceRecord>,
    document_no: Option<String>,
    error: Option<PutawayError>,
    balances_written: bool,
}

impl TransferRun {
    pub closed spec fn policy_of(&self) -> MovementPolicy {
        self.policy
    }

    pub closed spec fn request_of(&self) -> TransferRequest {
        self.request
    }

    pub closed spec fn current_phase(&self) -> TransferPhase {
        self.phase
    }

    /// The approved plan, once validation passed.
    pub closed spec fn approved(&self) -> Option<TransferPlan> {
        self.plan
    }

    /// The allocated document number, once allocation succeeded.
    pub closed spec fn document(&self) -> Option<Seq<char>> {
        match self.document_no {
            Some(d) => Some(d@),
            None => None,
        }
    }

    /// The source row as locked.
    pub closed spec fn locked_source(&self) -> Option<BalanceRecord> {
        self.source_row
    }

    /// The destination row as locked, if the bin held the lot.
    pub closed spec fn locked_destination(&self) -> Option<BalanceRecord> {
        self.destination_row
    }

    /// The failure that ended the run, if it failed.
    pub closed spec fn failure(&self) -> Option<PutawayError> {
        self.error
    }

    /// The actor stamped on the rows the run writes.
    pub closed spec fn actor_view(&self) -> Seq<char> {
        self.actor@
    }

    /// Whether the run has asked the store to write balance rows.
    pub closed spec fn wrote_balances(&self) -> bool {
        self.balances_written
    }

    /// The run's bookkeeping agrees with its phase.
    pub closed spec fn wf(&self) -> bool {
        &&& self.balances_written <==> (self.phase == TransferPhase::Mutating || self.phase
            == TransferPhase::Committing || self.phase == TransferPhase::Committed || (self.phase
            == TransferPhase::RolledBack && self.balances_written))
        &&& (self.phase == TransferPhase::RolledBack <==> self.error is Some)
        &&& (self.phase == TransferPhase::Validating ==> self.plan is None)
        &&& (self.phase != TransferPhase::Validating && self.phase != TransferPhase::RolledBack
            ==> (self.plan matches Some(p) && p.actual_quantity > 0))
        &&& (self.phase == TransferPhase::Allocating || self.phase == TransferPhase::Auditing) ==> ((
        self.source_row matches Some(s) && s.wf()) && (self.destination_row matches Some(d) ==> d.wf()))
        &&& (self.phase == TransferPhase::Auditing || self.phase == TransferPhase::Mutating
            || self.phase == TransferPhase::Committing || self.phase == TransferPhase::Committed)
            ==> self.document_no is Some
        &&& self.request.bin_from@ != self.request.bin_to@ || self.phase == TransferPhase::Validating
            || self.phase == TransferPhase::RolledBack
        &&& self.actor@ == actor_text(self.request.user_id@)
    }

    /// A run that has not started: it waits for validation.
    pub open spec fn is_fresh(&self) -> bool {
        &&& self.wf()
        &&& self.current_phase() == TransferPhase::Validating
        &&& !self.wrote_balances()
        &&& self.failure() is None
        &&& self.document() is None
    }
}

/// One step of a run: `before` took `event` and became `after`, issuing
/// `cmd`.
///
/// The phase moves to its successor or to `RolledBack`; a failure event
/// ends the run with its error unchanged, by a rollback once the
/// transaction is open; balances are written only after the ledger
/// entries, and only once.
pub open spec fn step(before: TransferRun, event: StoreEvent, after: TransferRun, cmd: StoreCommand) -> bool {
    &&& after.wf()
    &&& after.policy_of() == before.policy_of()
    &&& after.request_of() == before.request_of()
    &&& after.current_phase() == successor(before.current_phase()) || after.current_phase()
        == TransferPhase::RolledBack
    &&& after.wrote_balances() == (before.wrote_balances() || cmd is WriteBalances)
    &&& cmd is WriteBalances ==> before.current_phase() == TransferPhase::Auditing && event is LedgerWritten
        && after.current_phase() == TransferPhase::Mutating
    &&& after.current_phase() == TransferPhase::RolledBack ==> if before.current_phase()
        == TransferPhase::Validating {
        cmd is Release
    } else {
        cmd is Rollback
    }
    &&& event matches StoreEvent::Failed(e) ==> after.current_phase() == TransferPhase::RolledBack
        && after.failure() == Some(e)
    &&& after.current_phase() == TransferPhase::Committed ==> cmd is Finish && after.document() is Some
    &&& after.current_phase() == TransferPhase::Committing ==> cmd is Commit
    &&& after.actor_view() == before.actor_view()
}

impl TransferRun {
    /// A run for `request` under `policy`, waiting for validation; the
    /// first command is `Validate`.
    pub fn start(policy: MovementPolicy, request: TransferRequest) -> (r: (TransferRun, StoreCommand))
        ensures
            r.0.is_fresh(),
            r.0.policy_of() == policy,
            r.0.request_of() == request,
            r.0.actor_view() == actor_text(request.user_id@),
            r.1 is Validate,
    {
        let actor = ActorRef::from_user_id(request.user_id.as_str());
        let run = TransferRun {
            policy,
            request,
            actor,
            phase: TransferPhase::Validating,
            plan: None,
            source_row: None,
            destination_row: None,
            document_no: None,
            error: None,
            balances_written: false,
        };
        (run, StoreCommand::Validate)
    }

    /// The run's phase.
    pub fn phase(&self) -> (r: TransferPhase)
        ensures
            r == self.current_phase(),
    {
        self.phase
    }

    /// The request the run carries out.
    pub fn request(&self) -> (r: &TransferRequest)
        ensures
            *r == self.request_of(),
    {
        &self.request
    }

    /// The approved plan, once validation passed.
    pub fn plan(&self) -> (r: Option<TransferPlan>)
        ensures
            r == self.approved(),
    {
        self.plan
    }

    /// Whether the run takes `event` in its present phase.
    pub fn accepts(&self, event: &StoreEvent) -> (r: bool)
        ensures
            r == accepts_event(self.current_phase(), *event),
    {
        match event {
            StoreEvent::Looked { source, destination_exists: _ } => {
                self.phase == TransferPhase::Validating && match source {
                    Some(rec) => rec.qty_on_hand >= 0 && rec.qty_committed >= 0,
                    None => true,
                }
            },
            StoreEvent::Locked { source, destination } => {
                self.phase == TransferPhase::Locking && match source {
                    Some(s) => s.qty_on_hand >= 0 && s.qty_committed >= 0,
                    None => true,
                } && match destination {
                    Some(d) => d.qty_on_hand >= 0 && d.qty_committed >= 0,
                    None => true,
                }
            },
            StoreEvent::Allocated(_) => self.phase == TransferPhase::Allocating,
            StoreEvent::LedgerWritten => self.phase == TransferPhase::Auditing,
            StoreEvent::BalancesWritten => self.phase == TransferPhase::Mutating,
            StoreEvent::CommitDone => self.phase == TransferPhase::Committing,
            StoreEvent::Failed(_) => self.phase != TransferPhase::Committed && self.phase
                != TransferPhase::RolledBack,
        }
    }

    /// How the run ended: the document number once committed, the failure
    /// once rolled back, nothing while it is still going.
    pub fn outcome(&self) -> (r: Option<Result<String, PutawayError>>)
        requires
            self.wf(),
        ensures
            self.current_phase() == TransferPhase::Committed ==> (r matches Some(Ok(d)) && Some(d@)
                == self.document()),
            self.current_phase() == TransferPhase::RolledBack ==> (r matches Some(Err(e)) && Some(e)
                == self.failure()),
            !is_terminal(self.current_phase()) ==> r is None,
    {
        match self.phase {
            TransferPhase::Committed => match &self.document_no {
                Some(d) => Some(Ok(d.clone())),
                None => None,
            },
            TransferPhase::RolledBack => match &self.error {
                Some(e) => Some(Err(e.copy_error())),
                None => None,
            },
            _ => None,
        }
    }

    fn fail(&mut self, e: PutawayError) -> (r: StoreCommand)
        requires
            old(self).wf(),
            !is_terminal(old(self).phase),
        ensures
            final(self).wf(),
            final(self).phase == TransferPhase::RolledBack,
            final(self).error == Some(e),
            final(self).balances_written == old(self).balances_written,
            final(self).policy == old(self).policy,
            final(self).request == old(self).request,
            old(self).phase == TransferPhase::Validating ==> r is Release,
            old(self).phase != TransferPhase::Validating ==> r is Rollback,
    {
        let was_validating = self.phase == TransferPhase::Validating;
        self.phase = TransferPhase::RolledBack;
        self.error = Some(e);
        if was_validating {
            StoreCommand::Release
        } else {
            StoreCommand::Rollback
        }
    }

    /// Takes the store's answer to the last command and returns the next
    /// command.
    ///
    /// Validation gives the verdict of the policy's validator, its error
    /// unchanged. Once the rows are locked, the request is measured again
    /// against the locked source row, which other transfers may have changed
    /// since validation, and the plan follows that row. A store that answers
    /// every later command normally takes the run to its commit.
    pub fn advance(&mut self, event: StoreEvent) -> (cmd: StoreCommand)
        requires
            old(self).wf(),
            accepts_event(old(self).current_phase(), event),
        ensures
            step(*old(self), event, *final(self), cmd),
            event matches StoreEvent::Looked { source, destination_exists } ==> {
                let policy = old(self).policy_of();
                let req = old(self).request_of();
                &&& final(self).current_phase() == TransferPhase::Locking || final(self).current_phase()
                    == TransferPhase::RolledBack
                &&& final(self).current_phase() == TransferPhase::Locking ==> cmd is OpenAndLock
                &&& final(self).current_phase() == TransferPhase::Locking ==> (final(self).approved() matches Some(p)
                    && verdict(policy, req, source, destination_exists, Ok(p)) && p.actual_quantity > 0)
                &&& final(self).current_phase() == TransferPhase::RolledBack ==> (final(self).failure() matches Some(e) && (verdict(policy, req, source, destination_exists, Err(e)) || (final(self).approved() matches Some(p) && verdict(policy, req, source, destination_exists, Ok(p)) && p.actual_quantity <= 0
                    && is_validation_error(Err::<TransferPlan, PutawayError>(e), nonpositive_message()))))
            },
            cmd matches StoreCommand::OpenAndLock { first_bin, second_bin } ==> {
                let req = old(self).request_of();
                &&& !text_less(second_bin@, first_bin@)
                &&& (first_bin@ == req.bin_from@ && second_bin@ == req.bin_to@) || (first_bin@ == req.bin_to@
                    && second_bin@ == req.bin_from@)
            },
            event matches StoreEvent::Locked { source, destination } ==> {
                let policy = old(self).policy_of();
                let req = old(self).request_of();
                &&& source is None ==> final(self).current_phase() == TransferPhase::RolledBack && (final(self).failure() matches Some(PutawayError::ValidationError(m)) && m@ == lock_missing_message())
                &&& source matches Some(s) ==> if exceeds_available(req.quantity as int, measure_of(policy, s)) {
                    final(self).current_phase() == TransferPhase::RolledBack && (final(self).failure() matches Some(PutawayError::InsufficientQuantity { requested, available }) && requested == req.quantity && available == measure_of(policy, s))
                } else if locked_plan(policy, req, s).actual_quantity <= 0 {
                    final(self).current_phase() == TransferPhase::RolledBack && (final(self).failure() matches Some(PutawayError::ValidationError(m)) && m@ == nonpositive_message())
                } else {
                    &&& final(self).current_phase() == TransferPhase::Allocating
                    &&& cmd is AllocateDocument
                    &&& final(self).approved() == Some(locked_plan(policy, req, s))
                    &&& final(self).locked_source() == source
                    &&& final(self).locked_destination() == destination
                }
            },
            event matches StoreEvent::Allocated(row) ==> {
                let policy = old(self).policy_of();
                let req = old(self).request_of();
                &&& (row matches Some(n) && n >= 0) <==> final(self).current_phase() == TransferPhase::Auditing
                &&& row is None ==> (final(self).failure() matches Some(PutawayError::DatabaseError(m)) && m@
                    == missing_sequence_message())
                &&& row matches Some(n) ==> (n < 0 ==> (final(self).failure() matches Some(PutawayError::DatabaseError(m)) && m@ == negative_sequence_message()))
                &&& row matches Some(n) ==> (n >= 0 ==> {
                    &&& final(self).document() == Some(document_number_of(n as nat))
                    &&& cmd matches StoreCommand::WriteLedger { ledger }
                    &&& old(self).locked_source() matches Some(s)
                    &&& old(self).approved() matches Some(p)
                    &&& is_ledger_for(
                        ledger,
                        policy,
                        req.bin_from@,
                        req.bin_to@,
                        req.remarks@,
                        req.reference@,
                        s,
                        document_number_of(n as nat),
                        p.actual_quantity,
                        req.now,
                    )
                    &&& ledger.actor@ == actor_text(req.user_id@)
                })
            },
            event is LedgerWritten ==> {
                &&& old(self).approved() matches Some(p)
                &&& (old(self).locked_destination() matches Some(d) ==> merge_fits(
                    old(self).policy_of(),
                    d,
                    p.actual_quantity as int,
                )) <==> final(self).current_phase() == TransferPhase::Mutating
                &&& final(self).current_phase() == TransferPhase::Mutating ==> cmd is WriteBalances
                &&& final(self).current_phase() == TransferPhase::RolledBack ==> (final(self).failure() matches Some(e) && e is TransactionError)
            },
            cmd matches StoreCommand::WriteBalances { document_no, writes, actor } ==> {
                &&& Some(document_no@) == old(self).document()
                &&& actor@ == actor_text(old(self).request_of().user_id@)
                &&& old(self).locked_source() matches Some(s)
                &&& old(self).approved() matches Some(p)
                &&& writes.source == source_write_for(old(self).policy_of(), s, p.actual_quantity as int)
                &&& is_destination_write(
                    old(self).policy_of(),
                    writes.destination,
                    s,
                    old(self).locked_destination(),
                    old(self).request_of().bin_to@,
                    p.actual_quantity as int,
                    old(self).request_of().now,
                )
            },
            event is BalancesWritten ==> final(self).current_phase() == TransferPhase::Committing && cmd is Commit,
            event is CommitDone ==> final(self).current_phase() == TransferPhase::Committed && cmd is Finish,
    {
        match event {
            StoreEvent::Failed(e) => self.fail(e),
            StoreEvent::Looked { source, destination_exists } => {
                let verdict = match self.policy {
                    MovementPolicy::AvailableQuantity => validate_transfer(
                        &source,
                        self.request.lot_no.as_str(),
                        self.request.item_key.as_str(),
                        self.request.location.as_str(),
                        self.request.bin_from.as_str(),
                        self.request.bin_to.as_str(),
                        self.request.quantity,
                        destination_exists,
                    ),
                    MovementPolicy::CommittedStock => validate_committed_transfer(
                        &source,
                        self.request.location.as_str(),
                        self.request.bin_from.as_str(),
                        self.request.bin_to.as_str(),
                        self.request.quantity,
                        destination_exists,
                    ),
                };
                match verdict {
                    Err(e) => self.fail(e),
                    Ok(plan) => {
                        if plan.actual_quantity <= 0 {
                            let cmd = self.fail(
                                PutawayError::ValidationError(
                                    String::from_str("Transfer quantity must be greater than 0"),
                                ),
                            );
                            self.plan = Some(plan);
                            return cmd;
                        }
                        self.plan = Some(plan);
                        self.phase = TransferPhase::Locking;
                        let (first_bin, second_bin) = lock_order(
                            self.request.bin_from.as_str(),
                            self.request.bin_to.as_str(),
                        );
                        StoreCommand::OpenAndLock { first_bin, second_bin }
                    },
                }
            },
            StoreEvent::Locked { source, destination } => match source {
                None => self.fail(
                    PutawayError::ValidationError(String::from_str("Source bin not found for locking")),
                ),
                Some(s) => {
                    let measure: i64 = match self.policy {
                        MovementPolicy::AvailableQuantity => s.qty_on_hand - s.qty_committed,
                        MovementPolicy::CommittedStock => s.qty_on_hand,
                    };
                    let requested = self.request.quantity;
                    if requested as i128 > measure as i128 + QUANTITY_TOLERANCE as i128 {
                        return self.fail(PutawayError::InsufficientQuantity { requested, available: measure });
                    }
                    let actual_quantity = if requested as i128 + QUANTITY_TOLERANCE as i128 >= measure as i128 {
                        measure
                    } else {
                        requested
                    };
                    if actual_quantity <= 0 {
                        return self.fail(
                            PutawayError::ValidationError(
                                String::from_str("Transfer quantity must be greater than 0"),
                            ),
                        );
                    }
                    self.plan = Some(
                        TransferPlan {
                            actual_quantity,
                            is_full_transfer: requested as i128 + QUANTITY_TOLERANCE as i128 >= measure as i128,
                        },
                    );
                    self.source_row = Some(s);
                    self.destination_row = destination;
                    self.phase = TransferPhase::Allocating;
                    StoreCommand::AllocateDocument
                },
            },
            StoreEvent::Allocated(row) => match allocated_document_number(row) {
                Err(e) => self.fail(e),
                Ok(document_no) => {
                    let quantity = match self.plan {
                        Some(p) => p.actual_quantity,
                        None => 0,
                    };
                    match &self.source_row {
                        Some(s) => {
                            let ledger = ledger_writes(
                                self.policy,
                                self.request.bin_from.as_str(),
                                self.request.bin_to.as_str(),
                                self.request.remarks.as_str(),
                                self.request.reference.as_str(),
                                s,
                                document_no.clone(),
                                quantity,
                                self.actor.duplicate(),
                                self.request.now,
                            );
                            self.document_no = Some(document_no);
                            self.phase = TransferPhase::Auditing;
                            StoreCommand::WriteLedger { ledger }
                        },
                        None => self.fail(PutawayError::TransactionError(String::from_str("Source row not locked"))),
                    }
                },
            },
            StoreEvent::LedgerWritten => {
                let quantity = match self.plan {
                    Some(p) => p.actual_quantity,
                    None => 0,
                };
                let planned = match &self.source_row {
                    Some(s) => plan_balance_writes(
                        self.policy,
                        s,
                        &self.destination_row,
                        self.request.bin_to.as_str(),
                        quantity,
                        self.request.now,
                    ),
                    None => Err(PutawayError::TransactionError(String::from_str("Source row not locked"))),
                };
                match planned {
                    Err(e) => self.fail(e),
                    Ok(writes) => {
                        let document_no = match &self.document_no {
                            Some(d) => d.clone(),
                            None => String::new(),
                        };
                        self.balances_written = true;
                        self.phase = TransferPhase::Mutating;
                        StoreCommand::WriteBalances { document_no, writes, actor: self.actor.duplicate() }
                    },
                }
            },
            StoreEvent::BalancesWritten => {
                self.phase = TransferPhase::Committing;
                StoreCommand::Commit
            },
            StoreEvent::CommitDone => {
                self.phase = TransferPhase::Committed;
                StoreCommand::Finish
            },
        }
    }
}

proof fn lemma_writes_persist(runs: Seq<TransferRun>, events: Seq<StoreEvent>, commands: Seq<StoreCommand>, i: int, j: int)
    requires
        runs.len() == events.len() + 1,
        commands.len() == events.len(),
        forall|k: int| 0 <= k < events.len() ==> step(runs[k], events[k], runs[k + 1], #[trigger] commands[k]),
        0 <= i <= j < runs.len(),
        runs[i].wrote_balances(),
    ensures
        runs[j].wrote_balances(),
    decreases j - i,
{
    if j > i {
        lemma_writes_persist(runs, events, commands, i, j - 1);
        assert(step(runs[j - 1], events[j - 1], runs[j], commands[j - 1]));
    }
}

/// A run whose ledger step fails ends in a rollback, and at no step did it
/// ask the store to write a balance row: every balance quantity keeps the
/// value it had before the transfer.
///
/// `runs[i]` takes `events[i]`, becomes `runs[i + 1]` and issues
/// `commands[i]`; the last event is the failure, reported while the run
/// was writing the ledger.
pub proof fn lemma_ledger_failure_leaves_balances(
    runs: Seq<TransferRun>,
    events: Seq<StoreEvent>,
    commands: Seq<StoreCommand>,
)
    requires
        runs.len() == events.len() + 1,
        commands.len() == events.len(),
        events.len() > 0,
        runs[0].is_fresh(),
        forall|k: int| 0 <= k < events.len() ==> step(runs[k], events[k], runs[k + 1], #[trigger] commands[k]),
        runs[events.len() - 1].current_phase() == TransferPhase::Auditing,
        events.last() is Failed,
    ensures
        forall|k: int| 0 <= k < commands.len() ==> !(#[trigger] commands[k] is WriteBalances),
        commands.last() is Rollback,
        runs.last().current_phase() == TransferPhase::RolledBack,
        !runs.last().wrote_balances(),
{
    let n = events.len() as int;
    assert(n - 1 > 0) by {
        if n - 1 == 0 {
            assert(runs[0].current_phase() == TransferPhase::Validating);
        }
    }
    assert(step(runs[n - 2], events[n - 2], runs[n - 1], commands[n - 2]));
    assert(!runs[n - 1].wrote_balances());
    assert forall|k: int| 0 <= k < commands.len() implies !(#[trigger] commands[k] is WriteBalances) by {
        assert(step(runs[k], events[k], runs[k + 1], commands[k]));
        if commands[k] is WriteBalances && k < n - 1 {
            lemma_writes_persist(runs, events, commands, k + 1, n - 1);
        }
    }
    assert(step(runs[n - 1], events[n - 1], runs[n], commands[n - 1]));
}

} // verus!
