use vstd::prelude::*;
use crate::balance::{
    BalanceKey, BalanceRecord, DestinationWrite, MovementPolicy, SourceWrite, committed_after_issue,
    committed_received, is_created_record, merge_fits, plan_balance_writes,
};
use crate::error::PutawayError;
use crate::text::same_text;

verus! {

/// No two rows of `s` share a key.
pub open spec fn keys_unique(s: Seq<BalanceRecord>) -> bool {
    forall|i: int, j: int|
        0 <= i < s.len() && 0 <= j < s.len() && i != j ==> #[trigger] s[i].key() != #[trigger] s[j].key()
}

/// Some row of `s` has key `k`.
pub open spec fn holds_key(s: Seq<BalanceRecord>, k: BalanceKey) -> bool {
    exists|i: int| 0 <= i < s.len() && #[trigger] s[i].key() == k
}

/// The rows of `s` by key.
pub open spec fn rows_by_key(s: Seq<BalanceRecord>) -> Map<BalanceKey, BalanceRecord> {
    Map::new(
        |k: BalanceKey| holds_key(s, k),
        |k: BalanceKey| s[choose|i: int| 0 <= i < s.len() && #[trigger] s[i].key() == k],
    )
}

proof fn lemma_row_in_view(s: Seq<BalanceRecord>, i: int)
    requires
        keys_unique(s),
        0 <= i < s.len(),
    ensures
        rows_by_key(s).contains_key(s[i].key()),
        rows_by_key(s)[s[i].key()] == s[i],
{
    let k = s[i].key();
    assert(holds_key(s, k));
    let j = choose|j: int| 0 <= j < s.len() && #[trigger] s[j].key() == k;
    assert(j == i);
}

proof fn lemma_view_update(s: Seq<BalanceRecord>, i: int, r: BalanceRecord)
    requires
        keys_unique(s),
        0 <= i < s.len(),
        r.key() == s[i].key(),
    ensures
        keys_unique(s.update(i, r)),
        rows_by_key(s.update(i, r)) == rows_by_key(s).insert(r.key(), r),
{
    let t = s.update(i, r);
    assert forall|a: int, b: int| 0 <= a < t.len() && 0 <= b < t.len() && a != b implies #[trigger] t[a].key()
        != #[trigger] t[b].key() by {
        assert(s[a].key() != s[b].key());
    }
    let m = rows_by_key(s).insert(r.key(), r);
    assert forall|k: BalanceKey| #[trigger] rows_by_key(t).contains_key(k) == m.contains_key(k) by {
        if holds_key(t, k) {
            let j = choose|j: int| 0 <= j < t.len() && #[trigger] t[j].key() == k;
            if j != i {
                assert(s[j].key() == k);
            }
        }
        if holds_key(s, k) {
            let j = choose|j: int| 0 <= j < s.len() && #[trigger] s[j].key() == k;
            assert(t[j].key() == k);
        }
        if k == r.key() {
            assert(t[i].key() == k);
        }
    }
    assert forall|k: BalanceKey| #[trigger] rows_by_key(t).contains_key(k) implies rows_by_key(t)[k] == m[k] by {
        let j = choose|j: int| 0 <= j < t.len() && #[trigger] t[j].key() == k;
        lemma_row_in_view(t, j);
        if j != i {
            lemma_row_in_view(s, j);
        }
    }
    assert(rows_by_key(t) =~= m);
}

proof fn lemma_view_push(s: Seq<BalanceRecord>, r: BalanceRecord)
    requires
        keys_unique(s),
        !holds_key(s, r.key()),
    ensures
        keys_unique(s.push(r)),
        rows_by_key(s.push(r)) == rows_by_key(s).insert(r.key(), r),
{
    let t = s.push(r);
    let n = s.len() as int;
    assert forall|a: int, b: int| 0 <= a < t.len() && 0 <= b < t.len() && a != b implies #[trigger] t[a].key()
        != #[trigger] t[b].key() by {
        if a < n && b < n {
            assert(s[a].key() != s[b].key());
        } else if a < n {
            assert(s[a].key() == t[a].key());
        } else {
            assert(s[b].key() == t[b].key());
        }
    }
    let m = rows_by_key(s).insert(r.key(), r);
    assert forall|k: BalanceKey| #[trigger] rows_by_key(t).contains_key(k) == m.contains_key(k) by {
        if holds_key(t, k) {
            let j = choose|j: int| 0 <= j < t.len() && #[trigger] t[j].key() == k;
            if j < n {
                assert(s[j].key() == k);
            }
        }
        if holds_key(s, k) {
            let j = choose|j: int| 0 <= j < s.len() && #[trigger] s[j].key() == k;
            assert(t[j].key() == k);
        }
        if k == r.key() {
            assert(t[n].key() == k);
        }
    }
    assert forall|k: BalanceKey| #[trigger] rows_by_key(t).contains_key(k) implies rows_by_key(t)[k] == m[k] by {
        let j = choose|j: int| 0 <= j < t.len() && #[trigger] t[j].key() == k;
        lemma_row_in_view(t, j);
        if j < n {
            lemma_row_in_view(s, j);
        }
    }
    assert(rows_by_key(t) =~= m);
}

proof fn lemma_view_remove(s: Seq<BalanceRecord>, i: int)
    requires
        keys_unique(s),
        0 <= i < s.len(),
    ensures
        keys_unique(s.remove(i)),
        rows_by_key(s.remove(i)) == rows_by_key(s).remove(s[i].key()),
{
    let t = s.remove(i);
    assert forall|a: int, b: int| 0 <= a < t.len() && 0 <= b < t.len() && a != b implies #[trigger] t[a].key()
        != #[trigger] t[b].key() by {
        let a2 = if a < i { a } else { a + 1 };
        let b2 = if b < i { b } else { b + 1 };
        assert(t[a] == s[a2]);
        assert(t[b] == s[b2]);
        assert(s[a2].key() != s[b2].key());
    }
    let m = rows_by_key(s).remove(s[i].key());
    assert forall|k: BalanceKey| #[trigger] rows_by_key(t).contains_key(k) == m.contains_key(k) by {
        if holds_key(t, k) {
            let j = choose|j: int| 0 <= j < t.len() && #[trigger] t[j].key() == k;
            let j2 = if j < i { j } else { j + 1 };
            assert(s[j2] == t[j]);
            assert(s[j2].key() != s[i].key());
        }
        if holds_key(s, k) && k != s[i].key() {
            let j = choose|j: int| 0 <= j < s.len() && #[trigger] s[j].key() == k;
            if j < i {
                assert(t[j] == s[j]);
            } else {
                assert(t[j - 1] == s[j]);
            }
        }
    }
    assert forall|k: BalanceKey| #[trigger] rows_by_key(t).contains_key(k) implies rows_by_key(t)[k] == m[k] by {
        let j = choose|j: int| 0 <= j < t.len() && #[trigger] t[j].key() == k;
        lemma_row_in_view(t, j);
        let j2 = if j < i { j } else { j + 1 };
        assert(s[j2] == t[j]);
        lemma_row_in_view(s, j2);
    }
    assert(rows_by_key(t) =~= m);
}

/// The lot-balance rows of a store, one per key, each with stock on hand.
#[derive(Debug, Clone)]
pub struct BalanceTable {
    records: Vec<BalanceRecord>,
}

impl BalanceTable {
    /// Keys are unique and every row is storable.
    pub closed spec fn wf(&self) -> bool {
        &&& keys_unique(self.records@)
        &&& forall|i: int| 0 <= i < self.records@.len() ==> #[trigger] self.records@[i].storable()
    }

    /// The rows by key.
    pub closed spec fn view(&self) -> Map<BalanceKey, BalanceRecord> {
        rows_by_key(self.records@)
    }

    /// A table with no rows.
    pub fn new() -> (r: BalanceTable)
        ensures
            r.wf(),
            r@ == Map::<BalanceKey, BalanceRecord>::empty(),
    {
        let r = BalanceTable { records: Vec::new() };
        assert(r@ =~= Map::<BalanceKey, BalanceRecord>::empty());
        r
    }

    /// The rows, in the order they were stored.
    pub fn records(&self) -> (r: &Vec<BalanceRecord>)
        requires
            self.wf(),
        ensures
            keys_unique(r@),
            rows_by_key(r@) == self@,
    {
        &self.records
    }

    /// The position of the row with the given key, if there is one.
    fn position(&self, lot_no: &str, item_key: &str, location: &str, bin_no: &str) -> (r: Option<usize>)
        requires
            self.wf(),
        ensures
            r matches Some(i) ==> i < self.records@.len() && self.records@[i as int].key() == (
                lot_no@,
                item_key@,
                location@,
                bin_no@,
            ),
            r is None ==> !holds_key(self.records@, (lot_no@, item_key@, location@, bin_no@)),
    {
        let k = Ghost((lot_no@, item_key@, location@, bin_no@));
        let mut i: usize = 0;
        while i < self.records.len()
            invariant
                i <= self.records@.len(),
                k@ == (lot_no@, item_key@, location@, bin_no@),
                forall|j: int| 0 <= j < i ==> #[trigger] self.records@[j].key() != k@,
            decreases self.records@.len() - i,
        {
            let rec = &self.records[i];
            let a = same_text(rec.lot_no.as_str(), lot_no);
            let b = same_text(rec.item_key.as_str(), item_key);
            let c = same_text(rec.location.as_str(), location);
            let d = same_text(rec.bin_no.as_str(), bin_no);
            let same = a && b && c && d;
            assert(same == (rec.key() == k@));
            if same {
                return Some(i);
            }
            i = i + 1;
        }
        None
    }

    /// The row with the given key, if there is one.
    pub fn find(&self, lot_no: &str, item_key: &str, location: &str, bin_no: &str) -> (r: Option<&BalanceRecord>)
        requires
            self.wf(),
        ensures
            r matches Some(rec) ==> self@.contains_key((lot_no@, item_key@, location@, bin_no@)) && *rec
                == self@[(lot_no@, item_key@, location@, bin_no@)],
            r is None ==> !self@.contains_key((lot_no@, item_key@, location@, bin_no@)),
    {
        match self.position(lot_no, item_key, location, bin_no) {
            Some(i) => {
                proof {
                    lemma_row_in_view(self.records@, i as int);
                }
                Some(&self.records[i])
            },
            None => None,
        }
    }

    /// Stores a first receipt of a lot into a bin.
    ///
    /// Fails with a `ValidationError` when the row has no stock on hand, a
    /// negative reservation, or a key that is already present.
    pub fn receive(&mut self, record: BalanceRecord) -> (r: Result<(), PutawayError>)
        requires
            old(self).wf(),
        ensures
            final(self).wf(),
            r is Ok <==> record.storable() && !old(self)@.contains_key(record.key()),
            r is Ok ==> final(self)@ == old(self)@.insert(record.key(), record),
            r is Err ==> final(self)@ == old(self)@ && r->Err_0 is ValidationError,
    {
        if record.qty_on_hand <= 0 || record.qty_committed < 0 {
            return Err(PutawayError::ValidationError(String::from_str("Balance row must hold stock on hand")));
        }
        match self.position(record.lot_no.as_str(), record.item_key.as_str(), record.location.as_str(), record.bin_no.as_str()) {
            Some(i) => {
                proof {
                    lemma_row_in_view(self.records@, i as int);
                }
                Err(PutawayError::ValidationError(String::from_str("Balance row already exists")))
            },
            None => {
                proof {
                    lemma_view_push(self.records@, record);
                }
                self.records.push(record);
                Ok(())
            },
        }
    }

    /// Moves `quantity` units of a lot from `bin_from` to `bin_to`, as one
    /// committed transfer does to the store's rows.
    ///
    /// The source row loses the quantity and is deleted once nothing remains
    /// on hand; the destination row absorbs it, or is created from the
    /// source row's fields when the bin did not hold the lot. Under
    /// [`MovementPolicy::CommittedStock`] the reservation moves too. Fails,
    /// leaving the table as it was, when the source row is missing or a
    /// merged quantity would leave the range of `i64`.
    pub fn apply_transfer(
        &mut self,
        policy: MovementPolicy,
        lot_no: &str,
        item_key: &str,
        location: &str,
        bin_from: &str,
        bin_to: &str,
        quantity: i64,
        now: i64,
    ) -> (r: Result<(), PutawayError>)
        requires
            old(self).wf(),
            quantity > 0,
            bin_from@ != bin_to@,
        ensures
            final(self).wf(),
            ({
                let ks = (lot_no@, item_key@, location@, bin_from@);
                let kd = (lot_no@, item_key@, location@, bin_to@);
                let before = old(self)@;
                let after = final(self)@;
                &&& r is Ok <==> before.contains_key(ks) && (before.contains_key(kd) ==> merge_fits(
                    policy,
                    before[kd],
                    quantity as int,
                ))
                &&& r is Err ==> after == before
                &&& !before.contains_key(ks) ==> (r matches Err(PutawayError::ValidationError(m)) && m@
                    == "Source lot not found before transfer"@)
                &&& r is Ok ==> {
                    let s = before[ks];
                    &&& after.remove(ks).remove(kd) == before.remove(ks).remove(kd)
                    &&& s.qty_on_hand - quantity <= 0 ==> !after.contains_key(ks)
                    &&& s.qty_on_hand - quantity > 0 ==> after.contains_key(ks) && after[ks]
                        == s.with_quantities(
                        s.qty_on_hand - quantity,
                        committed_after_issue(policy, s.qty_committed as int, quantity as int),
                    )
                    &&& after.contains_key(kd)
                    &&& before.contains_key(kd) ==> after[kd] == before[kd].with_quantities(
                        before[kd].qty_on_hand + quantity,
                        before[kd].qty_committed + committed_received(policy, quantity as int),
                    )
                    &&& !before.contains_key(kd) ==> is_created_record(
                        policy,
                        after[kd],
                        s,
                        bin_to@,
                        quantity as int,
                        now,
                    )
                }
            }),
    {
        let ghost ks = (lot_no@, item_key@, location@, bin_from@);
        let ghost kd = (lot_no@, item_key@, location@, bin_to@);
        let ghost before = self@;
        let si = match self.position(lot_no, item_key, location, bin_from) {
            Some(i) => i,
            None => {
                return Err(PutawayError::ValidationError(String::from_str("Source lot not found before transfer")));
            },
        };
        proof {
            lemma_row_in_view(self.records@, si as int);
        }
        assert(self.records@[si as int].storable());
        let di = self.position(lot_no, item_key, location, bin_to);
        let destination = match di {
            Some(j) => {
                proof {
                    lemma_row_in_view(self.records@, j as int);
                }
                assert(self.records@[j as int].storable());
                Some(self.records[j].copy_record())
            },
            None => None,
        };
        let writes = match plan_balance_writes(policy, &self.records[si], &destination, bin_to, quantity, now) {
            Ok(w) => w,
            Err(e) => {
                return Err(e);
            },
        };
        let ghost s = self.records@[si as int];
        match di {
            Some(j) => {
                if let DestinationWrite::Merge { qty_on_hand, qty_committed } = writes.destination {
                    let mut d = self.records[j].copy_record();
                    d.qty_on_hand = qty_on_hand;
                    d.qty_committed = qty_committed;
                    proof {
                        lemma_view_update(self.records@, j as int, d);
                    }
                    self.records.set(j, d);
                    assert(forall|i: int| 0 <= i < self.records@.len() ==> #[trigger] self.records@[i].storable());
                }
            },
            None => {
                if let DestinationWrite::Create(created) = writes.destination {
                    proof {
                        lemma_view_push(self.records@, created);
                    }
                    self.records.push(created);
                    assert(forall|i: int| 0 <= i < self.records@.len() ==> #[trigger] self.records@[i].storable());
                }
            },
        }
        assert(self.records@[si as int] == s);
        proof {
            lemma_row_in_view(self.records@, si as int);
        }
        match writes.source {
            SourceWrite::Delete => {
                proof {
                    lemma_view_remove(self.records@, si as int);
                }
                self.records.remove(si);
                assert(forall|i: int| 0 <= i < self.records@.len() ==> #[trigger] self.records@[i].storable());
            },
            SourceWrite::Update { qty_on_hand, qty_committed } => {
                let mut u = self.records[si].copy_record();
                u.qty_on_hand = qty_on_hand;
                u.qty_committed = qty_committed;
                proof {
                    lemma_view_update(self.records@, si as int, u);
                }
                self.records.set(si, u);
                assert(forall|i: int| 0 <= i < self.records@.len() ==> #[trigger] self.records@[i].storable());
            },
        }
        assert(self@.remove(ks).remove(kd) =~= before.remove(ks).remove(kd));
        Ok(())
    }
}

/// Every row of a well-formed table has stock on hand and no negative
/// reservation, and sits under its own key: after any sequence of
/// transfers, no row is stored at zero.
pub proof fn lemma_stored_rows_hold_stock(table: BalanceTable)
    requires
        table.wf(),
    ensures
        forall|k: BalanceKey| #[trigger] table@.contains_key(k) ==> table@[k].storable() && table@[k].key() == k,
{
    assert forall|k: BalanceKey| #[trigger] table@.contains_key(k) implies table@[k].storable() && table@[k].key()
        == k by {
        let j = choose|j: int| 0 <= j < table.records@.len() && #[trigger] table.records@[j].key() == k;
        lemma_row_in_view(table.records@, j);
    }
}

} // verus!
