//! The escrow store: durable keyed storage of escrow records by depositor
//! address, with lookup, insert-if-absent and remove, and the uniqueness
//! invariant that at most one live record exists per depositor.

use vstd::prelude::*;

use crate::error::StoreError;

verus! {

/// A live escrow: `amount` tokens held for `depositor`, redeemable once the
/// clock reaches `expires_at`.
#[derive(Debug, Clone)]
pub struct EscrowRecord {
    /// The depositor address: the unique key of the store and the only
    /// address allowed to redeem.
    pub depositor: String,
    /// The quantity of tokens held; strictly positive for a live record.
    pub amount: u128,
    /// The absolute clock value at or after which redemption is permitted;
    /// computed once, at creation, and never recomputed.
    pub expires_at: u64,
}

/// No two positions of `s` hold the same depositor address (invariant I1).
pub open spec fn unique_depositors(s: Seq<EscrowRecord>) -> bool {
    forall|i: int, j: int|
        0 <= i < s.len() && 0 <= j < s.len() && i != j ==> s[i].depositor@ != s[j].depositor@
}

/// Some position of `s` holds a record for address `a`.
pub open spec fn has_record(s: Seq<EscrowRecord>, a: Seq<char>) -> bool {
    exists|i: int| 0 <= i < s.len() && s[i].depositor@ == a
}

/// A position of `s` holding a record for `a`; meaningful only when
/// `has_record(s, a)`.
pub open spec fn record_index(s: Seq<EscrowRecord>, a: Seq<char>) -> int {
    choose|i: int| 0 <= i < s.len() && s[i].depositor@ == a
}

/// The record stored for address `a`, if any.
pub open spec fn lookup(s: Seq<EscrowRecord>, a: Seq<char>) -> Option<EscrowRecord> {
    if has_record(s, a) {
        Some(s[record_index(s, a)])
    } else {
        None
    }
}

/// Every live record holds a strictly positive amount (invariant I2).
pub open spec fn amounts_positive(s: Seq<EscrowRecord>) -> bool {
    forall|a: Seq<char>| (#[trigger] lookup(s, a)) matches Some(rec) ==> rec.amount > 0
}

/// Uniqueness: in a store with unique depositors, any two positions holding
/// the same depositor address are the same position — at most one live
/// record exists per address.
pub proof fn lemma_unique_escrow(s: Seq<EscrowRecord>, i: int, j: int)
    requires
        unique_depositors(s),
        0 <= i < s.len(),
        0 <= j < s.len(),
        s[i].depositor@ == s[j].depositor@,
    ensures
        i == j,
{
}

/// The record at any position is exactly what `lookup` finds under its
/// depositor address.
pub proof fn lemma_lookup_at(s: Seq<EscrowRecord>, i: int)
    requires
        unique_depositors(s),
        0 <= i < s.len(),
    ensures
        has_record(s, s[i].depositor@),
        lookup(s, s[i].depositor@) == Some(s[i]),
{
    let a = s[i].depositor@;
    assert(has_record(s, a));
    let j = record_index(s, a);
    assert(0 <= j < s.len() && s[j].depositor@ == a);
    lemma_unique_escrow(s, i, j);
}

/// What `lookup` finds under `a` is a record whose depositor is `a`.
pub proof fn lemma_lookup_found(s: Seq<EscrowRecord>, a: Seq<char>)
    requires
        has_record(s, a),
    ensures
        ({
            let i = record_index(s, a);
            &&& 0 <= i < s.len()
            &&& s[i].depositor@ == a
            &&& lookup(s, a) == Some(s[i])
        }),
{
    assert(0 <= record_index(s, a) < s.len() && s[record_index(s, a)].depositor@ == a);
}

/// Appending a record for a fresh depositor keeps depositors unique and
/// leaves every other address's lookup unchanged.
pub proof fn lemma_lookup_push(s: Seq<EscrowRecord>, rec: EscrowRecord)
    requires
        unique_depositors(s),
        !has_record(s, rec.depositor@),
    ensures
        unique_depositors(s.push(rec)),
        lookup(s.push(rec), rec.depositor@) == Some(rec),
        forall|b: Seq<char>|
            b != rec.depositor@ ==> #[trigger] lookup(s.push(rec), b) == lookup(s, b),
{
    let t = s.push(rec);
    assert forall|i: int, j: int|
        0 <= i < t.len() && 0 <= j < t.len() && i != j implies t[i].depositor@
        != t[j].depositor@ by {
        if i < s.len() && j < s.len() {
            assert(t[i] == s[i] && t[j] == s[j]);
        } else if i == s.len() {
            assert(t[j] == s[j] && t[i] == rec);
            assert(s[j].depositor@ != rec.depositor@);
        } else {
            assert(t[i] == s[i] && t[j] == rec);
            assert(s[i].depositor@ != rec.depositor@);
        }
    }
    lemma_lookup_at(t, s.len() as int);
    assert forall|b: Seq<char>| b != rec.depositor@ implies #[trigger] lookup(t, b) == lookup(
        s,
        b,
    ) by {
        if has_record(s, b) {
            lemma_lookup_found(s, b);
            let i = record_index(s, b);
            assert(t[i] == s[i]);
            lemma_lookup_at(t, i);
        } else {
            if has_record(t, b) {
                let i = record_index(t, b);
                assert(0 <= i < t.len() && t[i].depositor@ == b);
                if i < s.len() {
                    assert(s[i].depositor@ == b);
                    assert(has_record(s, b));
                } else {
                    assert(t[i] == rec);
                }
                assert(false);
            }
        }
    }
}

/// Removing the record at the position holding `a` keeps depositors unique,
/// leaves no record under `a`, and leaves every other address's lookup
/// unchanged.
pub proof fn lemma_lookup_remove(s: Seq<EscrowRecord>, i: int)
    requires
        unique_depositors(s),
        0 <= i < s.len(),
    ensures
        unique_depositors(s.remove(i)),
        !has_record(s.remove(i), s[i].depositor@),
        forall|b: Seq<char>|
            b != s[i].depositor@ ==> #[trigger] lookup(s.remove(i), b) == lookup(s, b),
{
    let t = s.remove(i);
    let a = s[i].depositor@;
    assert forall|k: int| 0 <= k < t.len() implies t[k] == (if k < i {
        s[k]
    } else {
        s[k + 1]
    }) by {
        assert(t[k] == s.remove(i)[k]);
    }
    assert forall|p: int, q: int|
        0 <= p < t.len() && 0 <= q < t.len() && p != q implies t[p].depositor@
        != t[q].depositor@ by {
        let p0 = if p < i { p } else { p + 1 };
        let q0 = if q < i { q } else { q + 1 };
        assert(t[p] == s[p0] && t[q] == s[q0]);
    }
    assert forall|k: int| 0 <= k < t.len() implies t[k].depositor@ != a by {
        let k0 = if k < i { k } else { k + 1 };
        assert(t[k] == s[k0]);
        assert(s[k0].depositor@ != s[i].depositor@);
    }
    assert(!has_record(t, a));
    assert forall|b: Seq<char>| b != a implies #[trigger] lookup(t, b) == lookup(s, b) by {
        if has_record(s, b) {
            lemma_lookup_found(s, b);
            let j = record_index(s, b);
            let jt = if j < i { j } else { j - 1 };
            assert(j != i);
            assert(t[jt] == s[j]);
            lemma_lookup_at(t, jt);
        } else {
            if has_record(t, b) {
                let k = record_index(t, b);
                assert(0 <= k < t.len() && t[k].depositor@ == b);
                let k0 = if k < i { k } else { k + 1 };
                assert(t[k] == s[k0]);
                assert(has_record(s, b));
                assert(false);
            }
        }
    }
}

/// Durable keyed storage of `EscrowRecord` by depositor address. The store
/// exclusively owns all records; `insert_new` is the primitive that enforces
/// the uniqueness invariant.
#[derive(Debug)]
pub struct EscrowStore {
    records: Vec<EscrowRecord>,
}

impl View for EscrowStore {
    type V = Seq<EscrowRecord>;

    closed spec fn view(&self) -> Seq<EscrowRecord> {
        self.records@
    }
}

impl EscrowStore {
    /// Well-formed: at most one live record per depositor address (I1).
    pub open spec fn wf(self) -> bool {
        unique_depositors(self@)
    }

    /// An empty store.
    pub fn new() -> (s: EscrowStore)
        ensures
            s@ == Seq::<EscrowRecord>::empty(),
            s.wf(),
    {
        EscrowStore { records: Vec::new() }
    }

    /// The live records, in insertion order; for the host to persist.
    pub fn records(&self) -> (r: &Vec<EscrowRecord>)
        ensures
            r@ == self@,
    {
        &self.records
    }

    /// Look up the live record for `addr`. No side effects.
    pub fn get(&self, addr: &String) -> (r: Option<&EscrowRecord>)
        requires
            self.wf(),
        ensures
            match r {
                Some(rec) => lookup(self@, addr@) == Some(*rec),
                None => lookup(self@, addr@) is None,
            },
    {
        let n = self.records.len();
        let mut k: usize = 0;
        while k < n
            invariant
                self.wf(),
                n == self.records.len(),
                k <= n,
                forall|m: int| 0 <= m < k ==> self@[m].depositor@ != addr@,
            decreases n - k,
        {
            if self.records[k].depositor == *addr {
                proof {
                    lemma_lookup_at(self@, k as int);
                }
                return Some(&self.records[k]);
            }
            k = k + 1;
        }
        proof {
            if has_record(self@, addr@) {
                lemma_lookup_found(self@, addr@);
            }
        }
        None
    }

    /// Insert a record for a depositor with no live record; refuses a
    /// duplicate, leaving the store unchanged (this is what enforces I1).
    pub fn insert_new(&mut self, record: EscrowRecord) -> (r: Result<(), StoreError>)
        requires
            old(self).wf(),
        ensures
            final(self).wf(),
            r is Ok <==> !has_record(old(self)@, record.depositor@),
            match r {
                Ok(()) => {
                    &&& final(self)@ == old(self)@.push(record)
                    &&& lookup(final(self)@, record.depositor@) == Some(record)
                    &&& forall|b: Seq<char>|
                        b != record.depositor@ ==> #[trigger] lookup(final(self)@, b) == lookup(
                            old(self)@,
                            b,
                        )
                },
                Err(e) => {
                    &&& e == StoreError::DuplicateEscrow
                    &&& final(self)@ == old(self)@
                },
            },
    {
        if self.get(&record.depositor).is_some() {
            return Err(StoreError::DuplicateEscrow);
        }
        proof {
            lemma_lookup_push(self@, record);
        }
        self.records.push(record);
        Ok(())
    }

    /// Remove and return the record for `addr`; fails, leaving the store
    /// unchanged, if no record exists.
    pub fn remove(&mut self, addr: &String) -> (r: Result<EscrowRecord, StoreError>)
        requires
            old(self).wf(),
        ensures
            final(self).wf(),
            r is Ok <==> has_record(old(self)@, addr@),
            match r {
                Ok(rec) => {
                    &&& lookup(old(self)@, addr@) == Some(rec)
                    &&& lookup(final(self)@, addr@) is None
                    &&& final(self)@.len() == old(self)@.len() - 1
                    &&& forall|b: Seq<char>|
                        b != addr@ ==> #[trigger] lookup(final(self)@, b) == lookup(old(self)@, b)
                },
                Err(e) => {
                    &&& e == StoreError::NotFound
                    &&& final(self)@ == old(self)@
                },
            },
    {
        let n = self.records.len();
        let mut k: usize = 0;
        while k < n
            invariant
                *self == *old(self),
                self.wf(),
                n == self.records.len(),
                k <= n,
                forall|m: int| 0 <= m < k ==> self@[m].depositor@ != addr@,
            decreases n - k,
        {
            if self.records[k].depositor == *addr {
                proof {
                    lemma_lookup_at(self@, k as int);
                    lemma_lookup_remove(self@, k as int);
                }
                let rec = self.records.remove(k);
                return Ok(rec);
            }
            k = k + 1;
        }
        proof {
            if has_record(self@, addr@) {
                lemma_lookup_found(self@, addr@);
            }
        }
        Err(StoreError::NotFound)
    }
}

} // verus!
