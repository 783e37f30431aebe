//! The per-account history: an append-only log of processed batches for each
//! account, read back whole or page by page.

use vstd::prelude::*;
use crate::model::HistoryRecord;

verus! {

/// Whether `accounts` holds the account `a`.
pub open spec fn has_account(accounts: Seq<String>, a: Seq<char>) -> bool {
    exists|i: int| 0 <= i < accounts.len() && (#[trigger] accounts[i])@ == a
}

/// The position of the account `a`; meaningful where `has_account` holds.
pub open spec fn account_slot(accounts: Seq<String>, a: Seq<char>) -> int {
    choose|i: int| 0 <= i < accounts.len() && (#[trigger] accounts[i])@ == a
}

/// The first index of page `page_index` for pages of `page_size` records.
pub open spec fn page_start(page_index: nat, page_size: nat) -> nat {
    page_index * page_size
}

/// Page `page_index` of `history` for pages of `page_size` records: the
/// records whose index lies in
/// `[page_index * page_size, page_index * page_size + page_size)`, as far as
/// `history` has them, in order.
pub open spec fn page_of(history: Seq<HistoryRecord>, page_index: nat, page_size: nat) -> Seq<
    HistoryRecord,
> {
    let start = page_start(page_index, page_size);
    if start >= history.len() {
        Seq::empty()
    } else if start + page_size >= history.len() {
        history.subrange(start as int, history.len() as int)
    } else {
        history.subrange(start as int, (start + page_size) as int)
    }
}

/// The number of pages of `page_size` records that hold `len` records.
pub open spec fn page_count(len: nat, page_size: nat) -> nat
    recommends
        page_size > 0,
{
    ((len + page_size - 1) / (page_size as int)) as nat
}

/// The first `count` pages of `history`, one after the other.
pub open spec fn concat_pages(history: Seq<HistoryRecord>, page_size: nat, count: nat) -> Seq<
    HistoryRecord,
>
    decreases count,
{
    if count == 0 {
        Seq::empty()
    } else {
        concat_pages(history, page_size, (count - 1) as nat) + page_of(
            history,
            (count - 1) as nat,
            page_size,
        )
    }
}

/// The histories of all accounts. An account that never had a record has no
/// partition and an empty history.
#[derive(Debug, Clone, PartialEq, Eq)]
pub struct HistoryLedger {
    /// The accounts that have a partition, in order of their first record.
    pub accounts: Vec<String>,
    /// The partition of each account, at the account's position.
    pub logs: Vec<Vec<HistoryRecord>>,
}

impl HistoryLedger {
    /// The invariant of the ledger: one partition per account, and no account
    /// twice.
    pub open spec fn wf(&self) -> bool {
        &&& self.accounts@.len() == self.logs@.len()
        &&& forall|i: int, j: int|
            0 <= i < j < self.accounts@.len() ==> (#[trigger] self.accounts@[i])@ != (
            #[trigger] self.accounts@[j])@
    }

    /// The records of `account`, oldest first.
    pub open spec fn history(&self, account: Seq<char>) -> Seq<HistoryRecord> {
        if has_account(self.accounts@, account) {
            self.logs@[account_slot(self.accounts@, account)]@
        } else {
            Seq::empty()
        }
    }

    /// A ledger in which every history is empty.
    pub fn new() -> (r: HistoryLedger)
        ensures
            r.wf(),
            forall|a: Seq<char>| r.history(a) == Seq::<HistoryRecord>::empty(),
    {
        HistoryLedger { accounts: Vec::new(), logs: Vec::new() }
    }

    /// Restores a ledger from stored partitions; `None` exactly when they break
    /// the invariant.
    pub fn restore(accounts: Vec<String>, logs: Vec<Vec<HistoryRecord>>) -> (r: Option<HistoryLedger>)
        ensures
            match r {
                Some(l) => l.wf() && l.accounts == accounts && l.logs == logs,
                None => !(HistoryLedger { accounts, logs }).wf(),
            },
    {
        if accounts.len() != logs.len() {
            return None;
        }
        let mut j: usize = 0;
        while j < accounts.len()
            invariant
                j <= accounts.len(),
                forall|a: int, b: int|
                    0 <= a < b < j ==> (#[trigger] accounts@[a])@ != (#[trigger] accounts@[b])@,
            decreases accounts.len() - j,
        {
            let mut i: usize = 0;
            while i < j
                invariant
                    i <= j < accounts.len(),
                    forall|k: int| 0 <= k < i ==> (#[trigger] accounts@[k])@ != accounts@[j as int]@,
                decreases j - i,
            {
                if accounts[i] == accounts[j] {
                    return None;
                }
                i += 1;
            }
            j += 1;
        }
        Some(HistoryLedger { accounts, logs })
    }

    /// The position of the partition of `account`, if it has one.
    fn slot(&self, account: &String) -> (r: Option<usize>)
        requires
            self.wf(),
        ensures
            match r {
                Some(i) => {
                    &&& i < self.accounts@.len()
                    &&& self.accounts@[i as int]@ == account@
                    &&& has_account(self.accounts@, account@)
                    &&& account_slot(self.accounts@, account@) == i
                },
                None => !has_account(self.accounts@, account@),
            },
    {
        let mut i: usize = 0;
        while i < self.accounts.len()
            invariant
                self.wf(),
                i <= self.accounts@.len(),
                forall|j: int| 0 <= j < i ==> (#[trigger] self.accounts@[j])@ != account@,
            decreases self.accounts.len() - i,
        {
            if self.accounts[i] == *account {
                proof {
                    assert(has_account(self.accounts@, account@));
                    let s = account_slot(self.accounts@, account@);
                    if s < i {
                        assert(self.accounts@[s]@ != self.accounts@[i as int]@);
                    } else if i < s {
                        assert(self.accounts@[i as int]@ != self.accounts@[s]@);
                    }
                }
                return Some(i);
            }
            i += 1;
        }
        None
    }

    /// Appends `record` to the history of `account`. The record gets the next
    /// index of that history; every other history stays as it was.
    pub fn append(&mut self, account: &String, record: HistoryRecord)
        requires
            old(self).wf(),
        ensures
            final(self).wf(),
            final(self).history(account@) == old(self).history(account@).push(record),
            forall|b: Seq<char>| b != account@ ==> final(self).history(b) == old(self).history(b),
    {
        match self.slot(account) {
            Some(i) => {
                self.logs[i].push(record);
                assert forall|b: Seq<char>| b != account@ implies self.history(b) == old(
                    self,
                ).history(b) by {
                    if has_account(self.accounts@, b) {
                        assert(account_slot(self.accounts@, b) != i);
                    }
                }
            },
            None => {
                let ghost n = self.accounts@.len() as int;
                self.accounts.push(account.clone());
                let mut log: Vec<HistoryRecord> = Vec::new();
                log.push(record);
                self.logs.push(log);
                proof {
                    assert(self.accounts@[n]@ == account@);
                    let s = account_slot(self.accounts@, account@);
                    if s < n {
                        assert(old(self).accounts@[s]@ == account@);
                    }
                    assert(s == n);
                    assert(self.logs@[n]@ =~= Seq::<HistoryRecord>::empty().push(record));
                    assert forall|b: Seq<char>| b != account@ implies self.history(b) == old(
                        self,
                    ).history(b) by {
                        if has_account(self.accounts@, b) {
                            let t = account_slot(self.accounts@, b);
                            assert(t < n);
                            assert(old(self).accounts@[t]@ == b);
                            let u = account_slot(old(self).accounts@, b);
                            assert(self.accounts@[u]@ == b);
                            if u < t {
                                assert(self.accounts@[u]@ != self.accounts@[t]@);
                            } else if t < u {
                                assert(self.accounts@[t]@ != self.accounts@[u]@);
                            }
                        } else if has_account(old(self).accounts@, b) {
                            let u = account_slot(old(self).accounts@, b);
                            assert(self.accounts@[u]@ == b);
                        }
                    }
                }
            },
        }
    }

    /// The number of records of `account`; zero for an account without
    /// history.
    pub fn len(&self, account: &String) -> (r: usize)
        requires
            self.wf(),
        ensures
            r == self.history(account@).len(),
    {
        match self.slot(account) {
            Some(i) => self.logs[i].len(),
            None => 0,
        }
    }

    /// Page `page_index` of the history of `account`, for pages of `page_size`
    /// records. A page beyond the end, and any page of size zero, is empty.
    pub fn page<'a>(&'a self, account: &String, page_index: u32, page_size: u32) -> (r: Vec<
        &'a HistoryRecord,
    >)
        requires
            self.wf(),
        ensures
            r@.len() == page_of(self.history(account@), page_index as nat, page_size as nat).len(),
            forall|k: int|
                0 <= k < r@.len() ==> *(#[trigger] r@[k]) == page_of(
                    self.history(account@),
                    page_index as nat,
                    page_size as nat,
                )[k],
    {
        let mut out: Vec<&'a HistoryRecord> = Vec::new();
        let slot = self.slot(account);
        if slot.is_none() {
            return out;
        }
        let log = &self.logs[slot.unwrap()];
        let len: u64 = log.len() as u64;
        assert(page_index as u64 * page_size as u64 <= 0xffff_ffff * 0xffff_ffff) by (nonlinear_arith)
            requires
                page_index as u64 <= 0xffff_ffff,
                page_size as u64 <= 0xffff_ffff,
        ;
        let start: u64 = page_index as u64 * page_size as u64;
        if start >= len {
            return out;
        }
        let end: u64 = if page_size as u64 >= len - start {
            len
        } else {
            start + page_size as u64
        };
        let ghost want = page_of(self.history(account@), page_index as nat, page_size as nat);
        assert(want == log@.subrange(start as int, end as int));
        let mut i: usize = start as usize;
        while i < end as usize
            invariant
                start <= i <= end <= log@.len(),
                out@.len() == i - start,
                forall|k: int| 0 <= k < out@.len() ==> *(#[trigger] out@[k]) == log@[start + k],
            decreases end - i,
        {
            out.push(&log[i]);
            i += 1;
        }
        out
    }
}

/// The pages of a history, read in order, give the history back: every record
/// once, in the order in which it was appended.
pub proof fn lemma_pages_reproduce_history(history: Seq<HistoryRecord>, page_size: nat)
    requires
        page_size > 0,
    ensures
        concat_pages(history, page_size, page_count(history.len(), page_size)) == history,
{
    let count = page_count(history.len(), page_size);
    lemma_concat_pages_prefix(history, page_size, count);
    assert(count * page_size >= history.len()) by (nonlinear_arith)
        requires
            page_size > 0,
            count == ((history.len() + page_size - 1) / (page_size as int)) as nat,
    ;
    assert(history.subrange(0, history.len() as int) == history);
}

/// The first `count` pages, one after the other, are the first
/// `count * page_size` records, or all of them where there are fewer.
pub proof fn lemma_concat_pages_prefix(history: Seq<HistoryRecord>, page_size: nat, count: nat)
    ensures
        concat_pages(history, page_size, count) == history.subrange(
            0,
            if count * page_size >= history.len() {
                history.len() as int
            } else {
                (count * page_size) as int
            },
        ),
    decreases count,
{
    if count == 0 {
        assert(0 * page_size == 0) by (nonlinear_arith);
        assert(history.subrange(0, 0) =~= Seq::<HistoryRecord>::empty());
    } else {
        let prev = (count - 1) as nat;
        lemma_concat_pages_prefix(history, page_size, prev);
        assert(count * page_size == prev * page_size + page_size) by (nonlinear_arith)
            requires
                prev == count - 1,
        ;
        let start = page_start(prev, page_size);
        assert(start == prev * page_size);
        let upto: int = if count * page_size >= history.len() {
            history.len() as int
        } else {
            (count * page_size) as int
        };
        assert(concat_pages(history, page_size, count) =~= history.subrange(0, upto));
    }
}

} // verus!
