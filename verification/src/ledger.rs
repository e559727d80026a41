//! What each contributor has on record.
//!
//! The ledger is a list of entries, one per contributor at most. A contributor
//! without an entry has nothing on record.

use vstd::prelude::*;
use crate::identity::Identity;

verus! {

/// One contributor and the amount they have deposited so far.
#[derive(Clone, Copy, Debug)]
pub struct Entry {
    pub who: Identity,
    pub amount: u128,
}

/// No contributor has two entries.
pub open spec fn distinct(s: Seq<Entry>) -> bool {
    forall|i: int, j: int|
        0 <= i < j < s.len() ==> (#[trigger] s[i]).who@ != (#[trigger] s[j]).who@
}

/// Some entry belongs to `who`.
pub open spec fn names(s: Seq<Entry>, who: Seq<u8>) -> bool {
    exists|i: int| 0 <= i < s.len() && (#[trigger] s[i]).who@ == who
}

/// The place of an entry of `who`, where there is one.
pub open spec fn slot_of(s: Seq<Entry>, who: Seq<u8>) -> int {
    choose|i: int| 0 <= i < s.len() && (#[trigger] s[i]).who@ == who
}

/// The amount on record for `who`: that of their entry, or zero.
pub open spec fn recorded_in(s: Seq<Entry>, who: Seq<u8>) -> nat {
    if names(s, who) {
        s[slot_of(s, who)].amount as nat
    } else {
        0
    }
}

/// The sum of all amounts on record.
pub open spec fn total_of(s: Seq<Entry>) -> nat
    decreases s.len(),
{
    if s.len() == 0 {
        0
    } else {
        total_of(s.drop_last()) + s.last().amount as nat
    }
}

/// Where entries are distinct, the entry at `i` is what is on record for its
/// contributor.
pub proof fn lemma_recorded_at(s: Seq<Entry>, i: int)
    requires
        distinct(s),
        0 <= i < s.len(),
    ensures
        names(s, s[i].who@),
        recorded_in(s, s[i].who@) == s[i].amount,
{
    let who = s[i].who@;
    assert(names(s, who));
    let k = slot_of(s, who);
    assert(0 <= k < s.len() && s[k].who@ == who);
    if k < i {
        assert(s[k].who@ != s[i].who@);
    } else if i < k {
        assert(s[i].who@ != s[k].who@);
    }
}

/// No entry is larger than the total.
pub proof fn lemma_total_covers_entry(s: Seq<Entry>, i: int)
    requires
        0 <= i < s.len(),
    ensures
        s[i].amount <= total_of(s),
    decreases s.len(),
{
    if i < s.len() - 1 {
        lemma_total_covers_entry(s.drop_last(), i);
    }
}

/// Replacing one entry changes the total by the difference of the amounts.
pub proof fn lemma_total_update(s: Seq<Entry>, i: int, e: Entry)
    requires
        0 <= i < s.len(),
    ensures
        total_of(s.update(i, e)) == total_of(s) - s[i].amount + e.amount,
    decreases s.len(),
{
    let t = s.update(i, e);
    if i == s.len() - 1 {
        assert(t.drop_last() =~= s.drop_last());
    } else {
        assert(t.drop_last() =~= s.drop_last().update(i, e));
        lemma_total_update(s.drop_last(), i, e);
    }
}

/// Removing one entry lowers the total by its amount.
pub proof fn lemma_total_remove(s: Seq<Entry>, i: int)
    requires
        0 <= i < s.len(),
    ensures
        total_of(s.remove(i)) == total_of(s) - s[i].amount,
    decreases s.len(),
{
    let t = s.remove(i);
    if i == s.len() - 1 {
        assert(t =~= s.drop_last());
    } else {
        assert(t.drop_last() =~= s.drop_last().remove(i));
        assert(t.last() == s.last());
        lemma_total_remove(s.drop_last(), i);
    }
}

/// The amounts that the contributors of a campaign have deposited.
#[derive(Debug)]
pub struct ContributorLedger {
    entries: Vec<Entry>,
}

impl ContributorLedger {
    /// The ledger's invariant: one entry per contributor at most.
    pub closed spec fn wf(&self) -> bool {
        distinct(self.entries@)
    }

    /// The amount on record for `who`; zero for a contributor never seen.
    pub closed spec fn recorded(&self, who: Seq<u8>) -> nat {
        recorded_in(self.entries@, who)
    }

    /// The sum of what is on record for all contributors.
    pub closed spec fn total(&self) -> nat {
        total_of(self.entries@)
    }

    /// No contributor has more on record than the sum of all records.
    pub proof fn lemma_recorded_within_total(&self, who: Seq<u8>)
        requires
            self.wf(),
        ensures
            self.recorded(who) <= self.total(),
    {
        if names(self.entries@, who) {
            lemma_total_covers_entry(self.entries@, slot_of(self.entries@, who));
        }
    }

    /// A ledger with nothing on record.
    pub fn new() -> (ledger: ContributorLedger)
        ensures
            ledger.wf(),
            ledger.total() == 0,
            forall|who: Seq<u8>| #[trigger] ledger.recorded(who) == 0,
    {
        ContributorLedger { entries: Vec::new() }
    }

    fn position(&self, who: &Identity) -> (r: Option<usize>)
        ensures
            match r {
                Some(i) => i < self.entries@.len() && self.entries@[i as int].who@ == who@,
                None => !names(self.entries@, who@),
            },
    {
        let mut i: usize = 0;
        while i < self.entries.len()
            invariant
                i <= self.entries@.len(),
                forall|j: int| 0 <= j < i ==> (#[trigger] self.entries@[j]).who@ != who@,
            decreases self.entries@.len() - i,
        {
            if self.entries[i].who.same(who) {
                return Some(i);
            }
            i += 1;
        }
        None
    }

    /// The amount on record for `who`.
    pub fn get(&self, who: &Identity) -> (amount: u128)
        requires
            self.wf(),
        ensures
            amount == self.recorded(who@),
    {
        match self.position(who) {
            Some(i) => {
                proof {
                    lemma_recorded_at(self.entries@, i as int);
                }
                self.entries[i].amount
            },
            None => 0,
        }
    }

    /// Puts `amount` on record for `who`, in place of what was there.
    pub fn set(&mut self, who: &Identity, amount: u128)
        requires
            old(self).wf(),
        ensures
            final(self).wf(),
            final(self).recorded(who@) == amount,
            forall|other: Seq<u8>|
                other != who@ ==> #[trigger] final(self).recorded(other) == old(self).recorded(
                    other,
                ),
            final(self).total() == old(self).total() - old(self).recorded(who@) + amount,
    {
        let ghost before = self.entries@;
        let entry = Entry { who: *who, amount };
        match self.position(who) {
            Some(i) => {
                self.entries.set(i, entry);
                proof {
                    let after = self.entries@;
                    assert(after == before.update(i as int, entry));
                    lemma_recorded_at(before, i as int);
                    lemma_total_update(before, i as int, entry);
                    assert(distinct(after)) by {
                        assert forall|a: int, b: int| 0 <= a < b < after.len() implies (
                        #[trigger] after[a]).who@ != (#[trigger] after[b]).who@ by {
                            assert(before[a].who@ != before[b].who@);
                        }
                    }
                    lemma_recorded_at(after, i as int);
                    assert forall|other: Seq<u8>| other != who@ implies recorded_in(after, other)
                        == recorded_in(before, other) by {
                        lemma_same_elsewhere(before, after, i as int, other);
                    }
                }
            },
            None => {
                self.entries.push(entry);
                proof {
                    let after = self.entries@;
                    assert(after == before.push(entry));
                    assert(after.drop_last() =~= before);
                    assert(distinct(after)) by {
                        assert forall|a: int, b: int| 0 <= a < b < after.len() implies (
                        #[trigger] after[a]).who@ != (#[trigger] after[b]).who@ by {
                            if b < before.len() {
                                assert(before[a].who@ != before[b].who@);
                            } else {
                                assert(before[a].who@ != who@);
                            }
                        }
                    }
                    lemma_recorded_at(after, before.len() as int);
                    assert forall|other: Seq<u8>| other != who@ implies recorded_in(after, other)
                        == recorded_in(before, other) by {
                        lemma_same_without_last(after, other);
                    }
                }
            },
        }
    }

    /// Deletes the entry of `who`, if there is one: nothing is on record for
    /// them afterwards.
    pub fn clear(&mut self, who: &Identity)
        requires
            old(self).wf(),
        ensures
            final(self).wf(),
            final(self).recorded(who@) == 0,
            forall|other: Seq<u8>|
                other != who@ ==> #[trigger] final(self).recorded(other) == old(self).recorded(
                    other,
                ),
            final(self).total() == old(self).total() - old(self).recorded(who@),
    {
        let ghost before = self.entries@;
        match self.position(who) {
            Some(i) => {
                self.entries.remove(i);
                proof {
                    let after = self.entries@;
                    assert(after == before.remove(i as int));
                    lemma_recorded_at(before, i as int);
                    lemma_total_remove(before, i as int);
                    lemma_remove_entry(before, i as int);
                    assert forall|other: Seq<u8>| other != who@ implies recorded_in(after, other)
                        == recorded_in(before, other) by {
                        lemma_same_after_remove(before, i as int, other);
                    }
                }
            },
            None => {},
        }
    }
}

/// Replacing the entry at `i` by one of the same contributor leaves what is on
/// record for everyone else.
pub proof fn lemma_same_elsewhere(s: Seq<Entry>, t: Seq<Entry>, i: int, other: Seq<u8>)
    requires
        distinct(s),
        distinct(t),
        0 <= i < s.len(),
        t == s.update(i, t[i]),
        t[i].who@ == s[i].who@,
        other != s[i].who@,
    ensures
        recorded_in(t, other) == recorded_in(s, other),
{
    if names(s, other) {
        let k = slot_of(s, other);
        assert(t[k] == s[k]);
        lemma_recorded_at(s, k);
        lemma_recorded_at(t, k);
    } else if names(t, other) {
        let k = slot_of(t, other);
        assert(s[k] == t[k]);
    }
}

/// The last entry does not change what is on record for other contributors.
pub proof fn lemma_same_without_last(t: Seq<Entry>, other: Seq<u8>)
    requires
        distinct(t),
        t.len() > 0,
        other != t.last().who@,
    ensures
        recorded_in(t, other) == recorded_in(t.drop_last(), other),
{
    let s = t.drop_last();
    assert(distinct(s)) by {
        assert forall|a: int, b: int| 0 <= a < b < s.len() implies (#[trigger] s[a]).who@ != (
        #[trigger] s[b]).who@ by {
            assert(t[a].who@ != t[b].who@);
        }
    }
    if names(s, other) {
        let k = slot_of(s, other);
        assert(t[k] == s[k]);
        lemma_recorded_at(s, k);
        lemma_recorded_at(t, k);
    } else if names(t, other) {
        let k = slot_of(t, other);
        assert(s[k] == t[k]);
    }
}

/// Removing the entry at `i` keeps the entries distinct and leaves nothing on
/// record for its contributor.
pub proof fn lemma_remove_entry(s: Seq<Entry>, i: int)
    requires
        distinct(s),
        0 <= i < s.len(),
    ensures
        distinct(s.remove(i)),
        !names(s.remove(i), s[i].who@),
        recorded_in(s.remove(i), s[i].who@) == 0,
{
    let t = s.remove(i);
    assert forall|a: int, b: int| 0 <= a < b < t.len() implies (#[trigger] t[a]).who@ != (
    #[trigger] t[b]).who@ by {
        let a0 = if a < i { a } else { a + 1 };
        let b0 = if b < i { b } else { b + 1 };
        assert(t[a] == s[a0] && t[b] == s[b0]);
        assert(s[a0].who@ != s[b0].who@);
    }
    if names(t, s[i].who@) {
        let k = slot_of(t, s[i].who@);
        let k0 = if k < i { k } else { k + 1 };
        assert(t[k] == s[k0]);
        if k0 < i {
            assert(s[k0].who@ != s[i].who@);
        } else {
            assert(s[i].who@ != s[k0].who@);
        }
    }
}

/// Removing the entry at `i` leaves what is on record for everyone else.
pub proof fn lemma_same_after_remove(s: Seq<Entry>, i: int, other: Seq<u8>)
    requires
        distinct(s),
        0 <= i < s.len(),
        other != s[i].who@,
    ensures
        recorded_in(s.remove(i), other) == recorded_in(s, other),
{
    let t = s.remove(i);
    lemma_remove_entry(s, i);
    if names(s, other) {
        let k = slot_of(s, other);
        let k1 = if k < i { k } else { k - 1 };
        assert(t[k1] == s[k]);
        lemma_recorded_at(s, k);
        lemma_recorded_at(t, k1);
    } else if names(t, other) {
        let k = slot_of(t, other);
        let k0 = if k < i { k } else { k + 1 };
        assert(t[k] == s[k0]);
    }
}

} // verus!
