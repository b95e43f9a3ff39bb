//! A fixed-capacity container that retains the largest of an unbounded
//! stream of entries.
//!
//! The selector owns at most `capacity` entries, kept sorted non-increasing
//! by size. After any sequence of pushes it holds exactly
//! `min(total pushed, capacity)` entries, and every retained entry's size is
//! at least the size of every entry that was pushed and evicted. The
//! tie-break between entries of equal size is deterministic but otherwise
//! unspecified: a new entry is placed after retained entries of equal size,
//! and the entry in the last position is the one evicted.

use vstd::prelude::*;
use vstd::multiset::Multiset;
use crate::disk_scanner::ScanResult;

verus! {

/// The entries of `s` are sorted non-increasing by size.
pub open spec fn sorted_desc(s: Seq<ScanResult>) -> bool {
    forall|i: int, j: int| 0 <= i <= j < s.len() ==> s[i].size >= s[j].size
}

/// Every entry of `s` has size at least `bound`.
pub open spec fn all_at_least(s: Seq<ScanResult>, bound: u64) -> bool {
    forall|i: int| 0 <= i < s.len() ==> s[i].size >= bound
}

/// Retains the `capacity` largest entries pushed so far.
pub struct BoundedTopSelector {
    capacity: usize,
    items: Vec<ScanResult>,
    history: Ghost<Seq<ScanResult>>,
}

impl View for BoundedTopSelector {
    type V = Seq<ScanResult>;

    /// The retained entries, largest first.
    closed spec fn view(&self) -> Seq<ScanResult> {
        self.items@
    }
}

impl BoundedTopSelector {
    /// The fixed capacity chosen at construction.
    pub closed spec fn capacity_spec(self) -> int {
        self.capacity as int
    }

    /// Everything pushed so far, in push order.
    pub closed spec fn history(self) -> Seq<ScanResult> {
        self.history@
    }

    /// The entries pushed but no longer retained, as a multiset.
    pub open spec fn evicted(self) -> Multiset<ScanResult> {
        self.history().to_multiset().sub(self@.to_multiset())
    }

    /// Every evicted entry's size is at most every retained entry's size.
    pub open spec fn eviction_sound(self) -> bool {
        forall|e: ScanResult| #[trigger] self.evicted().count(e) > 0 ==> all_at_least(self@, e.size)
    }

    /// The selector's invariant: established by `new`, preserved by `push`.
    pub closed spec fn wf(self) -> bool {
        &&& self.capacity >= 1
        &&& sorted_desc(self.items@)
        &&& self.history@.len() <= self.capacity_spec() ==> self.items@.to_multiset()
            == self.history@.to_multiset()
        &&& self.history@.len() <= self.capacity_spec() ==> self.items@.len() == self.history@.len()
        &&& self.history@.len() > self.capacity_spec() ==> self.items@.len() == self.capacity_spec()
        &&& self.items@.to_multiset().subset_of(self.history@.to_multiset())
        &&& self.eviction_sound()
    }

    /// An empty selector with the given positive capacity.
    pub fn new(capacity: usize) -> (r: Self)
        requires
            capacity >= 1,
        ensures
            r.wf(),
            r.capacity_spec() == capacity as int,
            r.history() == Seq::<ScanResult>::empty(),
            r@ == Seq::<ScanResult>::empty(),
    {
        let r = BoundedTopSelector { capacity, items: Vec::new(), history: Ghost(Seq::empty()) };
        proof {
            broadcast use vstd::seq_lib::group_to_multiset_ensures;
            broadcast use vstd::multiset::group_multiset_axioms;

            lemma_empty_to_multiset(r.items@);
            assert(r.items@ =~= Seq::<ScanResult>::empty());
            assert(r.history@ =~= Seq::<ScanResult>::empty());
        }
        r
    }

    /// Inserts `e`; if the selector then exceeds its capacity, evicts one
    /// entry of minimum size.
    pub fn push(&mut self, e: ScanResult)
        requires
            old(self).wf(),
        ensures
            final(self).wf(),
            final(self).capacity_spec() == old(self).capacity_spec(),
            final(self).history() == old(self).history().push(e),
    {
        let mut idx: usize = 0;
        while idx < self.items.len() && self.items[idx].size >= e.size
            invariant
                *self == *old(self),
                idx <= self.items@.len(),
                forall|k: int| 0 <= k < idx ==> self.items@[k].size >= e.size,
            decreases self.items@.len() - idx,
        {
            idx += 1;
        }
        let ghost prev = self.items@;
        assert(idx < prev.len() ==> prev[idx as int].size < e.size);

        self.items.insert(idx, e);
        proof {
            self.history@ = self.history@.push(e);
        }
        let ghost ins = self.items@;

        proof {
            broadcast use vstd::seq_lib::group_to_multiset_ensures;
            broadcast use vstd::multiset::group_multiset_axioms;

            prev.insert_ensures(idx as int, e);
            lemma_insert_to_multiset(prev, idx as int, e);
            // The inserted entry sits between larger-or-equal entries and
            // strictly smaller ones, so order is preserved.
            assert forall|i: int, j: int| 0 <= i <= j < ins.len() implies ins[i].size
                >= ins[j].size by {
                if i < idx && j < idx {
                    assert(ins[i] == prev[i] && ins[j] == prev[j]);
                } else if i < idx && j == idx {
                    assert(ins[i] == prev[i]);
                } else if i < idx && j > idx {
                    assert(ins[i] == prev[i] && ins[j] == prev[j - 1]);
                    assert(prev[i].size >= e.size);
                    assert(prev[j - 1].size <= prev[idx as int].size);
                } else if i == idx && j > idx {
                    assert(ins[j] == prev[j - 1]);
                    assert(prev[j - 1].size <= prev[idx as int].size);
                } else if i > idx && j > idx {
                    assert(ins[i] == prev[i - 1] && ins[j] == prev[j - 1]);
                }
            }
            assert(sorted_desc(ins));
        }

        if self.items.len() > self.capacity {
            let ghost hist = self.history@;
            let dropped = self.items.pop();
            proof {
                broadcast use vstd::seq_lib::group_to_multiset_ensures;
                broadcast use vstd::multiset::group_multiset_axioms;

                let fin = self.items@;
                let m = ins.last();
                assert(fin =~= ins.remove(ins.len() - 1));
                assert(fin.to_multiset() =~= ins.to_multiset().remove(m));
                // Each remaining slot is unchanged by dropping the last one.
                assert(forall|i: int| 0 <= i < fin.len() ==> fin[i] == ins[i]);
                assert(sorted_desc(fin));
                // The dropped entry is a minimum of the inserted sequence.
                assert(forall|i: int| 0 <= i < ins.len() ==> ins[i].size >= m.size);

                let old_items = prev;
                let old_hist = old(self).history@;
                // Count bookkeeping: the new eviction multiset is the old one
                // plus one instance of the minimum that was just dropped.
                assert forall|x: ScanResult| #[trigger] self.evicted().count(x) > 0 implies all_at_least(
                    fin,
                    x.size,
                ) by {
                    assert(hist.to_multiset() =~= old_hist.to_multiset().insert(e));
                    assert(ins.to_multiset() =~= old_items.to_multiset().insert(e));
                    if x == m {
                        assert(all_at_least(fin, m.size));
                    } else {
                        // x was already evicted before this push.
                        assert(self.evicted().count(x) == hist.to_multiset().count(x)
                            - fin.to_multiset().count(x));
                        assert(old(self).evicted().count(x) > 0);
                        assert(all_at_least(old_items, x.size));
                        // Every remaining entry is an old entry or `e`, and
                        // `e`'s size is at least the dropped minimum's, which
                        // in turn bounds `x`.
                        assert forall|i: int| 0 <= i < fin.len() implies fin[i].size >= x.size by {
                            if i < idx {
                                assert(fin[i] == old_items[i]);
                            } else if i == idx {
                                // fin[idx] is `e` (when idx is not the dropped slot).
                                assert(idx < ins.len() - 1);
                                assert(m == old_items[old_items.len() - 1]);
                                assert(x.size <= m.size);
                                assert(ins[idx as int].size >= m.size);
                            } else {
                                assert(fin[i] == old_items[i - 1]);
                            }
                        }
                    }
                }
                assert(self.items@.to_multiset().subset_of(self.history@.to_multiset()));
            }
        } else {
            proof {
                broadcast use vstd::seq_lib::group_to_multiset_ensures;
                broadcast use vstd::multiset::group_multiset_axioms;

                let old_hist = old(self).history@;
                assert(self.history@.to_multiset() =~= old_hist.to_multiset().insert(e));
                assert(self.evicted() =~= old(self).evicted());
                assert forall|x: ScanResult| #[trigger] self.evicted().count(x) > 0 implies all_at_least(
                    self.items@,
                    x.size,
                ) by {
                    assert(old(self).evicted().count(x) > 0);
                    assert(all_at_least(prev, x.size));
                    assert forall|i: int| 0 <= i < self.items@.len() implies self.items@[i].size
                        >= x.size by {
                        if i < idx {
                            assert(ins[i] == prev[i]);
                        } else if i == idx {
                            // The new entry cannot be smaller than an evicted
                            // one: nothing was evicted unless the selector was
                            // already full, which contradicts this branch.
                            assert(old_hist.len() > old(self).capacity_spec() ==> prev.len()
                                == old(self).capacity_spec());
                            assert(prev.len() < old(self).capacity as int || ins.len()
                                <= old(self).capacity as int);
                        } else {
                            assert(ins[i] == prev[i - 1]);
                        }
                    }
                }
            }
        }
    }

    /// The number of retained entries.
    pub fn len(&self) -> (r: usize)
        ensures
            r == self@.len(),
    {
        self.items.len()
    }

    /// A fully materialized copy of the retained entries, largest first.
    /// It never aliases the live selector state, and the selector is not
    /// mutated, so querying twice without an intervening push returns equal
    /// sequences.
    pub fn snapshot(&self) -> (r: Vec<ScanResult>)
        ensures
            r@ == self@,
    {
        let mut r: Vec<ScanResult> = Vec::new();
        let mut i: usize = 0;
        while i < self.items.len()
            invariant
                i <= self.items@.len(),
                r@ =~= self.items@.subrange(0, i as int),
            decreases self.items@.len() - i,
        {
            let entry = ScanResult {
                name: self.items[i].name.clone(),
                path: self.items[i].path.clone(),
                size: self.items[i].size,
            };
            assert(entry == self.items@[i as int]);
            r.push(entry);
            assert(r@ =~= self.items@.subrange(0, i + 1));
            i += 1;
        }
        assert(r@ =~= self.items@);
        r
    }

    /// Retention law: with at most `capacity` entries pushed the selector
    /// holds all of them; with more it holds exactly `capacity`, and the
    /// size of every retained entry is at least the size of every entry
    /// pushed but not retained.
    pub proof fn lemma_retains_top_entries(self)
        requires
            self.wf(),
        ensures
            self.history().len() <= self.capacity_spec() ==> self@.to_multiset()
                == self.history().to_multiset(),
            self.history().len() > self.capacity_spec() ==> self@.len() == self.capacity_spec(),
            self@.to_multiset().subset_of(self.history().to_multiset()),
            forall|e: ScanResult| #[trigger] self.evicted().count(e) > 0 ==> all_at_least(self@, e.size),
    {
    }

    /// Provenance law: every retained entry is one of the pushed entries.
    pub proof fn lemma_retained_were_pushed(self)
        requires
            self.wf(),
        ensures
            forall|i: int| 0 <= i < self@.len() ==> self.history().contains(#[trigger] self@[i]),
    {
        broadcast use vstd::seq_lib::group_to_multiset_ensures;
        broadcast use vstd::multiset::group_multiset_axioms;

        assert forall|i: int| 0 <= i < self@.len() implies self.history().contains(self@[i]) by {
            assert(self@.contains(self@[i]));
            assert(self@.to_multiset().count(self@[i]) > 0);
            assert(self.history@.to_multiset().count(self@[i]) > 0);
        }
    }

    /// Order law: the retained entries are always sorted non-increasing by
    /// size, and never exceed the capacity in number.
    pub proof fn lemma_sorted_and_bounded(self)
        requires
            self.wf(),
        ensures
            sorted_desc(self@),
            self@.len() <= self.capacity_spec(),
    {
    }
}

/// An empty sequence converts to the empty multiset.
proof fn lemma_empty_to_multiset(s: Seq<ScanResult>)
    requires
        s.len() == 0,
    ensures
        s.to_multiset() == Multiset::<ScanResult>::empty(),
{
    broadcast use vstd::seq_lib::group_to_multiset_ensures;
    broadcast use vstd::multiset::group_multiset_axioms;

    assert forall|x: ScanResult| s.to_multiset().count(x) == Multiset::<ScanResult>::empty().count(
        x,
    ) by {
        if s.to_multiset().count(x) > 0 {
            assert(s.contains(x));
        }
    }
    assert(s.to_multiset() =~= Multiset::<ScanResult>::empty());
}

/// Inserting into a sequence inserts into its multiset.
proof fn lemma_insert_to_multiset(s: Seq<ScanResult>, i: int, x: ScanResult)
    requires
        0 <= i <= s.len(),
    ensures
        s.insert(i, x).to_multiset() == s.to_multiset().insert(x),
{
    broadcast use vstd::seq_lib::group_to_multiset_ensures;
    broadcast use vstd::multiset::group_multiset_axioms;

    let a = s.subrange(0, i);
    let b = s.subrange(i, s.len() as int);
    assert(s.insert(i, x) == a.push(x) + b);
    vstd::seq_lib::lemma_multiset_commutative(a.push(x), b);
    assert(s =~= a + b);
    vstd::seq_lib::lemma_multiset_commutative(a, b);
    assert(a.push(x).to_multiset() =~= a.to_multiset().insert(x));
    assert(s.insert(i, x).to_multiset() =~= s.to_multiset().insert(x));
}

} // verus!
