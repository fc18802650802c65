//! Step-function tables keyed by the block number at which a value takes effect.

use vstd::prelude::*;

verus! {

/// Keys strictly ascend, so each key occurs once.
pub open spec fn keys_ascend<V>(entries: Seq<(u64, V)>) -> bool {
    forall|i: int, j: int| 0 <= i < j < entries.len() ==> entries[i].0 < entries[j].0
}

/// Index `i` holds the greatest key that is at most `block`.
pub open spec fn is_governing_entry<V>(entries: Seq<(u64, V)>, i: int, block: u64) -> bool {
    &&& 0 <= i < entries.len()
    &&& entries[i].0 <= block
    &&& forall|j: int| 0 <= j < entries.len() && entries[j].0 <= block ==> entries[j].0 <= entries[i].0
}

/// Some key of the table is at most `block`.
pub open spec fn has_entry_at_or_below<V>(entries: Seq<(u64, V)>, block: u64) -> bool {
    exists|i: int| 0 <= i < entries.len() && entries[i].0 <= block
}

/// The value in effect at `block`: that of the greatest key at most `block`.
pub open spec fn value_at<V>(entries: Seq<(u64, V)>, block: u64) -> Option<V> {
    if has_entry_at_or_below(entries, block) {
        Some(entries[choose|i: int| is_governing_entry(entries, i, block)].1)
    } else {
        None
    }
}

/// A table from activation block to value, ordered by activation block.
#[derive(Debug)]
pub struct Schedule<V> {
    entries: Vec<(u64, V)>,
}

impl<V> View for Schedule<V> {
    type V = Seq<(u64, V)>;

    closed spec fn view(&self) -> Seq<(u64, V)> {
        self.entries@
    }
}

impl<V> Schedule<V> {
    #[verifier::type_invariant]
    spec fn inv(self) -> bool {
        keys_ascend(self.entries@)
    }
}

impl<V: Copy> Schedule<V> {
    /// An empty table.
    pub fn new() -> (r: Self)
        ensures
            r@.len() == 0,
    {
        Schedule { entries: Vec::new() }
    }

    /// Builds a table from entries given in ascending key order; `None` when
    /// the keys do not strictly ascend.
    pub fn from_entries(entries: Vec<(u64, V)>) -> (r: Option<Self>)
        ensures
            r is Some <==> keys_ascend(entries@),
            r matches Some(t) ==> t@ == entries@,
    {
        let n = entries.len();
        let mut i: usize = 1;
        while i < n
            invariant
                1 <= i,
                n == entries@.len(),
                forall|a: int, b: int| 0 <= a < b < i && b < n ==> entries@[a].0 < entries@[b].0,
            decreases n - i,
        {
            if entries[i - 1].0 >= entries[i].0 {
                return None;
            }
            proof {
                assert forall|a: int, b: int| 0 <= a < b < i + 1 && b < n implies entries@[a].0
                    < entries@[b].0 by {
                    if b == i as int && a < i - 1 {
                        assert(entries@[a].0 < entries@[i - 1].0);
                    }
                }
            }
            i = i + 1;
        }
        Some(Schedule { entries })
    }

    /// The entries, ascending by key.
    pub fn entries(&self) -> (r: &Vec<(u64, V)>)
        ensures
            r@ == self@,
            keys_ascend(self@),
    {
        proof {
            use_type_invariant(self);
        }
        &self.entries
    }

    /// The value of the greatest key that is at most `block`; `None` when every
    /// key is above `block`, which includes the empty table.
    pub fn lookup(&self, block: u64) -> (r: Option<V>)
        ensures
            r is Some <==> has_entry_at_or_below(self@, block),
            r matches Some(v) ==> exists|i: int|
                is_governing_entry(self@, i, block) && #[trigger] self@[i].1 == v,
            r == value_at(self@, block),
    {
        proof {
            use_type_invariant(self);
        }
        let n = self.entries.len();
        let mut found: Option<usize> = None;
        let mut i: usize = 0;
        while i < n && self.entries[i].0 <= block
            invariant
                i <= n,
                n == self@.len(),
                keys_ascend(self@),
                forall|j: int| 0 <= j < i ==> self@[j].0 <= block,
                found is None <==> i == 0,
                found matches Some(k) ==> k + 1 == i,
            decreases n - i,
        {
            found = Some(i);
            i = i + 1;
        }
        match found {
            None => {
                proof {
                    if has_entry_at_or_below(self@, block) {
                        let j = choose|j: int| 0 <= j < self@.len() && self@[j].0 <= block;
                        if j > 0 {
                            assert(self@[0].0 < self@[j].0);
                        }
                    }
                }
                None
            },
            Some(k) => {
                proof {
                    assert(is_governing_entry(self@, k as int, block)) by {
                        assert forall|j: int|
                            0 <= j < self@.len() && self@[j].0 <= block implies self@[j].0
                            <= self@[k as int].0 by {
                            if j > k {
                                assert(j >= i);
                                if j > i {
                                    assert(self@[i as int].0 < self@[j].0);
                                }
                            }
                        }
                    }
                    let c = choose|c: int| is_governing_entry(self@, c, block);
                    assert(c == k) by {
                        if c < k {
                            assert(self@[c].0 < self@[k as int].0);
                        } else if c > k {
                            assert(self@[k as int].0 < self@[c].0);
                        }
                    }
                }
                Some(self.entries[k].1)
            },
        }
    }
}

} // verus!
