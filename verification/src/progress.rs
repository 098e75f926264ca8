//! The progress ledger: the set of chunk ids that have been fetched and
//! written. It only ever grows while a download runs.

use std::collections::HashSet;
use vstd::prelude::*;
use vstd::std_specs::hash::*;
use vstd::std_specs::iter::IteratorSpec;

verus! {

/// The ids of the chunks that are complete.
pub struct ProgressLedger {
    done: HashSet<u64>,
}

impl View for ProgressLedger {
    type V = Set<u64>;

    closed spec fn view(&self) -> Set<u64> {
        self.done@
    }
}

impl ProgressLedger {
    /// A ledger with no completed chunk.
    pub fn new() -> (ledger: Self)
        ensures
            ledger@ == Set::<u64>::empty(),
    {
        ProgressLedger { done: HashSet::new() }
    }

    /// The ledger that holds exactly the given ids; repeated ids count once.
    pub fn from_ids(ids: &[u64]) -> (ledger: Self)
        ensures
            ledger@ == ids@.to_set(),
    {
        broadcast use group_hash_axioms;

        let mut done: HashSet<u64> = HashSet::new();
        let mut i: usize = 0;
        while i < ids.len()
            invariant
                i <= ids.len(),
                done@ == ids@.take(i as int).to_set(),
            decreases ids.len() - i,
        {
            done.insert(ids[i]);
            proof {
                let before = ids@.take(i as int);
                let after = ids@.take(i + 1);
                assert(after.to_set() =~= before.to_set().insert(ids@[i as int])) by {
                    assert forall|x: u64| after.to_set().contains(x) implies before.to_set().insert(
                        ids@[i as int],
                    ).contains(x) by {
                        let k = choose|k: int| 0 <= k < after.len() && after[k] == x;
                        if k < i {
                            assert(before[k] == x);
                        }
                    }
                    assert forall|x: u64|
                        before.to_set().insert(ids@[i as int]).contains(x) implies after.to_set().contains(
                        x,
                    ) by {
                        if x == ids@[i as int] {
                            assert(after[i as int] == x);
                        } else {
                            let k = choose|k: int| 0 <= k < before.len() && before[k] == x;
                            assert(after[k] == x);
                        }
                    }
                }
            }
            i += 1;
        }
        assert(ids@.take(ids.len() as int) == ids@);
        ProgressLedger { done }
    }

    /// The ledger to resume from. `stored` is what the progress file held,
    /// or `None` where the file was missing or could not be read: a ledger
    /// that cannot be read counts as empty.
    pub fn load(stored: Option<&[u64]>) -> (ledger: Self)
        ensures
            ledger@ == match stored {
                Some(ids) => ids@.to_set(),
                None => Set::<u64>::empty(),
            },
    {
        match stored {
            Some(ids) => Self::from_ids(ids),
            None => Self::new(),
        }
    }

    /// Marks chunk `id` as complete. Returns whether it was not yet marked.
    pub fn insert(&mut self, id: u64) -> (fresh: bool)
        ensures
            final(self)@ == old(self)@.insert(id),
            fresh == !old(self)@.contains(id),
    {
        broadcast use group_hash_axioms;

        self.done.insert(id)
    }

    /// Whether chunk `id` is complete.
    pub fn contains(&self, id: u64) -> (held: bool)
        ensures
            held == self@.contains(id),
    {
        broadcast use group_hash_axioms;

        self.done.contains(&id)
    }

    /// A ledger holds finitely many ids.
    pub proof fn lemma_finite(&self)
        ensures
            self@.finite(),
    {
        broadcast use group_hash_axioms;

        let keys = self.done.iter().remaining().unref();
        vstd::seq_lib::seq_to_set_is_finite(keys);
    }

    /// The number of complete chunks.
    pub fn len(&self) -> (n: usize)
        ensures
            n == self@.len(),
    {
        broadcast use group_hash_axioms;

        self.done.len()
    }

    /// Whether no chunk is complete.
    pub fn is_empty(&self) -> (empty: bool)
        ensures
            empty == self@.is_empty(),
    {
        self.done.is_empty()
    }

    /// The completed ids, each once, as they are written to the progress
    /// file. Their order is not fixed.
    pub fn ids(&self) -> (ids: Vec<u64>)
        ensures
            ids@.to_set() == self@,
            ids@.no_duplicates(),
            ids@.len() == self@.len(),
    {
        broadcast use group_hash_axioms;

        let ghost keys: Seq<u64> = self.done.iter().remaining().unref();
        let mut out: Vec<u64> = Vec::new();
        for id in it: self.done.iter()
            invariant
                it.seq().unref() == keys,
                out@ == keys.take(it.index() as int),
        {
            out.push(*id);
        }
        proof {
            assert(out@ == keys);
            assert(keys.no_duplicates()) by {
                let refs = self.done.iter().remaining();
                assert forall|i: int, j: int| 0 <= i < keys.len() && 0 <= j < keys.len() && i != j implies keys[i] != keys[j] by {
                    assert(refs[i] != refs[j]);
                }
            }
        }
        out
    }
}

} // verus!
