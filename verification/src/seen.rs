//! The set of message identifiers that have already been handed to the
//! notification path.

use std::collections::HashSet;
use vstd::prelude::*;
use vstd::std_specs::hash::*;

verus! {

broadcast use group_hash_axioms;

/// In-memory record of the identifiers already notified. It only grows.
pub struct SeenSet {
    ids: HashSet<u32>,
}

impl View for SeenSet {
    type V = Set<u32>;

    closed spec fn view(&self) -> Set<u32> {
        self.ids@
    }
}

impl SeenSet {
    /// An empty record.
    pub fn new() -> (s: SeenSet)
        ensures
            s@ == Set::<u32>::empty(),
    {
        SeenSet { ids: HashSet::new() }
    }

    /// Whether `id` has been marked.
    pub fn contains(&self, id: u32) -> (b: bool)
        ensures
            b == self@.contains(id),
    {
        self.ids.contains(&id)
    }

    /// Marks `id`; everything marked before stays marked.
    pub fn mark(&mut self, id: u32)
        ensures
            final(self)@ == old(self)@.insert(id),
    {
        self.ids.insert(id);
    }

    /// Marks every identifier of `ids`.
    pub fn mark_all(&mut self, ids: &Vec<u32>)
        ensures
            final(self)@ == old(self)@.union(ids@.to_set()),
    {
        let mut i: usize = 0;
        while i < ids.len()
            invariant
                i <= ids.len(),
                self@ == old(self)@.union(ids@.take(i as int).to_set()),
            decreases ids.len() - i,
        {
            let ghost before = self@;
            self.mark(ids[i]);
            proof {
                let head = ids@.take(i as int);
                let next = ids@.take(i + 1);
                let id = ids@[i as int];
                assert(next =~= head.push(id));
                assert forall|m: u32| next.contains(m) <==> (head.contains(m) || m == id) by {
                    if head.contains(m) {
                        let j = choose|j: int| 0 <= j < head.len() && head[j] == m;
                        assert(next[j] == m);
                    }
                    if m == id {
                        assert(next[i as int] == m);
                    }
                }
                assert(self@ =~= old(self)@.union(next.to_set()));
            }
            i += 1;
        }
        assert(ids@.take(ids.len() as int) =~= ids@);
    }
}

} // verus!
