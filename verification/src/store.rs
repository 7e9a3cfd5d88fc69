//! The shared, append-only sequence of completion messages.
//!
//! The store is the one piece of state shared between batch runs and the
//! rendering loop. Batches append whole groups of entries at once; the
//! renderer takes snapshots. Entries are never removed or reordered, so the
//! stored sequence only grows.

use vstd::prelude::*;

verus! {

/// The view of a sequence of strings: each entry as its character sequence.
pub open spec fn views_of(entries: Seq<String>) -> Seq<Seq<char>> {
    entries.map_values(|s: String| s@)
}

/// An ordered, append-only collection of completion messages.
///
/// Mutation is append-only: entries are never removed or reordered, so the
/// abstract sequence only ever grows by whole batches at its end.
pub struct ResultStore {
    entries: Vec<String>,
}

impl View for ResultStore {
    type V = Seq<Seq<char>>;

    closed spec fn view(&self) -> Seq<Seq<char>> {
        views_of(self.entries@)
    }
}

impl ResultStore {
    /// Creates an empty store.
    pub fn new() -> (store: Self)
        ensures
            store@ == Seq::<Seq<char>>::empty(),
    {
        let store = ResultStore { entries: Vec::new() };
        proof {
            assert(store@ =~= Seq::<Seq<char>>::empty());
        }
        store
    }

    /// The number of entries recorded so far.
    pub fn len(&self) -> (n: usize)
        ensures
            n == self@.len(),
    {
        self.entries.len()
    }

    /// Appends a whole batch of entries at the end of the store, in the
    /// batch's own order. Nothing already stored moves, so the store only
    /// grows: one call adds exactly the batch, contiguously.
    pub fn append(&mut self, batch: Vec<String>)
        ensures
            final(self)@ == old(self)@ + views_of(batch@),
            final(self)@.len() == old(self)@.len() + batch@.len(),
            old(self)@.is_prefix_of(final(self)@),
    {
        let ghost old_entries = self.entries@;
        let ghost batch_view = batch@;
        let mut incoming = batch;
        self.entries.append(&mut incoming);
        proof {
            assert(self.entries@ == old_entries + batch_view);
            assert(self@ =~= views_of(old_entries) + views_of(batch_view));
        }
    }

    /// Returns a copy of the full ordered sequence of entries, for rendering.
    pub fn snapshot(&self) -> (r: Vec<String>)
        ensures
            views_of(r@) == self@,
    {
        let mut r: Vec<String> = Vec::new();
        let mut i: usize = 0;
        while i < self.entries.len()
            invariant
                i <= self.entries.len(),
                r@ == self.entries@.subrange(0, i as int),
            decreases self.entries.len() - i,
        {
            r.push(self.entries[i].clone());
            proof {
                assert(r@ =~= self.entries@.subrange(0, i + 1));
            }
            i = i + 1;
        }
        proof {
            assert(r@ =~= self.entries@);
        }
        r
    }
}

} // verus!
