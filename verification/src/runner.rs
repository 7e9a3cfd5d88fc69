//! The batch runner: simulated task durations and their completion messages.
//!
//! One user action launches a batch of [`BATCH_SIZE`] concurrent simulated
//! tasks. Each task draws a random duration of one to four seconds, suspends
//! for that long, and yields a completion message. Once every task of the
//! batch is done, the batch's messages are appended to the store in
//! submission-slot order, never in completion order.

use crate::store::views_of;
use crate::store::ResultStore;
use rand::Rng;
use vstd::prelude::*;

verus! {

/// The number of simulated tasks one batch launches.
pub const BATCH_SIZE: usize = 5;

/// The digit character of a simulated duration, which is always one to four.
pub open spec fn digit_char(d: u64) -> char
    recommends
        1 <= d <= 4,
{
    if d == 1 {
        '1'
    } else if d == 2 {
        '2'
    } else if d == 3 {
        '3'
    } else {
        '4'
    }
}

/// The message one completed task yields for a duration of `d` seconds.
pub open spec fn completion_message_spec(d: u64) -> Seq<char>
    recommends
        1 <= d <= 4,
{
    "task completed in "@ + seq![digit_char(d)] + " seconds"@
}

/// The string literal holding the digit of `d`.
fn digit_str(d: u64) -> (r: &'static str)
    requires
        1 <= d <= 4,
    ensures
        r@ == seq![digit_char(d)],
{
    proof {
        reveal_strlit("1");
        reveal_strlit("2");
        reveal_strlit("3");
        reveal_strlit("4");
    }
    if d == 1 {
        "1"
    } else if d == 2 {
        "2"
    } else if d == 3 {
        "3"
    } else {
        "4"
    }
}

/// Builds the completion message for one task that took `d` seconds.
pub fn completion_message(d: u64) -> (r: String)
    requires
        1 <= d <= 4,
    ensures
        r@ == completion_message_spec(d),
{
    let mut r = String::from_str("task completed in ");
    r.append(digit_str(d));
    r.append(" seconds");
    r
}

/// The messages of a whole batch, one per duration, in slot order.
pub open spec fn batch_messages_spec(durations: Seq<u64>) -> Seq<Seq<char>> {
    durations.map_values(|d: u64| completion_message_spec(d))
}

/// Whether every duration of a batch lies in the simulated range of one to
/// four seconds.
pub open spec fn durations_in_range(durations: Seq<u64>) -> bool {
    forall|i: int| 0 <= i < durations.len() ==> 1 <= #[trigger] durations[i] <= 4
}

/// Relies on rand's `thread_rng` and `Rng::gen_range`: the latter returns a
/// value in the given half-open range, here one to five, so every outcome
/// lies between one and four seconds.
#[verifier::external_body]
fn random_duration() -> (d: u64)
    ensures
        1 <= d <= 4,
{
    rand::thread_rng().gen_range(1..5)
}

/// Draws the random durations of one batch: `BATCH_SIZE` independent values,
/// each between one and four seconds.
pub fn draw_batch_durations() -> (durations: Vec<u64>)
    ensures
        durations@.len() == BATCH_SIZE,
        durations_in_range(durations@),
{
    let mut durations: Vec<u64> = Vec::new();
    let mut i: usize = 0;
    while i < BATCH_SIZE
        invariant
            i <= BATCH_SIZE,
            durations@.len() == i,
            durations_in_range(durations@),
        decreases BATCH_SIZE - i,
    {
        durations.push(random_duration());
        i = i + 1;
    }
    durations
}

/// Builds the completion messages of one batch, in submission-slot order:
/// the message at each index reports the duration at the same index,
/// whatever order the tasks finished in.
pub fn batch_messages(durations: &Vec<u64>) -> (msgs: Vec<String>)
    requires
        durations_in_range(durations@),
    ensures
        views_of(msgs@) == batch_messages_spec(durations@),
{
    let mut msgs: Vec<String> = Vec::new();
    let mut i: usize = 0;
    while i < durations.len()
        invariant
            i <= durations@.len(),
            durations_in_range(durations@),
            views_of(msgs@) == batch_messages_spec(durations@.subrange(0, i as int)),
        decreases durations@.len() - i,
    {
        let ghost pre = msgs@;
        msgs.push(completion_message(durations[i]));
        proof {
            pre.lemma_push_map_commute(|s: String| s@, msgs@.last());
            durations@.subrange(0, i as int).lemma_push_map_commute(
                |d: u64| completion_message_spec(d),
                durations@[i as int],
            );
            assert(durations@.subrange(0, i + 1) =~= durations@.subrange(0, i as int).push(
                durations@[i as int],
            ));
            assert(views_of(msgs@) =~= batch_messages_spec(
                durations@.subrange(0, i + 1),
            ));
        }
        i = i + 1;
    }
    proof {
        assert(durations@.subrange(0, durations@.len() as int) =~= durations@);
    }
    msgs
}

/// Records one finished batch: appends the batch's completion messages to
/// the store, contiguously and in slot order. Exactly one append of one
/// message per duration happens, and nothing already stored changes.
pub fn record_batch(store: &mut ResultStore, durations: &Vec<u64>)
    requires
        durations_in_range(durations@),
    ensures
        final(store)@ == old(store)@ + batch_messages_spec(durations@),
        final(store)@.len() == old(store)@.len() + durations@.len(),
{
    let msgs = batch_messages(durations);
    store.append(msgs);
}

} // verus!
