//! What holds of the worker across envelopes, cycles and calls.
//!
//! The functions of the worker state what one call does. The lemmas here draw
//! the consequences: which envelopes a batch holds and in what order, that an
//! awaited capture never joins one, and that a queue drained cycle by cycle
//! sends every envelope exactly once.

use crate::client::http::HttpMethod;
use crate::client::queue::{
    batchable_body, batched_bodies, cycle_len, individual_requests, is_batchable, left_by_cycle,
    lemma_partition_keeps_every_envelope, taken_by_cycle, QueuedRequest, POSTHOG_BATCH_LIMIT,
};
use serde_json::Value;
use vstd::prelude::*;

verus! {

/// The places in a buffer at which the envelopes stand that join the batch,
/// in ascending order.
pub open spec fn batch_positions<R>(buffer: Seq<QueuedRequest<R>>) -> Seq<int>
    decreases buffer.len(),
{
    if buffer.len() == 0 {
        Seq::empty()
    } else if is_batchable(buffer.last()) {
        batch_positions(buffer.drop_last()).push(buffer.len() - 1)
    } else {
        batch_positions(buffer.drop_last())
    }
}

/// The event list of a batch is the buffer's fire-and-forget capture events
/// and nothing else, in arrival order: the k-th body of the batch is the body
/// of the envelope at the k-th batchable place, the places ascend strictly,
/// so none is used twice, and every batchable place is among them.
pub proof fn lemma_batch_preserves_arrival_order<R>(buffer: Seq<QueuedRequest<R>>)
    ensures
        batch_positions(buffer).len() == batched_bodies(buffer).len(),
        forall|k: int|
            0 <= k < batch_positions(buffer).len() ==> 0 <= #[trigger] batch_positions(buffer)[k]
                < buffer.len(),
        forall|k: int|
            0 <= k < batch_positions(buffer).len() ==> batchable_body(
                buffer[#[trigger] batch_positions(buffer)[k]],
            ) == Some(batched_bodies(buffer)[k]),
        forall|j: int, k: int|
            0 <= j < k < batch_positions(buffer).len() ==> #[trigger] batch_positions(buffer)[j]
                < #[trigger] batch_positions(buffer)[k],
        forall|i: int|
            0 <= i < buffer.len() && is_batchable(#[trigger] buffer[i]) ==> batch_positions(
                buffer,
            ).contains(i),
    decreases buffer.len(),
{
    if buffer.len() > 0 {
        let front = buffer.drop_last();
        lemma_batch_preserves_arrival_order(front);
        let positions = batch_positions(buffer);
        assert forall|i: int| 0 <= i < buffer.len() && is_batchable(#[trigger] buffer[i]) implies positions.contains(
            i,
        ) by {
            if i < buffer.len() - 1 {
                assert(is_batchable(front[i]));
                let k = choose|k: int|
                    0 <= k < batch_positions(front).len() && batch_positions(front)[k] == i;
                assert(positions[k] == i);
            } else {
                assert(positions[positions.len() - 1] == i);
            }
        }
    }
}

/// A capture event whose caller waits for the response never joins a batch:
/// its place is not among the batchable ones, it is among the envelopes sent
/// alone, and the call it stands for is `POST capture`.
pub proof fn lemma_awaited_capture_is_sent_alone<R>(buffer: Seq<QueuedRequest<R>>, i: int)
    requires
        0 <= i < buffer.len(),
        buffer[i].request is CaptureEvent,
        buffer[i].response_tx is Some,
    ensures
        !batch_positions(buffer).contains(i),
        individual_requests(buffer).contains(buffer[i]),
        buffer[i].request.method() == HttpMethod::Post,
        buffer[i].request.endpoint() == "capture"@,
{
    lemma_batch_preserves_arrival_order(buffer);
    buffer.lemma_filter_contains(|envelope: QueuedRequest<R>| !is_batchable(envelope), i);
}

/// The envelopes sent alone while a queue is drained to the end, cycle after
/// cycle, in the order in which they go out.
pub open spec fn drained_individual<R>(available: Seq<QueuedRequest<R>>) -> Seq<QueuedRequest<R>>
    decreases available.len(),
{
    if available.len() == 0 {
        Seq::empty()
    } else {
        individual_requests(taken_by_cycle(available)) + drained_individual(
            left_by_cycle(available),
        )
    }
}

/// The event lists gathered while a queue is drained to the end, one list
/// for each cycle, in the order of the cycles.
pub open spec fn drained_batches<R>(available: Seq<QueuedRequest<R>>) -> Seq<Seq<Value>>
    decreases available.len(),
{
    if available.len() == 0 {
        Seq::empty()
    } else {
        seq![batched_bodies(taken_by_cycle(available))] + drained_batches(left_by_cycle(available))
    }
}

/// Batching two buffers one after the other gathers what batching their
/// concatenation gathers.
proof fn lemma_batched_bodies_concat<R>(front: Seq<QueuedRequest<R>>, back: Seq<QueuedRequest<R>>)
    ensures
        batched_bodies(front + back) == batched_bodies(front) + batched_bodies(back),
    decreases back.len(),
{
    if back.len() > 0 {
        assert((front + back).drop_last() =~= front + back.drop_last());
        lemma_batched_bodies_concat(front, back.drop_last());
    }
}

/// A cycle splits the queue in two without losing, doubling or reordering
/// anything: what it takes, followed by what it leaves, is the queue. It
/// takes at least one envelope from a queue that has one, and never more
/// than the limit.
pub proof fn lemma_cycle_splits_queue<R>(available: Seq<QueuedRequest<R>>)
    ensures
        taken_by_cycle(available) + left_by_cycle(available) == available,
        taken_by_cycle(available).len() == cycle_len(available.len()) <= POSTHOG_BATCH_LIMIT,
        available.len() > 0 ==> taken_by_cycle(available).len() > 0,
        left_by_cycle(available).len() == available.len() - cycle_len(available.len()),
{
}

/// Once no producer is left, the worker drains what remains and stops, and
/// on the way sends every envelope exactly once. Cycle after cycle, the
/// envelopes sent alone are the queue's non-batchable envelopes in arrival
/// order, none twice and none left out; the batches, laid end to end, hold
/// the bodies of the queue's batchable events in arrival order, none twice
/// and none left out; and no batch holds more events than the limit.
pub proof fn lemma_drain_sends_each_envelope_once<R>(available: Seq<QueuedRequest<R>>)
    ensures
        drained_individual(available) == individual_requests(available),
        drained_batches(available).flatten() == batched_bodies(available),
        forall|c: int|
            0 <= c < drained_batches(available).len() ==> (#[trigger] drained_batches(
                available,
            )[c]).len() <= POSTHOG_BATCH_LIMIT,
    decreases available.len(),
{
    if available.len() == 0 {
        reveal(Seq::filter);
    } else {
        let taken = taken_by_cycle(available);
        let left = left_by_cycle(available);
        lemma_cycle_splits_queue(available);
        lemma_drain_sends_each_envelope_once(left);
        Seq::filter_distributes_over_add(
            taken,
            left,
            |envelope: QueuedRequest<R>| !is_batchable(envelope),
        );
        lemma_batched_bodies_concat(taken, left);
        let batches = drained_batches(available);
        let first = seq![batched_bodies(taken)];
        vstd::seq_lib::lemma_flatten_concat(first, drained_batches(left));
        first.lemma_flatten_one_element();
        lemma_partition_keeps_every_envelope(taken);
        assert forall|c: int| 0 <= c < batches.len() implies (#[trigger] batches[c]).len()
            <= POSTHOG_BATCH_LIMIT by {
            if c > 0 {
                assert(batches[c] == drained_batches(left)[c - 1]);
            }
        }
    }
}

/// The number of cycles that it takes to empty a queue.
pub open spec fn cycles_to_drain<R>(available: Seq<QueuedRequest<R>>) -> nat
    decreases available.len(),
{
    if available.len() == 0 {
        0
    } else {
        1 + cycles_to_drain(left_by_cycle(available))
    }
}

/// Draining ends, and as early as the limit allows: a queue of `n` envelopes
/// is empty after the least number of cycles that, at the limit each, can
/// hold `n`. An empty queue takes none, so the worker stops at once.
pub proof fn lemma_drain_ends<R>(available: Seq<QueuedRequest<R>>)
    ensures
        available.len() <= POSTHOG_BATCH_LIMIT * cycles_to_drain(available),
        available.len() > 0 ==> POSTHOG_BATCH_LIMIT * (cycles_to_drain(available) - 1)
            < available.len(),
        drained_batches(available).len() == cycles_to_drain(available),
    decreases available.len(),
{
    if available.len() > 0 {
        lemma_cycle_splits_queue(available);
        lemma_drain_ends(left_by_cycle(available));
    }
}

} // verus!
