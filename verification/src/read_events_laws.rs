//! What holds of every drain of a transport's events.

use vstd::prelude::*;
use crate::read_events::{
    advanced, drain_step, task_rank, AfterFlush, DrainActionView, DrainEvent, DrainPhase, DrainTask,
    DrainView, PendingReadEvent, QueueView, MAX_PENDING_READ_COALESCE_BYTES,
};

verus! {

/// The bytes of the data among the events, in order.
pub open spec fn bytes_of(events: Seq<PendingReadEvent>) -> Seq<u8>
    decreases events.len(),
{
    if events.len() == 0 {
        Seq::empty()
    } else {
        let rest = bytes_of(events.drop_first());
        match events[0] {
            PendingReadEvent::Data(data) => data@ + rest,
            _ => rest,
        }
    }
}

/// The bytes that came in and were not handed to the protocol.
pub open spec fn bytes_waiting(d: DrainView) -> Seq<u8> {
    let collected = match d.collected {
        Some(data) => data,
        None => Seq::empty(),
    };
    collected + bytes_of(d.taken) + bytes_of(d.queue.events)
}

/// What a drain can be in the middle of.
pub open spec fn is_sane(d: DrainView) -> bool {
    &&& d.collected is None
    &&& match d.phase {
        DrainPhase::Working => d.taken.len() == 0,
        DrainPhase::Delivering(after) => fits_front(d, after),
        _ => true,
    }
}

/// What the drain does next suits the event at the front.
pub open spec fn fits_front(d: DrainView, after: AfterFlush) -> bool {
    match after {
        AfterFlush::Refill => d.taken.len() == 0,
        AfterFlush::Collect => d.taken.len() > 0 && d.taken[0] is Data,
        AfterFlush::Handle => d.taken.len() > 0 && !(d.taken[0] is Data),
    }
}

pub open spec fn is_sane_task(d: DrainView, task: DrainTask) -> bool {
    match task {
        DrainTask::Refill => d.taken.len() == 0 && d.collected is None,
        DrainTask::Resume(after) => d.collected is None && fits_front(d, after),
        DrainTask::Flush(after) => fits_front(d, after) && (after is Collect ==> d.collected
            is Some),
        DrainTask::Collect => true,
    }
}

/// The bytes that an action hands over.
pub open spec fn handed_over(action: DrainActionView) -> Seq<u8> {
    match action {
        DrainActionView::Deliver(data) => data,
        _ => Seq::empty(),
    }
}

proof fn lemma_collecting_moves_bytes(d: DrainView)
    requires
        d.taken.len() > 0,
        d.taken[0] is Data,
    ensures
        bytes_waiting(d) == bytes_waiting(
            (DrainView {
                taken: d.taken.drop_first(),
                collected: Some(
                    match d.collected {
                        Some(sofar) => sofar + d.taken[0]->Data_0@,
                        None => d.taken[0]->Data_0@,
                    },
                ),
                ..d
            }),
        ),
{
    let after = DrainView {
        taken: d.taken.drop_first(),
        collected: Some(
            match d.collected {
                Some(sofar) => sofar + d.taken[0]->Data_0@,
                None => d.taken[0]->Data_0@,
            },
        ),
        ..d
    };
    assert(bytes_waiting(d) =~= bytes_waiting(after));
}

/// Where the transport is neither closing nor lost, the drain hands every byte over, once and in
/// order; it asks for anything else only when all data that came before it was handed over; and it
/// ends by itself only when nothing is left.
proof fn lemma_advance_keeps_the_stream(d: DrainView, task: DrainTask)
    requires
        is_sane_task(d, task),
    ensures
        ({
            let (after, action) = advanced(d, task, false);
            &&& is_sane(after)
            &&& bytes_waiting(d) == handed_over(action) + bytes_waiting(after)
            &&& action is Finish ==> after.queue.events.len() == 0 && after.taken.len() == 0
                && !after.queue.scheduled
        }),
    decreases
            d.queue.events.len() + d.taken.len(),
            if d.taken.len() == 0 {
                1nat
            } else {
                0nat
            },
            if d.collected is Some {
                1nat
            } else {
                0nat
            },
            task_rank(task),
{
    let (after, action) = advanced(d, task, false);
    match task {
        DrainTask::Refill => {
            if d.queue.events.len() > 0 {
                let next = DrainView {
                    queue: QueueView { events: Seq::empty(), ..d.queue },
                    taken: d.queue.events,
                    ..d
                };
                lemma_advance_keeps_the_stream(next, DrainTask::Collect);
                assert(bytes_waiting(d) =~= bytes_waiting(next));
            } else {
                assert(bytes_waiting(d) =~= handed_over(action) + bytes_waiting(after));
            }
        },
        DrainTask::Collect => {
            if d.taken.len() == 0 {
                lemma_advance_keeps_the_stream(d, DrainTask::Flush(AfterFlush::Refill));
            } else if let PendingReadEvent::Data(data) = d.taken[0] {
                lemma_collecting_moves_bytes(d);
                let rest = d.taken.drop_first();
                match d.collected {
                    None => lemma_advance_keeps_the_stream(
                        DrainView { taken: rest, collected: Some(data@), ..d },
                        DrainTask::Collect,
                    ),
                    Some(sofar) => if sofar.len() + data@.len() <= MAX_PENDING_READ_COALESCE_BYTES {
                        lemma_advance_keeps_the_stream(
                            DrainView { taken: rest, collected: Some(sofar + data@), ..d },
                            DrainTask::Collect,
                        );
                    } else {
                        lemma_advance_keeps_the_stream(d, DrainTask::Flush(AfterFlush::Collect));
                    },
                }
            } else {
                lemma_advance_keeps_the_stream(d, DrainTask::Flush(AfterFlush::Handle));
            }
        },
        DrainTask::Flush(then) => {
            if d.collected is None {
                lemma_advance_keeps_the_stream(d, DrainTask::Resume(then));
            } else {
                assert(bytes_waiting(d) =~= handed_over(action) + bytes_waiting(after));
            }
        },
        DrainTask::Resume(then) => {
            match then {
                AfterFlush::Refill => lemma_advance_keeps_the_stream(d, DrainTask::Refill),
                AfterFlush::Collect => {
                    lemma_collecting_moves_bytes(d);
                    lemma_advance_keeps_the_stream(
                        DrainView {
                            taken: d.taken.drop_first(),
                            collected: Some(d.taken[0]->Data_0@),
                            ..d
                        },
                        DrainTask::Collect,
                    );
                },
                AfterFlush::Handle => {
                    assert(bytes_waiting(d) =~= handed_over(action) + bytes_waiting(after));
                },
            }
        },
    }
}

/// The step goes on after an action that was done, or begins.
pub open spec fn goes_on(d: DrainView, event: DrainEvent) -> bool {
    match (d.phase, event) {
        (DrainPhase::Working, DrainEvent::Begin) => true,
        (DrainPhase::Delivering(_), DrainEvent::Done) => true,
        (DrainPhase::Notifying, DrainEvent::Done) => true,
        _ => false,
    }
}

/// A drain that goes on hands every byte of the stream over, once and in order; it tells the
/// protocol of an end, a loss or a pause only when all data that came before it was handed over;
/// and it ends only when nothing is left, with the loop free to be told of the next event.
pub proof fn law_drain_keeps_the_stream(d: DrainView, event: DrainEvent)
    requires
        is_sane(d),
        goes_on(d, event),
    ensures
        ({
            let (after, action) = drain_step(d, event, false);
            &&& is_sane(after)
            &&& bytes_waiting(d) == handed_over(action) + bytes_waiting(after)
            &&& action is Finish ==> after.queue.events.len() == 0 && after.taken.len() == 0
                && !after.queue.scheduled
        }),
{
    let working = DrainView { phase: DrainPhase::Working, ..d };
    assert(bytes_waiting(working) == bytes_waiting(d));
    match d.phase {
        DrainPhase::Working => lemma_advance_keeps_the_stream(d, DrainTask::Refill),
        DrainPhase::Delivering(then) => lemma_advance_keeps_the_stream(
            working,
            DrainTask::Resume(then),
        ),
        DrainPhase::Notifying => lemma_advance_keeps_the_stream(working, DrainTask::Collect),
        _ => {},
    }
}

/// The chunk is what one event among them brought.
pub open spec fn is_one_read(events: Seq<PendingReadEvent>, chunk: Seq<u8>) -> bool {
    exists|i: int|
        0 <= i < events.len() && (#[trigger] events[i]) is Data && events[i]->Data_0@ == chunk
}

/// The chunk is within the bound, or it is one read that waits, or what was collected before.
spec fn is_fair_chunk(d: DrainView, chunk: Seq<u8>) -> bool {
    ||| chunk.len() <= MAX_PENDING_READ_COALESCE_BYTES
    ||| d.collected == Some(chunk)
    ||| is_one_read(d.taken, chunk)
    ||| is_one_read(d.queue.events, chunk)
}

/// What is fair after the event at the front was collected was fair before.
proof fn lemma_fair_after_collecting(d: DrainView, collected: Seq<u8>, chunk: Seq<u8>)
    requires
        d.taken.len() > 0,
        d.taken[0] is Data,
        collected == d.taken[0]->Data_0@ || collected.len() <= MAX_PENDING_READ_COALESCE_BYTES,
        is_fair_chunk(
            DrainView { taken: d.taken.drop_first(), collected: Some(collected), ..d },
            chunk,
        ),
    ensures
        is_fair_chunk(d, chunk),
{
    let rest = d.taken.drop_first();
    if is_one_read(rest, chunk) {
        let i = choose|i: int|
            0 <= i < rest.len() && (#[trigger] rest[i]) is Data && rest[i]->Data_0@ == chunk;
        assert(d.taken[i + 1] == rest[i]);
    }
}

proof fn lemma_chunks_are_fair(d: DrainView, task: DrainTask, dropping: bool)
    ensures
        is_fair_chunk(d, handed_over(advanced(d, task, dropping).1)),
    decreases
            d.queue.events.len() + d.taken.len(),
            if d.taken.len() == 0 {
                1nat
            } else {
                0nat
            },
            if d.collected is Some {
                1nat
            } else {
                0nat
            },
            task_rank(task),
{
    let chunk = handed_over(advanced(d, task, dropping).1);
    let rest = d.taken.drop_first();
    match task {
        DrainTask::Refill => {
            if d.queue.events.len() > 0 && d.taken.len() == 0 {
                lemma_chunks_are_fair(
                    DrainView {
                        queue: QueueView { events: Seq::empty(), ..d.queue },
                        taken: d.queue.events,
                        ..d
                    },
                    DrainTask::Collect,
                    dropping,
                );
            }
        },
        DrainTask::Collect => {
            if d.taken.len() == 0 {
                lemma_chunks_are_fair(d, DrainTask::Flush(AfterFlush::Refill), dropping);
            } else if let PendingReadEvent::Data(data) = d.taken[0] {
                match d.collected {
                    None => {
                        lemma_chunks_are_fair(
                            DrainView { taken: rest, collected: Some(data@), ..d },
                            DrainTask::Collect,
                            dropping,
                        );
                        lemma_fair_after_collecting(d, data@, chunk);
                    },
                    Some(sofar) => if sofar.len() + data@.len() <= MAX_PENDING_READ_COALESCE_BYTES {
                        lemma_chunks_are_fair(
                            DrainView { taken: rest, collected: Some(sofar + data@), ..d },
                            DrainTask::Collect,
                            dropping,
                        );
                        lemma_fair_after_collecting(d, sofar + data@, chunk);
                    } else {
                        lemma_chunks_are_fair(d, DrainTask::Flush(AfterFlush::Collect), dropping);
                    },
                }
            } else {
                lemma_chunks_are_fair(d, DrainTask::Flush(AfterFlush::Handle), dropping);
            }
        },
        DrainTask::Flush(then) => {
            if d.collected is None {
                lemma_chunks_are_fair(d, DrainTask::Resume(then), dropping);
            } else if dropping {
                lemma_chunks_are_fair(
                    DrainView { collected: None, ..d },
                    DrainTask::Resume(then),
                    dropping,
                );
            }
        },
        DrainTask::Resume(then) => {
            match then {
                AfterFlush::Refill => lemma_chunks_are_fair(d, DrainTask::Refill, dropping),
                AfterFlush::Collect => {
                    if d.taken.len() > 0 && d.taken[0] is Data && d.collected is None {
                        let data = d.taken[0]->Data_0@;
                        lemma_chunks_are_fair(
                            DrainView { taken: rest, collected: Some(data), ..d },
                            DrainTask::Collect,
                            dropping,
                        );
                        lemma_fair_after_collecting(d, data, chunk);
                    }
                },
                AfterFlush::Handle => {},
            }
        },
    }
}

/// Putting reads together makes no chunk that exceeds the bound: a chunk over it is one single read,
/// handed over as it came.
pub proof fn law_chunks_are_bounded(d: DrainView, event: DrainEvent, dropping: bool)
    requires
        is_sane(d),
    ensures
        ({
            let chunk = handed_over(drain_step(d, event, dropping).1);
            ||| chunk.len() <= MAX_PENDING_READ_COALESCE_BYTES
            ||| is_one_read(d.taken, chunk)
            ||| is_one_read(d.queue.events, chunk)
        }),
{
    let working = DrainView { phase: DrainPhase::Working, ..d };
    match (d.phase, event) {
        (DrainPhase::Working, DrainEvent::Begin) => {
            lemma_chunks_are_fair(d, DrainTask::Refill, dropping);
        },
        (DrainPhase::Delivering(then), DrainEvent::Done) => {
            lemma_chunks_are_fair(working, DrainTask::Resume(then), dropping);
        },
        (DrainPhase::Notifying, DrainEvent::Done) => {
            lemma_chunks_are_fair(working, DrainTask::Collect, dropping);
        },
        _ => {},
    }
}

} // verus!
