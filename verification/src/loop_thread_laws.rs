//! What holds of the thread that a loop runs on, and of what other threads queue for it.

use vstd::prelude::*;
use crate::loop_commands::{LoopCommand, ReadyItem};
use crate::loop_core::{
    channel_outcome, is_invoked, is_woken, join_outcome, pending_of, queued_in, released,
    running_here, with_dispatch, with_drain, with_pending_taken, with_queue, without_dispatch,
    LoopCoreError, LoopView, Sent, ThreadView,
};
use crate::loop_run::{thread_is_free, RunError};

verus! {

/// A thread that works on a loop is known to do so until it is released, and releasing it undoes
/// marking it. A thread that works on another loop goes on to. Nothing is queued or drained there
/// afterwards.
pub proof fn law_released_thread_works_on_nothing(v: LoopView, thread: ThreadView)
    ensures
        running_here(v, thread).active_loop == Some(v.id),
        running_here(v, thread).queue == thread.queue,
        running_here(v, thread).drain_active == thread.drain_active,
        released(v, running_here(v, thread)).active_loop is None,
        released(v, thread).active_loop != Some(v.id),
        thread.active_loop != Some(v.id) ==> released(v, thread).active_loop == thread.active_loop,
        released(v, thread).queue is None,
        !released(v, thread).drain_active,
        released(v, released(v, thread)) == released(v, thread),
{
}

/// A thread's own queue begins empty, and what is left in it when the thread is released is what was
/// put there, in that order. A thread without one has nothing left.
pub proof fn law_own_queue_keeps_what_it_holds(v: LoopView, thread: ThreadView, items: Seq<ReadyItem>)
    ensures
        with_queue(thread).queue is Some,
        queued_in(with_queue(thread)) == Seq::<ReadyItem>::empty(),
        with_queue(thread).active_loop == thread.active_loop,
        with_queue(thread).drain_active == thread.drain_active,
        queued_in(ThreadView { queue: Some(items), ..thread }) == items,
        queued_in(ThreadView { queue: None, ..thread }) == Seq::<ReadyItem>::empty(),
        queued_in(released(v, thread)) == Seq::<ReadyItem>::empty(),
{
}

/// The mark of a drain is what it was set to last, and setting it changes nothing else.
pub proof fn law_drain_is_marked(thread: ThreadView, active: bool, earlier: bool)
    ensures
        with_drain(thread, active).drain_active == active,
        with_drain(with_drain(thread, earlier), active) == with_drain(thread, active),
        with_drain(thread, active).queue == thread.queue,
        with_drain(thread, active).active_loop == thread.active_loop,
{
}

/// A loop that could begin a run is refused exactly on a thread that has a queue, that is, in the
/// middle of a run. On a thread that was released any loop may run.
pub proof fn law_thread_runs_one_loop(v: LoopView, other: LoopView, thread: ThreadView)
    ensures
        thread_is_free(v, thread) is Err <==> !v.state.closed && !v.state.running
            && thread.queue is Some,
        thread_is_free(v, thread) matches Err(error) ==> error == RunError::OtherLoopRuns,
        thread_is_free(v, released(other, thread)) is Ok,
        !v.state.closed && !v.state.running ==> thread_is_free(v, with_queue(thread)) is Err,
{
}

/// What other threads queued is taken at once and wholly: afterwards nothing is queued and nobody
/// was woken. Nothing else changes, and a loop that takes nothing directly is left alone.
pub proof fn law_queued_work_is_taken_wholly(v: LoopView, items: Seq<ReadyItem>)
    ensures
        pending_of(with_pending_taken(v)) == Seq::<ReadyItem>::empty(),
        !is_woken(with_pending_taken(v)),
        with_pending_taken(v).dispatch is Some <==> v.dispatch is Some,
        v.dispatch is None ==> with_pending_taken(v) == v,
        with_pending_taken(v) == (LoopView { dispatch: with_pending_taken(v).dispatch, ..v }),
        v.dispatch matches Some(dispatch) ==> pending_of(v) == dispatch.pending && is_woken(v)
            == dispatch.wake,
        v.dispatch is None ==> pending_of(v) == Seq::<ReadyItem>::empty() && !is_woken(v),
{
}

/// Other threads reach a loop directly from the start of its run to its end. The way begins empty,
/// and when it is taken down nothing can be queued there.
pub proof fn law_direct_way_is_there_while_the_loop_runs(v: LoopView)
    ensures
        with_dispatch(v).dispatch is Some,
        pending_of(with_dispatch(v)) == Seq::<ReadyItem>::empty(),
        !is_woken(with_dispatch(v)),
        with_dispatch(v) == (LoopView { dispatch: with_dispatch(v).dispatch, ..v }),
        without_dispatch(v).dispatch is None,
        without_dispatch(v) == (LoopView { dispatch: None, ..v }),
        without_dispatch(with_dispatch(v)) == without_dispatch(v),
{
}

/// A callback is called unless it was cancelled.
pub proof fn law_cancelled_callback_is_not_called(cancelled: bool)
    ensures
        is_invoked(cancelled) <==> !cancelled,
{
}

/// A command that the channel took was sent; one that came back found it closed. A runtime thread
/// that did not end could not be joined.
pub proof fn law_failures_of_the_runtime_are_named(sent: Result<(), LoopCommand>, ended: bool)
    ensures
        channel_outcome(sent) is Ok <==> sent is Ok,
        channel_outcome(sent) matches Ok(way) ==> way == Sent::Channel,
        channel_outcome(sent) matches Err(error) ==> error == LoopCoreError::ChannelClosed,
        join_outcome(ended) is Ok <==> ended,
        join_outcome(ended) matches Err(error) ==> error == LoopCoreError::ThreadJoin,
{
}

} // verus!
