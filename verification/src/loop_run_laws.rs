//! What holds of every run of the loop.

use vstd::prelude::*;
use crate::loop_commands::{ready_item_of, LoopCommand, ReadyItem};
use crate::loop_core::{queued, LoopCoreError, LoopView, Sent, ThreadView};
use crate::objects::ObjectId;
use crate::loop_run::{
    bound, drained, idle, is_finish, is_run_start, is_step, lemma_refill_keeps_count, let_go,
    needs_refill, noted, pumped, refilled, run_returns, told_run, CallbackEnd, FinishWait, LoopRun,
    RunAction, RunError, RunEvent, RunView, READY_DRAIN_SLICE,
};

verus! {

/// Everything that waits, queue after queue.
pub open spec fn items(r: RunView) -> Seq<ReadyItem> {
    r.pending() + r.batch + r.local()
}

/// How often an item waits.
pub open spec fn times_waiting(r: RunView, item: ReadyItem) -> nat {
    items(r).to_multiset().count(item)
}

proof fn lemma_count_of_sum(a: Seq<ReadyItem>, b: Seq<ReadyItem>, item: ReadyItem)
    ensures
        (a + b).to_multiset().count(item) == a.to_multiset().count(item) + b.to_multiset().count(
            item,
        ),
{
    vstd::seq_lib::lemma_multiset_commutative(a, b);
}

proof fn lemma_count_of_one(x: ReadyItem, item: ReadyItem)
    ensures
        seq![x].to_multiset().count(item) == if x == item {
            1nat
        } else {
            0nat
        },
{
    broadcast use vstd::seq_lib::group_to_multiset_ensures;

    assert(seq![x] =~= Seq::<ReadyItem>::empty().push(x));
    assert(Seq::<ReadyItem>::empty().to_multiset().count(item) == 0);
}

proof fn lemma_times_waiting_by_queue(r: RunView, item: ReadyItem)
    ensures
        times_waiting(r, item) == r.pending().to_multiset().count(item)
            + r.batch.to_multiset().count(item) + r.local().to_multiset().count(item),
{
    lemma_count_of_sum(r.pending() + r.batch, r.local(), item);
    lemma_count_of_sum(r.pending(), r.batch, item);
}

proof fn lemma_empty_counts_nothing(item: ReadyItem)
    ensures
        Seq::<ReadyItem>::empty().to_multiset().count(item) == 0,
{
    broadcast use vstd::seq_lib::group_to_multiset_ensures;

}

proof fn lemma_refill_keeps_items(r: RunView, item: ReadyItem)
    ensures
        times_waiting(refilled(r), item) == times_waiting(r, item),
{
    lemma_times_waiting_by_queue(r, item);
    lemma_times_waiting_by_queue(refilled(r), item);
    lemma_empty_counts_nothing(item);
    lemma_count_of_sum(r.pending(), r.batch, item);
    lemma_count_of_sum(r.pending() + r.batch, r.local(), item);
    lemma_count_of_sum(r.batch, r.local(), item);
}

proof fn lemma_taking_the_first(r: RunView, item: ReadyItem)
    requires
        r.batch.len() > 0,
    ensures
        times_waiting(r, item) == times_waiting(
            (RunView { batch: r.batch.drop_first(), ..r }),
            item,
        ) + if r.batch[0] == item {
            1nat
        } else {
            0nat
        },
{
    let rest = RunView { batch: r.batch.drop_first(), ..r };
    lemma_times_waiting_by_queue(r, item);
    lemma_times_waiting_by_queue(rest, item);
    assert(r.batch =~= seq![r.batch[0]] + r.batch.drop_first());
    lemma_count_of_sum(seq![r.batch[0]], r.batch.drop_first(), item);
    lemma_count_of_one(r.batch[0], item);
}

/// The loop loses no item and does none twice: taking the next one leaves exactly the others.
/// Requests to stop are the only items that are used up on the way.
pub proof fn law_no_item_is_lost(r: RunView, item: ReadyItem)
    requires
        !(item is Stop),
    ensures
        times_waiting(r, item) == times_waiting(pumped(r).0, item) + if pumped(r).1
            == RunAction::Execute(item) {
            1nat
        } else {
            0nat
        },
    decreases r.waiting(),
{
    lemma_refill_keeps_items(r, item);
    lemma_refill_keeps_count(r);
    let r1 = if needs_refill(r) {
        refilled(r)
    } else {
        r
    };
    if r1.batch.len() > 0 {
        lemma_taking_the_first(r1, item);
        if r1.batch[0] is Stop {
            let next = (RunView { batch: r1.batch.drop_first(), ..r1 }).with_stopping()
                .with_one_done();
            assert(items(next) == items((RunView { batch: r1.batch.drop_first(), ..r1 })));
            law_no_item_is_lost(next, item);
        }
    } else {
        assert(items(idle(r1).0) == items(r1));
    }
}

/// The loop's own items, in the order in which they came.
pub open spec fn own_order(r: RunView) -> Seq<ReadyItem> {
    r.batch + r.local()
}

/// `taken` is the first item of `order` that is no request to stop, and `rest` is what follows it.
pub open spec fn takes_the_next(
    order: Seq<ReadyItem>,
    taken: ReadyItem,
    rest: Seq<ReadyItem>,
) -> bool {
    exists|k: int|
        0 <= k < order.len() && (forall|i: int| 0 <= i < k ==> #[trigger] order[i] is Stop)
            && order[k] == taken && rest == #[trigger] order.skip(k + 1)
}

/// Where nothing comes from other threads, items are done in the order in which they came.
pub proof fn law_own_items_are_done_in_order(r: RunView)
    requires
        r.pending().len() == 0,
    ensures
        pumped(r).0.pending().len() == 0,
        match pumped(r).1 {
            RunAction::Execute(item) => takes_the_next(own_order(r), item, own_order(pumped(r).0)),
            _ => own_order(pumped(r).0).len() == 0 && forall|i: int|
                0 <= i < own_order(r).len() ==> #[trigger] own_order(r)[i] is Stop,
        },
    decreases r.waiting(),
{
    lemma_refill_keeps_count(r);
    let r1 = if needs_refill(r) {
        refilled(r)
    } else {
        r
    };
    assert(own_order(r1) =~= own_order(r));
    if r1.batch.len() > 0 {
        let order = own_order(r);
        let next = (RunView { batch: r1.batch.drop_first(), ..r1 });
        assert(own_order(next) =~= order.skip(1));
        if r1.batch[0] is Stop {
            let stopped = next.with_stopping().with_one_done();
            assert(own_order(stopped) =~= order.skip(1));
            law_own_items_are_done_in_order(stopped);
            let after = pumped(stopped).0;
            match pumped(stopped).1 {
                RunAction::Execute(item) => {
                    let k = choose|k: int|
                        0 <= k < order.skip(1).len() && (forall|i: int|
                            0 <= i < k ==> #[trigger] order.skip(1)[i] is Stop) && order.skip(1)[k]
                            == item && own_order(after) == #[trigger] order.skip(1).skip(k + 1);
                    assert(order.skip(1).skip(k + 1) =~= order.skip(k + 2));
                    assert forall|i: int| 0 <= i < k + 1 implies #[trigger] order[i] is Stop by {
                        if i > 0 {
                            assert(order.skip(1)[i - 1] is Stop);
                        }
                    }
                    assert(order[k + 1] == item);
                    assert(own_order(after) == order.skip((k + 1) + 1));
                },
                _ => {
                    assert forall|i: int| 0 <= i < order.len() implies #[trigger] order[i] is Stop by {
                        if i > 0 {
                            assert(order.skip(1)[i - 1] is Stop);
                        }
                    }
                },
            }
        } else {
            assert(order[0] == r1.batch[0]);
            assert(own_order(next) == order.skip(0int + 1));
        }
    }
}

/// When the loop looks for new items after it was woken, those of other threads go before all
/// others, however many the loop's own callbacks queued.
pub proof fn law_other_threads_go_first(r: RunView)
    requires
        r.batch.len() == 0 || r.wake(),
    ensures
        refilled(r).batch.take(r.pending().len() as int) == r.pending(),
        refilled(r).pending().len() == 0,
        !refilled(r).wake(),
{
    assert(refilled(r).batch.take(r.pending().len() as int) =~= r.pending());
}

/// A woken loop looks within a slice: with each item that it does before, it comes one closer.
pub proof fn law_woken_loop_looks_within_a_slice(r: RunView)
    requires
        r.wake(),
        r.processed <= READY_DRAIN_SLICE,
    ensures
        ({
            let (after, action) = pumped(r.with_one_done());
            ||| after.pending().len() == 0
            ||| action is Execute && after.core.dispatch == r.core.dispatch && r.processed
                < after.processed <= READY_DRAIN_SLICE
        }),
{
    lemma_pump_looks_or_counts(r.with_one_done());
}

proof fn lemma_pump_looks_or_counts(r: RunView)
    requires
        r.wake(),
        r.processed <= READY_DRAIN_SLICE,
    ensures
        ({
            let (after, action) = pumped(r);
            ||| after.pending().len() == 0
            ||| action is Execute && after.core.dispatch == r.core.dispatch && r.processed
                <= after.processed < READY_DRAIN_SLICE
        }),
    decreases r.waiting(),
{
    lemma_refill_keeps_count(r);
    if needs_refill(r) {
        lemma_nothing_new_appears(r);
    } else if r.batch[0] is Stop {
        lemma_pump_looks_or_counts(
            (RunView { batch: r.batch.drop_first(), ..r }).with_stopping().with_one_done(),
        );
    }
}

/// Once the loop looked, nothing from other threads is left.
proof fn lemma_nothing_new_appears(r: RunView)
    requires
        (needs_refill(r) && (r.batch.len() == 0 || r.wake())) || r.pending().len() == 0,
    ensures
        pumped(r).0.pending().len() == 0,
    decreases r.waiting(),
{
    lemma_refill_keeps_count(r);
    let r1 = if needs_refill(r) {
        refilled(r)
    } else {
        r
    };
    if r1.batch.len() > 0 && r1.batch[0] is Stop {
        lemma_nothing_new_appears(
            (RunView { batch: r1.batch.drop_first(), ..r1 }).with_stopping().with_one_done(),
        );
    }
}

/// The loop stops, looks for signals or waits only when there is nothing left to do, and then the
/// next item from another thread is known to wake it.
pub proof fn law_loop_rests_only_with_nothing_to_do(r: RunView)
    requires
        !(pumped(r).1 is Execute),
    ensures
        pumped(r).0.waiting() == 0,
        !pumped(r).0.wake(),
        !pumped(r).0.thread.drain_active,
        pumped(r).1 is CheckSignals || pumped(r).1 is WaitWake || pumped(r).1 is Finish
            || pumped(r).1 is FinishWith,
    decreases r.waiting(),
{
    lemma_refill_keeps_count(r);
    let r1 = if needs_refill(r) {
        refilled(r)
    } else {
        r
    };
    if r1.batch.len() > 0 {
        law_loop_rests_only_with_nothing_to_do(
            (RunView { batch: r1.batch.drop_first(), ..r1 }).with_stopping().with_one_done(),
        );
    }
}

/// No wake-up is lost: an item that comes while the loop is not draining and was not woken has it
/// woken.
pub proof fn law_no_wake_up_is_lost(v: LoopView, thread: ThreadView, command: LoopCommand)
    requires
        v.dispatch is Some,
        !v.dispatch.unwrap().wake,
        !thread.drain_active,
        ready_item_of(command) is Some,
    ensures
        queued(v, thread, command) is Some,
        queued(v, thread, command).unwrap().2 == (Sent::Pending { wake: true }),
        queued(v, thread, command).unwrap().0.dispatch.unwrap().wake,
        queued(v, thread, command).unwrap().0.dispatch.unwrap().pending
            == v.dispatch.unwrap().pending.push(ready_item_of(command).unwrap()),
{
}

/// What other threads queued and the loop did not see had it woken.
pub open spec fn queued_means_woken(r: RunView) -> bool {
    r.pending().len() > 0 ==> r.wake()
}

/// That holds of a loop at all times: neither a step nor a command takes it away.
pub proof fn law_queued_means_woken(r: RunView, event: RunEvent, after: RunView, action: RunAction)
    requires
        queued_means_woken(r),
        is_step(r, event, after, action),
    ensures
        queued_means_woken(after),
{
    match event {
        RunEvent::Begin => {
            lemma_pump_keeps_queued_means_woken(RunView { processed: 0, ..r.with_drain(true) });
        },
        RunEvent::Woken => {
            lemma_pump_keeps_queued_means_woken(RunView { processed: 0, ..r.with_drain(true) });
        },
        RunEvent::ItemDone => {
            lemma_pump_keeps_queued_means_woken(r.with_one_done());
        },
        RunEvent::SignalRaised(raised) => {
            let (core, thread, sent) = choose|
                core: LoopView,
                thread: ThreadView,
                sent: Result<Sent, crate::loop_core::LoopCoreError>,
            | #[trigger]
                crate::loop_core::is_sent(
                    r.core,
                    r.thread,
                    LoopCommand::RequestStop,
                    sent,
                    core,
                    thread,
                ) && (after, action) == drained(
                    RunView { signal_error: Some(raised), core, thread, ..r },
                );
            let r1 = RunView { signal_error: Some(raised), core, thread, ..r };
            lemma_pump_keeps_queued_means_woken(RunView { processed: 0, ..r1.with_drain(true) });
        },
        _ => {},
    }
}

proof fn lemma_pump_keeps_queued_means_woken(r: RunView)
    requires
        queued_means_woken(r),
    ensures
        queued_means_woken(pumped(r).0),
    decreases r.waiting(),
{
    lemma_refill_keeps_count(r);
    let r1 = if needs_refill(r) {
        refilled(r)
    } else {
        r
    };
    if r1.batch.len() > 0 && r1.batch[0] is Stop {
        lemma_pump_keeps_queued_means_woken(
            (RunView { batch: r1.batch.drop_first(), ..r1 }).with_stopping().with_one_done(),
        );
    }
}

/// A run ends well only when it was asked to stop, nothing is left to do, and no signal was raised.
pub proof fn law_run_ends_well_only_when_stopped(
    r: RunView,
    event: RunEvent,
    after: RunView,
    action: RunAction,
)
    requires
        is_step(r, event, after, action),
        action is Finish,
    ensures
        after.core.state.stopping,
        after.waiting() == 0,
        after.signal_error is None,
{
    match event {
        RunEvent::Begin => {
            lemma_finish_means_stopped(RunView { processed: 0, ..r.with_drain(true) });
        },
        RunEvent::Woken => {
            lemma_finish_means_stopped(RunView { processed: 0, ..r.with_drain(true) });
        },
        RunEvent::ItemDone => {
            lemma_finish_means_stopped(r.with_one_done());
        },
        RunEvent::SignalRaised(raised) => {
            let (core, thread, sent) = choose|
                core: LoopView,
                thread: ThreadView,
                sent: Result<Sent, crate::loop_core::LoopCoreError>,
            | #[trigger]
                crate::loop_core::is_sent(
                    r.core,
                    r.thread,
                    LoopCommand::RequestStop,
                    sent,
                    core,
                    thread,
                ) && (after, action) == drained(
                    RunView { signal_error: Some(raised), core, thread, ..r },
                );
            let r1 = RunView { signal_error: Some(raised), core, thread, ..r };
            lemma_finish_means_stopped(RunView { processed: 0, ..r1.with_drain(true) });
        },
        _ => {},
    }
}

proof fn lemma_finish_means_stopped(r: RunView)
    ensures
        pumped(r).1 is Finish ==> pumped(r).0.core.state.stopping && pumped(r).0.waiting() == 0
            && pumped(r).0.signal_error is None,
        pumped(r).0.signal_error == r.signal_error,
    decreases r.waiting(),
{
    lemma_refill_keeps_count(r);
    let r1 = if needs_refill(r) {
        refilled(r)
    } else {
        r
    };
    if r1.batch.len() > 0 && r1.batch[0] is Stop {
        lemma_finish_means_stopped(
            (RunView { batch: r1.batch.drop_first(), ..r1 }).with_stopping().with_one_done(),
        );
    }
}

/// A run that has just begun is not stopping, whatever an earlier run was asked for: it runs, has
/// nothing to do yet and nothing went wrong in it. The runtime thread was told, or can be told
/// nothing any more. Nothing else of the loop changes.
pub proof fn law_new_run_is_not_stopping(
    v: LoopView,
    thread: ThreadView,
    started: Result<LoopRun, LoopCoreError>,
    v_after: LoopView,
    thread_after: ThreadView,
)
    requires
        is_run_start(v, thread, started, v_after, thread_after),
        !v.state.closed,
        !v.state.running,
    ensures
        !v_after.state.stopping,
        v_after.state.running,
        !v_after.state.closed,
        v_after.dispatch is Some,
        v_after.dispatch.unwrap().pending.len() == 0,
        !v_after.dispatch.unwrap().wake,
        started matches Ok(run) ==> {
            let r = run.on(v_after, thread_after);
            &&& r.batch.len() == 0
            &&& r.pending().len() == 0
            &&& r.signal_error is None
            &&& !r.core.state.stopping
            &&& v_after.sent.len() == v.sent.len() + 1
            &&& v_after.sent.last() == LoopCommand::Run(
                crate::loop_commands::LoopRunCommand::EnterRun,
            )
        },
        started matches Err(error) ==> error == LoopCoreError::ChannelClosed && v_after.unheard
            && v_after.sent == v.sent,
        thread_after == thread,
        v_after.id == v.id,
        v_after.next_callback_id == v.next_callback_id,
        v_after.debug_enabled == v.debug_enabled,
        v_after.state.signal_handlers == v.state.signal_handlers,
        v_after.state.reader_keepalive == v.state.reader_keepalive,
        v_after.state.writer_keepalive == v.state.writer_keepalive,
        v_after.state.task_factory == v.state.task_factory,
        v_after.state.exception_handler == v.state.exception_handler,
        v_after.state.default_executor == v.state.default_executor,
        v_after.state.active_asyncgens == v.state.active_asyncgens,
{
}

/// A loop that is closed, or that runs already, begins no run, and is left as it was.
pub proof fn law_no_second_run_and_none_after_closing(
    v: LoopView,
    thread: ThreadView,
    started: Result<LoopRun, LoopCoreError>,
    v_after: LoopView,
    thread_after: ThreadView,
)
    requires
        is_run_start(v, thread, started, v_after, thread_after),
        v.state.closed || v.state.running,
    ensures
        started is Err,
        v_after == v,
        thread_after == thread,
        v.state.closed ==> started->Err_0 == LoopCoreError::Closed,
        !v.state.closed ==> started->Err_0 == LoopCoreError::Running,
{
}

/// How many requests to stop wait.
pub open spec fn stops_waiting(r: RunView) -> nat {
    times_waiting(r, ReadyItem::Stop)
}

proof fn lemma_pump_stops_for_requests(r: RunView)
    ensures
        stops_waiting(pumped(r).0) <= stops_waiting(r),
        pumped(r).0.core.state.stopping <==> r.core.state.stopping || stops_waiting(pumped(r).0)
            < stops_waiting(r),
    decreases r.waiting(),
{
    lemma_refill_keeps_count(r);
    let r1 = if needs_refill(r) {
        lemma_refill_keeps_items(r, ReadyItem::Stop);
        refilled(r)
    } else {
        r
    };
    if r1.batch.len() > 0 {
        let r2 = RunView { batch: r1.batch.drop_first(), ..r1 };
        lemma_taking_the_first(r1, ReadyItem::Stop);
        if r1.batch[0] is Stop {
            let r3 = r2.with_stopping().with_one_done();
            assert(items(r3) == items(r2));
            lemma_pump_stops_for_requests(r3);
        }
    } else {
        let r3 = idle(r1).0;
        assert(items(r3) == items(r1));
    }
}

/// A loop comes to stop only by a request to stop that one of its steps takes, and by every such
/// request. A raised signal asks for it by itself.
pub proof fn law_only_a_request_stops_the_loop(
    r: RunView,
    event: RunEvent,
    after: RunView,
    action: RunAction,
)
    requires
        is_step(r, event, after, action),
        !(event is SignalRaised),
    ensures
        stops_waiting(after) <= stops_waiting(r),
        after.core.state.stopping <==> r.core.state.stopping || stops_waiting(after)
            < stops_waiting(r),
{
    let draining = RunView { processed: 0, ..r.with_drain(true) };
    let done = r.with_one_done();
    assert(items(draining) == items(r));
    assert(items(done) == items(r));
    assert(items(r.with_drain(false)) == items(r));
    lemma_pump_stops_for_requests(draining);
    lemma_pump_stops_for_requests(done);
}

/// One step of a run, as it happened.
pub struct RunMoment {
    pub before: RunView,
    pub event: RunEvent,
    pub after: RunView,
    pub action: RunAction,
}

/// The step took a request to stop.
pub open spec fn takes_a_stop(moment: RunMoment) -> bool {
    stops_waiting(moment.after) < stops_waiting(moment.before)
}

/// The steps of one run, from its beginning on. Between two steps callbacks and other threads may
/// queue more; that the loop stops is for the steps alone to note, and so is a raised signal.
pub open spec fn is_run(moments: Seq<RunMoment>) -> bool {
    &&& moments.len() > 0 ==> !moments[0].before.core.state.stopping
        && moments[0].before.signal_error is None
    &&& forall|i: int|
        0 <= i < moments.len() ==> is_step(
            (#[trigger] moments[i]).before,
            moments[i].event,
            moments[i].after,
            moments[i].action,
        )
    &&& forall|i: int, j: int|
        0 <= i && j == i + 1 && j < moments.len() ==> (#[trigger] moments[j]).before.core.state.stopping
            == (#[trigger] moments[i]).after.core.state.stopping && moments[j].before.signal_error
            == moments[i].after.signal_error
}

proof fn lemma_stopping_has_a_cause(moments: Seq<RunMoment>)
    requires
        is_run(moments),
        moments.len() > 0,
        moments.last().after.core.state.stopping,
        moments.last().after.signal_error is None,
    ensures
        exists|i: int| 0 <= i < moments.len() && takes_a_stop(#[trigger] moments[i]),
    decreases moments.len(),
{
    let last = moments.last();
    assert(last == moments[moments.len() - 1]);
    lemma_signal_error_stays(last.before, last.event, last.after, last.action);
    if last.before.core.state.stopping {
        let front = moments.drop_last();
        assert(front.len() > 0);
        assert(moments[moments.len() - 2].after.core.state.stopping);
        assert(front.last() == moments[moments.len() - 2]);
        assert forall|i: int| 0 <= i < front.len() implies is_step(
            (#[trigger] front[i]).before,
            front[i].event,
            front[i].after,
            front[i].action,
        ) by {
            assert(front[i] == moments[i]);
        }
        assert(is_run(front));
        lemma_stopping_has_a_cause(front);
        let i = choose|i: int| 0 <= i < front.len() && takes_a_stop(#[trigger] front[i]);
        assert(takes_a_stop(moments[i]));
    } else {
        law_only_a_request_stops_the_loop(last.before, last.event, last.after, last.action);
        assert(takes_a_stop(moments[moments.len() - 1]));
    }
}

/// A signal's exception is not forgotten, and comes only from a signal.
proof fn lemma_signal_error_stays(
    r: RunView,
    event: RunEvent,
    after: RunView,
    action: RunAction,
)
    requires
        is_step(r, event, after, action),
    ensures
        match event {
            RunEvent::SignalRaised(raised) => after.signal_error == Some(raised),
            _ => after.signal_error == r.signal_error,
        },
{
    match event {
        RunEvent::Begin => {
            lemma_finish_means_stopped(RunView { processed: 0, ..r.with_drain(true) });
        },
        RunEvent::Woken => {
            lemma_finish_means_stopped(RunView { processed: 0, ..r.with_drain(true) });
        },
        RunEvent::ItemDone => {
            lemma_finish_means_stopped(r.with_one_done());
        },
        RunEvent::SignalRaised(raised) => {
            let (core, thread, sent) = choose|
                core: LoopView,
                thread: ThreadView,
                sent: Result<Sent, LoopCoreError>,
            | #[trigger]
                crate::loop_core::is_sent(
                    r.core,
                    r.thread,
                    LoopCommand::RequestStop,
                    sent,
                    core,
                    thread,
                ) && (after, action) == drained(
                    RunView { signal_error: Some(raised), core, thread, ..r },
                );
            let r1 = RunView { signal_error: Some(raised), core, thread, ..r };
            lemma_finish_means_stopped(RunView { processed: 0, ..r1.with_drain(true) });
        },
        _ => {},
    }
}

/// A run finishes only if a request to stop was taken in that same run: requests to earlier runs do
/// not count.
pub proof fn law_run_finishes_only_when_asked_in_it(moments: Seq<RunMoment>)
    requires
        is_run(moments),
        moments.len() > 0,
        moments.last().action is Finish,
    ensures
        exists|i: int| 0 <= i < moments.len() && takes_a_stop(#[trigger] moments[i]),
{
    let last = moments.last();
    assert(last == moments[moments.len() - 1]);
    law_run_ends_well_only_when_stopped(last.before, last.event, last.after, last.action);
    lemma_stopping_has_a_cause(moments);
}

proof fn lemma_pump_decides_by_the_marks(r: RunView)
    ensures
        ({
            let (after, action) = pumped(r);
            action is Execute || if after.core.state.stopping {
                match r.signal_error {
                    Some(raised) => action == RunAction::FinishWith(RunError::Raised(raised)),
                    None => action is Finish,
                }
            } else if r.signal_error is Some {
                action is WaitWake
            } else {
                action is CheckSignals
            }
        }),
    decreases r.waiting(),
{
    lemma_refill_keeps_count(r);
    let r1 = if needs_refill(r) {
        refilled(r)
    } else {
        r
    };
    if r1.batch.len() > 0 && r1.batch[0] is Stop {
        lemma_pump_decides_by_the_marks(
            (RunView { batch: r1.batch.drop_first(), ..r1 }).with_stopping().with_one_done(),
        );
    }
}

/// A loop that was asked to stop does so as soon as it has nothing else to do, with the exception of
/// the signal where one was raised. One that was not asked goes on: it looks for signals, and waits.
pub proof fn law_asked_loop_stops_when_it_is_done(
    r: RunView,
    event: RunEvent,
    after: RunView,
    action: RunAction,
)
    requires
        is_step(r, event, after, action),
        event is Begin || event is Woken || event is ItemDone,
        after.waiting() == 0,
        !(action is Execute),
    ensures
        after.core.state.stopping && r.signal_error is None ==> action is Finish,
        after.core.state.stopping ==> (r.signal_error matches Some(raised) ==> action
            == RunAction::FinishWith(RunError::Raised(raised))),
        !after.core.state.stopping ==> action is CheckSignals || action is WaitWake,
        action is CheckSignals ==> r.signal_error is None,
{
    lemma_pump_decides_by_the_marks(RunView { processed: 0, ..r.with_drain(true) });
    lemma_pump_decides_by_the_marks(r.with_one_done());
}

/// What goes wrong in a run ends it, and comes out as it was: what a callback let through, what an
/// item failed with, what a signal handler raised, or that nobody is left to wake the loop. A run
/// that looked for signals and found none waits.
pub proof fn law_failures_end_the_run(
    r: RunView,
    event: RunEvent,
    after: RunView,
    action: RunAction,
)
    requires
        is_step(r, event, after, action),
    ensures
        event matches RunEvent::CallbackFailed(raised) ==> action == RunAction::FinishWith(
            RunError::Raised(raised),
        ) && !after.thread.drain_active,
        event matches RunEvent::ItemRaised(raised) ==> action == RunAction::Abort(raised),
        event is Disconnected ==> action == RunAction::FinishWith(RunError::RuntimeTerminated),
        event is SignalsChecked ==> action is WaitWake,
        event matches RunEvent::SignalRaised(raised) ==> after.signal_error == Some(raised)
            && !(action is Finish),
        event is CallbackFailed || event is ItemRaised || event is Disconnected
            || event is SignalsChecked ==> items(after) == items(r) && after.core == r.core,
        !(event is SignalRaised) ==> after.signal_error == r.signal_error,
{
    lemma_signal_error_stays(r, event, after, action);
    if action is Finish {
        law_run_ends_well_only_when_stopped(r, event, after, action);
    }
    assert(items(r.with_drain(false)) == items(r));
}

/// What a callback raised reaches the run as it was raised, and only then.
pub proof fn law_run_hears_what_callbacks_raise(end: CallbackEnd, raised: ObjectId)
    ensures
        told_run(end) is ItemDone <==> end is Settled,
        told_run(end) == RunEvent::CallbackFailed(raised) <==> end == CallbackEnd::LetThrough(
            raised,
        ),
        told_run(end) == RunEvent::ItemRaised(raised) <==> end == CallbackEnd::ReportFailed(raised),
{
}

/// A thread that began a run and let it go again runs no loop, and nothing that was queued is lost:
/// what the thread's own queue held comes last.
pub proof fn law_thread_is_free_after_a_run(r: RunView, thread: ThreadView)
    requires
        thread.queue is None,
        r.thread.active_loop == Some(r.core.id),
    ensures
        bound(r.core, thread).active_loop == Some(r.core.id),
        bound(r.core, thread).queue is Some,
        bound(r.core, thread).queue.unwrap().len() == 0,
        let_go(r).thread.active_loop is None,
        let_go(r).thread.queue is None,
        !let_go(r).thread.drain_active,
        let_go(r).batch.len() == r.batch.len() + r.local().len(),
        let_go(r).batch.take(r.batch.len() as int) == r.batch,
        let_go(r).batch.skip(r.batch.len() as int) == r.local(),
        let_go(r).pending() == r.pending(),
        let_go(r).core == r.core,
        let_go(r).signal_error == r.signal_error,
{
}

/// Ending a run drops nothing that was not done: it comes back in order, what the run had taken
/// before what other threads queued. From here on work goes to the runtime thread, which was told
/// that the run is over, or can be told nothing any more. Only that note lets the loop run no
/// longer.
pub proof fn law_ended_run_hands_back_what_is_left(
    r: RunView,
    left: Seq<ReadyItem>,
    told: Result<Sent, LoopCoreError>,
    v_after: LoopView,
    thread_after: ThreadView,
)
    requires
        is_finish(r, left, told, v_after, thread_after),
    ensures
        left.len() == r.batch.len() + r.pending().len(),
        left.take(r.batch.len() as int) == r.batch,
        left.skip(r.batch.len() as int) == r.pending(),
        v_after.dispatch is None,
        v_after.state == r.core.state,
        thread_after == r.thread,
        told is Ok ==> v_after.sent == r.core.sent.push(
            LoopCommand::Run(crate::loop_commands::LoopRunCommand::FinishRun),
        ),
        told is Err ==> v_after.sent == r.core.sent && v_after.unheard,
        !noted(v_after).state.running,
        noted(v_after).state.closed == v_after.state.closed,
        noted(v_after).state.stopping == v_after.state.stopping,
        noted(v_after).sent == v_after.sent,
        noted(v_after).dispatch == v_after.dispatch,
{
}

/// A run's own result comes out exactly where the runtime thread noted the end of the run; else the
/// run fails, and says which of the two it was.
pub proof fn law_run_result_needs_the_note(result: Result<(), RunError>, wait: FinishWait)
    ensures
        wait is Done ==> run_returns(result, wait) == result,
        !(wait is Done) ==> run_returns(result, wait) is Err,
        wait is Timeout ==> run_returns(result, wait)->Err_0 is FinishTimedOut,
        wait is Disconnected ==> run_returns(result, wait)->Err_0 is RuntimeTerminated,
{
}

} // verus!
