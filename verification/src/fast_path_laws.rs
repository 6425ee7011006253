//! What holds of the order in which a transport's events reach the protocol, and of the short cuts
//! into its reader.

use vstd::prelude::*;
use crate::objects::ObjectId;
use crate::read_events::{
    advanced, drain_step, fresh_queue, must_tell, task_rank, untold, with_event, AfterFlush,
    DrainActionView, DrainEvent, DrainPhase, DrainTask, DrainView, PendingReadEvent, QueueView,
    MAX_PENDING_READ_COALESCE_BYTES,
};
use crate::read_events_laws::{goes_on, is_sane, is_sane_task};
use crate::reader_fast_path::{
    end_step, fast_eof, fast_lost, fast_made, fast_path_of, feed_step, ClientCallback, EndAction,
    EndEvent, FastLostStep, FastMadeStep, FastPathChoice, FeedAction, FeedEvent, GenericEnd,
    GenericFeed, StreamReaderFastPath,
};
use crate::stream_protocol::FutureCall;

verus! {

/// Something that the protocol learns: a byte, or a notice.
pub enum DrainItem {
    Byte(u8),
    Notice(DrainActionView),
}

/// The bytes, one by one.
pub open spec fn byte_items(data: Seq<u8>) -> Seq<DrainItem> {
    data.map_values(|byte: u8| DrainItem::Byte(byte))
}

/// What an event tells the protocol.
pub open spec fn event_items(event: PendingReadEvent) -> Seq<DrainItem> {
    match event {
        PendingReadEvent::Data(data) => byte_items(data@),
        PendingReadEvent::Eof => seq![DrainItem::Notice(DrainActionView::CallEofReceived)],
        PendingReadEvent::ConnectionLost(None) => seq![
            DrainItem::Notice(DrainActionView::Lose(None)),
        ],
        PendingReadEvent::ConnectionLost(Some(reason)) => seq![
            DrainItem::Notice(DrainActionView::Lose(Some(reason@))),
        ],
        PendingReadEvent::PauseWriting => seq![DrainItem::Notice(DrainActionView::CallPauseWriting)],
        PendingReadEvent::ResumeWriting => seq![
            DrainItem::Notice(DrainActionView::CallResumeWriting),
        ],
    }
}

/// What events tell the protocol, in order.
pub open spec fn items_of(events: Seq<PendingReadEvent>) -> Seq<DrainItem>
    decreases events.len(),
{
    if events.len() == 0 {
        Seq::empty()
    } else {
        event_items(events[0]) + items_of(events.drop_first())
    }
}

/// What the protocol was not told yet.
pub open spec fn items_waiting(d: DrainView) -> Seq<DrainItem> {
    (match d.collected {
        Some(data) => byte_items(data),
        None => Seq::empty(),
    }) + items_of(d.taken) + items_of(d.queue.events)
}

/// What an action tells the protocol.
pub open spec fn items_told(action: DrainActionView) -> Seq<DrainItem> {
    match action {
        DrainActionView::Deliver(data) => byte_items(data),
        DrainActionView::Finish => Seq::empty(),
        _ => seq![DrainItem::Notice(action)],
    }
}

proof fn lemma_collecting_moves_items(d: DrainView)
    requires
        d.taken.len() > 0,
        d.taken[0] is Data,
    ensures
        items_waiting(d) == items_waiting(
            (DrainView {
                taken: d.taken.drop_first(),
                collected: Some(
                    match d.collected {
                        Some(sofar) => sofar + d.taken[0]->Data_0@,
                        None => d.taken[0]->Data_0@,
                    },
                ),
                ..d
            }),
        ),
{
    let data = d.taken[0]->Data_0@;
    if let Some(sofar) = d.collected {
        assert(byte_items(sofar + data) =~= byte_items(sofar) + byte_items(data));
    }
    let next = DrainView {
        taken: d.taken.drop_first(),
        collected: Some(
            match d.collected {
                Some(sofar) => sofar + data,
                None => data,
            },
        ),
        ..d
    };
    assert(items_of(d.taken) == byte_items(data) + items_of(d.taken.drop_first()));
    assert(items_waiting(d) =~= items_waiting(next));
}

proof fn lemma_advance_tells_in_order(d: DrainView, task: DrainTask)
    requires
        is_sane_task(d, task),
    ensures
        ({
            let (after, action) = advanced(d, task, false);
            items_waiting(d) == items_told(action) + items_waiting(after)
        }),
    decreases
            d.queue.events.len() + d.taken.len(),
            if d.taken.len() == 0 {
                1nat
            } else {
                0nat
            },
            if d.collected is Some {
                1nat
            } else {
                0nat
            },
            task_rank(task),
{
    let (after, action) = advanced(d, task, false);
    match task {
        DrainTask::Refill => {
            if d.queue.events.len() > 0 {
                let next = DrainView {
                    queue: QueueView { events: Seq::empty(), ..d.queue },
                    taken: d.queue.events,
                    ..d
                };
                lemma_advance_tells_in_order(next, DrainTask::Collect);
                assert(items_waiting(d) =~= items_waiting(next));
            } else {
                assert(items_waiting(d) =~= items_told(action) + items_waiting(after));
            }
        },
        DrainTask::Collect => {
            if d.taken.len() == 0 {
                lemma_advance_tells_in_order(d, DrainTask::Flush(AfterFlush::Refill));
            } else if let PendingReadEvent::Data(data) = d.taken[0] {
                lemma_collecting_moves_items(d);
                let rest = d.taken.drop_first();
                match d.collected {
                    None => lemma_advance_tells_in_order(
                        DrainView { taken: rest, collected: Some(data@), ..d },
                        DrainTask::Collect,
                    ),
                    Some(sofar) => if sofar.len() + data@.len() <= MAX_PENDING_READ_COALESCE_BYTES {
                        lemma_advance_tells_in_order(
                            DrainView { taken: rest, collected: Some(sofar + data@), ..d },
                            DrainTask::Collect,
                        );
                    } else {
                        lemma_advance_tells_in_order(d, DrainTask::Flush(AfterFlush::Collect));
                    },
                }
            } else {
                lemma_advance_tells_in_order(d, DrainTask::Flush(AfterFlush::Handle));
            }
        },
        DrainTask::Flush(then) => {
            if d.collected is None {
                lemma_advance_tells_in_order(d, DrainTask::Resume(then));
            } else {
                assert(items_waiting(d) =~= items_told(action) + items_waiting(after));
            }
        },
        DrainTask::Resume(then) => {
            match then {
                AfterFlush::Refill => lemma_advance_tells_in_order(d, DrainTask::Refill),
                AfterFlush::Collect => {
                    lemma_collecting_moves_items(d);
                    lemma_advance_tells_in_order(
                        DrainView {
                            taken: d.taken.drop_first(),
                            collected: Some(d.taken[0]->Data_0@),
                            ..d
                        },
                        DrainTask::Collect,
                    );
                },
                AfterFlush::Handle => {
                    assert(items_of(d.taken) == event_items(d.taken[0]) + items_of(
                        d.taken.drop_first(),
                    ));
                    assert(items_waiting(d) =~= items_told(action) + items_waiting(after));
                },
            }
        },
    }
}

/// The protocol learns of everything in the order in which it came, and of each thing once: bytes,
/// the end of the stream, the loss with its reason, and that writing has to pause or may go on. What
/// an action tells is the next of it, and the rest still waits.
pub proof fn law_protocol_learns_everything_in_order(d: DrainView, event: DrainEvent)
    requires
        is_sane(d),
        goes_on(d, event),
    ensures
        ({
            let (after, action) = drain_step(d, event, false);
            items_waiting(d) == items_told(action) + items_waiting(after)
        }),
{
    let working = DrainView { phase: DrainPhase::Working, ..d };
    assert(items_waiting(working) == items_waiting(d));
    match d.phase {
        DrainPhase::Working => lemma_advance_tells_in_order(d, DrainTask::Refill),
        DrainPhase::Delivering(then) => lemma_advance_tells_in_order(
            working,
            DrainTask::Resume(then),
        ),
        DrainPhase::Notifying => lemma_advance_tells_in_order(working, DrainTask::Collect),
        _ => {},
    }
}

/// The notices among events, without the bytes.
pub open spec fn notices_of(events: Seq<PendingReadEvent>) -> Seq<DrainItem>
    decreases events.len(),
{
    if events.len() == 0 {
        Seq::empty()
    } else if events[0] is Data {
        notices_of(events.drop_first())
    } else {
        event_items(events[0]) + notices_of(events.drop_first())
    }
}

proof fn lemma_dropping_keeps_notices(d: DrainView, task: DrainTask)
    requires
        is_sane_task(d, task),
    ensures
        ({
            let (after, action) = advanced(d, task, true);
            &&& !(action is Deliver)
            &&& notices_of(d.taken) + notices_of(d.queue.events) == items_told(action) + (
            notices_of(after.taken) + notices_of(after.queue.events))
        }),
    decreases
            d.queue.events.len() + d.taken.len(),
            if d.taken.len() == 0 {
                1nat
            } else {
                0nat
            },
            if d.collected is Some {
                1nat
            } else {
                0nat
            },
            task_rank(task),
{
    let (after, action) = advanced(d, task, true);
    match task {
        DrainTask::Refill => {
            if d.queue.events.len() > 0 {
                let next = DrainView {
                    queue: QueueView { events: Seq::empty(), ..d.queue },
                    taken: d.queue.events,
                    ..d
                };
                lemma_dropping_keeps_notices(next, DrainTask::Collect);
                assert(notices_of(d.taken) + notices_of(d.queue.events) =~= notices_of(next.taken)
                    + notices_of(next.queue.events));
            } else {
                assert(notices_of(d.taken) + notices_of(d.queue.events) =~= items_told(action) + (
                notices_of(after.taken) + notices_of(after.queue.events)));
            }
        },
        DrainTask::Collect => {
            if d.taken.len() == 0 {
                lemma_dropping_keeps_notices(d, DrainTask::Flush(AfterFlush::Refill));
            } else if let PendingReadEvent::Data(data) = d.taken[0] {
                let rest = d.taken.drop_first();
                match d.collected {
                    None => lemma_dropping_keeps_notices(
                        DrainView { taken: rest, collected: Some(data@), ..d },
                        DrainTask::Collect,
                    ),
                    Some(sofar) => if sofar.len() + data@.len() <= MAX_PENDING_READ_COALESCE_BYTES {
                        lemma_dropping_keeps_notices(
                            DrainView { taken: rest, collected: Some(sofar + data@), ..d },
                            DrainTask::Collect,
                        );
                    } else {
                        lemma_dropping_keeps_notices(d, DrainTask::Flush(AfterFlush::Collect));
                    },
                }
            } else {
                lemma_dropping_keeps_notices(d, DrainTask::Flush(AfterFlush::Handle));
            }
        },
        DrainTask::Flush(then) => {
            lemma_dropping_keeps_notices(
                DrainView { collected: None, ..d },
                DrainTask::Resume(then),
            );
        },
        DrainTask::Resume(then) => {
            match then {
                AfterFlush::Refill => lemma_dropping_keeps_notices(d, DrainTask::Refill),
                AfterFlush::Collect => {
                    lemma_dropping_keeps_notices(
                        DrainView {
                            taken: d.taken.drop_first(),
                            collected: Some(d.taken[0]->Data_0@),
                            ..d
                        },
                        DrainTask::Collect,
                    );
                },
                AfterFlush::Handle => {
                    assert(notices_of(d.taken) == event_items(d.taken[0]) + notices_of(
                        d.taken.drop_first(),
                    ));
                    assert(notices_of(d.taken) + notices_of(d.queue.events) =~= items_told(action)
                        + (notices_of(after.taken) + notices_of(after.queue.events)));
                },
            }
        },
    }
}

/// A transport that is closing or lost hands no more data over, but the protocol still learns of
/// everything else, in order.
pub proof fn law_closing_transport_drops_data_alone(d: DrainView, event: DrainEvent)
    requires
        is_sane(d),
        goes_on(d, event),
    ensures
        ({
            let (after, action) = drain_step(d, event, true);
            &&& !(action is Deliver)
            &&& notices_of(d.taken) + notices_of(d.queue.events) == items_told(action) + (
            notices_of(after.taken) + notices_of(after.queue.events))
        }),
{
    let working = DrainView { phase: DrainPhase::Working, ..d };
    match d.phase {
        DrainPhase::Working => lemma_dropping_keeps_notices(d, DrainTask::Refill),
        DrainPhase::Delivering(then) => lemma_dropping_keeps_notices(
            working,
            DrainTask::Resume(then),
        ),
        DrainPhase::Notifying => lemma_dropping_keeps_notices(working, DrainTask::Collect),
        _ => {},
    }
}

/// A protocol that keeps the transport open after the end of the stream ends the drain; one that
/// does not has it closed and lost. A failure is reported for the method that raised, and what a
/// method for writing raises comes out. After a loss was told the drain is over.
pub proof fn law_protocol_decides_on_the_end(d: DrainView, raised: ObjectId, dropping: bool)
    ensures
        d.phase is AskingEof ==> {
            &&& drain_step(d, DrainEvent::Eof(true), dropping).1 is Finish
            &&& drain_step(d, DrainEvent::Eof(false), dropping).1 is CloseAndLose
            &&& drain_step(d, DrainEvent::Eof(false), dropping).0.phase is Concluding
            &&& drain_step(d, DrainEvent::Raised(raised), dropping).1
                == DrainActionView::ReportEofFailure(raised)
        },
        d.phase is Delivering ==> drain_step(d, DrainEvent::Raised(raised), dropping).1
            == DrainActionView::ReportDataFailure(raised) && drain_step(
            d,
            DrainEvent::Raised(raised),
            dropping,
        ).0.phase is Concluding,
        d.phase is Notifying ==> {
            let (after, action) = drain_step(d, DrainEvent::Raised(raised), dropping);
            &&& action == DrainActionView::Raise(raised)
            &&& after.taken.len() == 0
            &&& after.collected is None
            &&& after.phase is Working
            &&& after.queue == d.queue
        },
        d.phase is Concluding ==> {
            let (after, action) = drain_step(d, DrainEvent::Done, dropping);
            &&& action is Finish
            &&& after.taken.len() == 0
            &&& after.collected is None
            &&& !after.queue.scheduled
            &&& after.queue.events == d.queue.events
            &&& after.phase is Working
        },
{
}

/// An event waits behind the others. The loop is told of the first one after it looked, and of no
/// other, and is told again where it could not be.
pub proof fn law_loop_is_told_of_waiting_events_once(queue: QueueView, event: PendingReadEvent)
    ensures
        with_event(queue, event).events.len() == queue.events.len() + 1,
        with_event(queue, event).events.take(queue.events.len() as int) == queue.events,
        with_event(queue, event).events.last() == event,
        !must_tell(with_event(queue, event)),
        must_tell(untold(queue)),
        untold(queue).events == queue.events,
        must_tell(fresh_queue()),
        fresh_queue().events.len() == 0,
        must_tell(queue) <==> !queue.scheduled,
{
}

/// The library's own protocol comes first, then a reader that the protocol offers, then that of
/// asyncio's protocol and of no other; a reader that is not there is not used.
pub proof fn law_fast_path_prefers_the_native_reader(
    offered: Option<ObjectId>,
    is_asyncio: bool,
    asyncio: Option<ObjectId>,
    reader: ObjectId,
)
    ensures
        fast_path_of(true, offered, is_asyncio, asyncio) is Native,
        fast_path_of(false, Some(reader), is_asyncio, asyncio) == FastPathChoice::Generic(reader),
        fast_path_of(false, None, true, Some(reader)) == FastPathChoice::Generic(reader),
        fast_path_of(false, None, false, asyncio) is Absent,
        fast_path_of(false, None, is_asyncio, None) is Absent,
{
}

/// A new connection goes to the native protocol, or, where nothing has to be called, straight to the
/// reader and its protocol; a protocol whose callback is there, or cannot be looked at, is called.
pub proof fn law_fast_path_calls_back_where_needed(
    path: StreamReaderFastPath,
    callback: ClientCallback,
)
    ensures
        path matches StreamReaderFastPath::Native { protocol, reader } ==> fast_made(path, callback)
            == FastMadeStep::Native(protocol),
        path matches StreamReaderFastPath::Generic { owner, reader, buffer, limit } ==> {
            &&& fast_made(path, callback) is CallProtocol <==> owner is Some && (callback is Present
                || callback is Unreadable)
            &&& !(fast_made(path, callback) is CallProtocol) ==> fast_made(path, callback) == (
            FastMadeStep::Attach { reader, protocol: owner })
        },
{
}

/// A loss is told to the native protocol, or to a generic reader with its protocol and the exception
/// of the loss, or to nobody where there is no protocol. A mere end concerns the reader alone.
pub proof fn law_fast_path_tells_of_the_end(
    path: StreamReaderFastPath,
    exception: Option<ObjectId>,
)
    ensures
        path matches StreamReaderFastPath::Native { protocol, reader } ==> fast_lost(path, exception)
            == FastLostStep::Native(protocol) && fast_eof(path) is None,
        path matches StreamReaderFastPath::Generic { owner, reader, buffer, limit } ==> {
            &&& owner is None ==> fast_lost(path, exception) is Nobody
            &&& owner is Some ==> fast_lost(path, exception) == FastLostStep::Generic(
                GenericEnd { reader, protocol: owner, exception },
            )
            &&& fast_eof(path) == Some(GenericEnd { reader, protocol: None, exception: None })
        },
{
}

/// Data goes into a generic reader in this order: nothing at all for empty data, an error after the
/// end of the stream, else it is appended. Then whoever waits is woken, unless cancelled, and the
/// transport is looked at.
pub proof fn law_generic_feed_wakes_the_waiter(feed: GenericFeed, waiter: ObjectId, n: usize)
    ensures
        feed.data_len == 0 <==> feed_step(feed, FeedEvent::Begin).1 is Finish,
        feed.data_len > 0 <==> feed_step(feed, FeedEvent::Begin).1 is AskEof,
        feed_step(feed, FeedEvent::Eof(true)).1 is FailAfterEof,
        feed_step(feed, FeedEvent::Eof(false)).1 is Append,
        feed_step(feed, FeedEvent::Appended(n)).1 is AskWaiter,
        feed_step(feed, FeedEvent::Appended(n)).0.buffered == n,
        feed_step(feed, FeedEvent::Appended(n)).0.limit == feed.limit,
        feed_step(feed, FeedEvent::Waiter(Some(waiter))).1 == FeedAction::ClearWaiter(waiter),
        feed_step(feed, FeedEvent::Waiter(None)).1 is AskTransport,
        feed_step(feed, FeedEvent::WaiterCleared(waiter)).1 == FeedAction::AskCancelled(waiter),
        feed_step(feed, FeedEvent::Cancelled(waiter, false)).1 == FeedAction::Settle(
            FutureCall::SetNone(waiter),
        ),
        feed_step(feed, FeedEvent::Cancelled(waiter, true)).1 is AskTransport,
        feed_step(feed, FeedEvent::Settled).1 is AskTransport,
{
}

/// The transport of a generic reader is paused exactly when it reads and more than twice the limit
/// is buffered. One that was paused is marked, one that cannot be is let go of, and what it raises
/// comes out.
pub proof fn law_generic_feed_pauses_above_twice_the_limit(
    feed: GenericFeed,
    transport: ObjectId,
    paused: bool,
    raised: ObjectId,
)
    ensures
        ({
            let event = FeedEvent::Transport { transport: Some(transport), paused };
            &&& !paused && feed.buffered > 2 * feed.limit ==> feed_step(feed, event).1
                == FeedAction::PauseReading(transport)
            &&& paused || feed.buffered <= 2 * feed.limit ==> feed_step(feed, event).1 is Finish
        }),
        feed_step(feed, FeedEvent::Transport { transport: None, paused }).1 is Finish,
        feed_step(feed, FeedEvent::ReadingPaused).1 is MarkPaused,
        feed_step(feed, FeedEvent::PauseNotImplemented).1 is DropTransport,
        feed_step(feed, FeedEvent::Marked).1 is Finish,
        feed_step(feed, FeedEvent::Raised(raised)).1 == FeedAction::Raise(raised),
        feed_step(feed, FeedEvent::Raised(raised)).0 == feed,
{
}

/// Of the end of its stream a generic reader learns alone: it is marked, and whoever waits on it is
/// woken unless cancelled.
pub proof fn law_mere_end_concerns_the_reader(end: GenericEnd, waiter: ObjectId)
    requires
        end.protocol is None,
    ensures
        end_step(end, EndEvent::Begin) == (EndAction::MarkReader {
            reader: end.reader,
            exception: end.exception,
        }),
        end_step(end, EndEvent::ReaderMarked) is AskWaiter,
        end_step(end, EndEvent::Waiter(Some(waiter))) == EndAction::ClearWaiter(waiter),
        end_step(end, EndEvent::WaiterCleared(waiter)) == EndAction::AskCancelled(waiter),
        end.exception is None ==> end_step(end, EndEvent::Cancelled(waiter, false))
            == EndAction::Settle(FutureCall::SetNone(waiter)),
        end_step(end, EndEvent::Cancelled(waiter, true)) is Finish,
        end_step(end, EndEvent::Waiter(None)) is Finish,
        end_step(end, EndEvent::WaiterSettled) is Finish,
{
}

/// Of a loss the protocol is marked first, then its reader with the exception; then whoever waits on
/// the reader is settled, then the future of the end unless it is done, then, where writing is
/// paused, everyone in `drain`; at last the protocol lets its transport go. Each is settled with the
/// exception where there is one.
pub proof fn law_loss_reaches_the_generic_protocol(
    end: GenericEnd,
    protocol: ObjectId,
    future: ObjectId,
    raised: ObjectId,
)
    requires
        end.protocol == Some(protocol),
    ensures
        end_step(end, EndEvent::Begin) == EndAction::MarkLost(protocol),
        end_step(end, EndEvent::LostMarked) == (EndAction::MarkReader {
            reader: end.reader,
            exception: end.exception,
        }),
        end_step(end, EndEvent::ReaderMarked) is AskWaiter,
        end_step(end, EndEvent::Waiter(Some(future))) == EndAction::ClearWaiter(future),
        end_step(end, EndEvent::WaiterCleared(future)) == EndAction::AskCancelled(future),
        end.exception matches Some(exception) ==> end_step(end, EndEvent::Cancelled(future, false))
            == EndAction::Settle(FutureCall::SetException(future, exception)),
        end.exception is None ==> end_step(end, EndEvent::Cancelled(future, false))
            == EndAction::Settle(FutureCall::SetNone(future)),
        end_step(end, EndEvent::Waiter(None)) == EndAction::AskClosed(protocol),
        end_step(end, EndEvent::Cancelled(future, true)) == EndAction::AskClosed(protocol),
        end_step(end, EndEvent::WaiterSettled) == EndAction::AskClosed(protocol),
        end.exception matches Some(exception) ==> end_step(
            end,
            EndEvent::Closed { future, done: false },
        ) == EndAction::Settle(FutureCall::SetException(future, exception)),
        end.exception is None ==> end_step(end, EndEvent::Closed { future, done: false })
            == EndAction::Settle(FutureCall::SetNone(future)),
        end_step(end, EndEvent::Closed { future, done: true }) == EndAction::AskPaused(protocol),
        end_step(end, EndEvent::ClosedSettled) == EndAction::AskPaused(protocol),
        end_step(end, EndEvent::Paused(true)) == (EndAction::SettleDrainWaiters {
            protocol,
            exception: end.exception,
        }),
        end_step(end, EndEvent::Paused(false)) == EndAction::Forget(protocol),
        end_step(end, EndEvent::DrainWaitersSettled) == EndAction::Forget(protocol),
        end_step(end, EndEvent::Forgotten) is Finish,
        end_step(end, EndEvent::Raised(raised)) == EndAction::Raise(raised),
{
}

} // verus!
