//! What a transport's reader reports to the loop, and how the loop works it off.

use std::collections::VecDeque;
use vstd::prelude::*;
use crate::objects::ObjectId;

verus! {

/// Data of several reads is handed over at once, as long as it does not exceed this.
pub const MAX_PENDING_READ_COALESCE_BYTES: usize = 262_144;

/// Something that the loop has to tell the protocol.
pub enum PendingReadEvent {
    Data(Vec<u8>),
    Eof,
    ConnectionLost(Option<String>),
    PauseWriting,
    ResumeWriting,
}

/// The events that wait, and whether the loop knows that some do.
pub struct ReadEventQueue {
    events: VecDeque<PendingReadEvent>,
    scheduled: bool,
}

/// The model of `ReadEventQueue`.
#[verifier::ext_equal]
pub struct QueueView {
    pub events: Seq<PendingReadEvent>,
    pub scheduled: bool,
}

impl View for ReadEventQueue {
    type V = QueueView;

    closed spec fn view(&self) -> QueueView {
        QueueView { events: self.events@, scheduled: self.scheduled }
    }
}

/// Nothing waits.
pub open spec fn fresh_queue() -> QueueView {
    QueueView { events: Seq::empty(), scheduled: false }
}

/// The loop has to be told of the next event.
pub open spec fn must_tell(queue: QueueView) -> bool {
    !queue.scheduled
}

/// One more event waits, and the loop knows.
pub open spec fn with_event(queue: QueueView, event: PendingReadEvent) -> QueueView {
    QueueView { events: queue.events.push(event), scheduled: true }
}

/// The loop could not be told.
pub open spec fn untold(queue: QueueView) -> QueueView {
    QueueView { scheduled: false, ..queue }
}

impl ReadEventQueue {
    pub fn new() -> (queue: Self)
        ensures
            queue@ == fresh_queue(),
    {
        ReadEventQueue { events: VecDeque::new(), scheduled: false }
    }

    /// Adds an event. The result says that the loop has to be told; `schedule_failed` takes it back
    /// where that cannot be done.
    pub fn push(&mut self, event: PendingReadEvent) -> (tell: bool)
        ensures
            tell == must_tell(old(self)@),
            final(self)@ == with_event(old(self)@, event),
    {
        self.events.push_back(event);
        let tell = !self.scheduled;
        self.scheduled = true;
        tell
    }

    pub fn schedule_failed(&mut self)
        ensures
            final(self)@ == untold(old(self)@),
    {
        self.scheduled = false;
    }

    pub fn is_scheduled(&self) -> (scheduled: bool)
        ensures
            scheduled == self@.scheduled,
    {
        self.scheduled
    }

    pub fn len(&self) -> (len: usize)
        ensures
            len == self@.events.len(),
    {
        self.events.len()
    }

    fn take(&mut self) -> (events: VecDeque<PendingReadEvent>)
        ensures
            events@ == old(self)@.events,
            final(self)@ == (QueueView { events: Seq::empty(), ..old(self)@ }),
    {
        let mut events: VecDeque<PendingReadEvent> = VecDeque::new();
        core::mem::swap(&mut self.events, &mut events);
        events
    }
}

/// What follows when the collected data was handed over.
#[derive(Clone, Copy, PartialEq, Eq, Debug, Structural)]
pub enum AfterFlush {
    /// Look for new events.
    Refill,
    /// Go on with the event at the front, which is data again.
    Collect,
    /// Do what the event at the front asks for.
    Handle,
}

/// What the drain waits for.
#[derive(Clone, Copy, PartialEq, Eq, Debug, Structural)]
pub enum DrainPhase {
    Working,
    Delivering(AfterFlush),
    AskingEof,
    Notifying,
    Concluding,
}

/// What has to be done next.
pub enum DrainAction {
    /// Hand the data to the protocol.
    Deliver(Vec<u8>),
    /// Ask the protocol what it makes of the end of the stream.
    CallEofReceived,
    CallPauseWriting,
    CallResumeWriting,
    /// Report that `data_received` failed, then tell the protocol that the connection is lost.
    ReportDataFailure(ObjectId),
    /// Report that `eof_received` failed, then tell the protocol that the connection is lost.
    ReportEofFailure(ObjectId),
    /// Close the transport, then tell the protocol that the connection is lost.
    CloseAndLose,
    /// Tell the protocol that the connection is lost, for this reason.
    Lose(Option<String>),
    Finish,
    /// Let the exception through.
    Raise(ObjectId),
}

/// The model of `DrainAction`.
pub enum DrainActionView {
    Deliver(Seq<u8>),
    CallEofReceived,
    CallPauseWriting,
    CallResumeWriting,
    ReportDataFailure(ObjectId),
    ReportEofFailure(ObjectId),
    CloseAndLose,
    Lose(Option<Seq<char>>),
    Finish,
    Raise(ObjectId),
}

impl View for DrainAction {
    type V = DrainActionView;

    open spec fn view(&self) -> DrainActionView {
        match self {
            DrainAction::Deliver(data) => DrainActionView::Deliver(data@),
            DrainAction::CallEofReceived => DrainActionView::CallEofReceived,
            DrainAction::CallPauseWriting => DrainActionView::CallPauseWriting,
            DrainAction::CallResumeWriting => DrainActionView::CallResumeWriting,
            DrainAction::ReportDataFailure(raised) => DrainActionView::ReportDataFailure(*raised),
            DrainAction::ReportEofFailure(raised) => DrainActionView::ReportEofFailure(*raised),
            DrainAction::CloseAndLose => DrainActionView::CloseAndLose,
            DrainAction::Lose(reason) => DrainActionView::Lose(
                match reason {
                    Some(reason) => Some(reason@),
                    None => None,
                },
            ),
            DrainAction::Finish => DrainActionView::Finish,
            DrainAction::Raise(raised) => DrainActionView::Raise(*raised),
        }
    }
}

/// The message under which a failure is reported.
pub fn data_failure_message() -> (text: &'static str)
    ensures
        text@ == "stream data_received callback failed"@,
{
    "stream data_received callback failed"
}

/// The message under which a failure is reported.
pub fn eof_failure_message() -> (text: &'static str)
    ensures
        text@ == "stream eof_received callback failed"@,
{
    "stream eof_received callback failed"
}

/// What came of the action before.
#[derive(Clone, Copy, PartialEq, Eq, Debug, Structural)]
pub enum DrainEvent {
    Begin,
    /// The action was done.
    Done,
    /// What the protocol makes of the end of the stream: it keeps the transport open, or not.
    Eof(bool),
    Raised(ObjectId),
}

/// The model of a drain, with the queue that it works off.
#[verifier::ext_equal]
pub struct DrainView {
    pub queue: QueueView,
    /// Events that were taken from the queue.
    pub taken: Seq<PendingReadEvent>,
    /// Data that was collected and not handed over.
    pub collected: Option<Seq<u8>>,
    pub phase: DrainPhase,
}

/// What the drain is about to do.
#[derive(Clone, Copy, PartialEq, Eq, Debug, Structural)]
pub enum DrainTask {
    Refill,
    Resume(AfterFlush),
    Flush(AfterFlush),
    Collect,
}

pub open spec fn task_rank(task: DrainTask) -> nat {
    match task {
        DrainTask::Refill => 0,
        DrainTask::Resume(_) => 1,
        DrainTask::Flush(_) => 2,
        DrainTask::Collect => 3,
    }
}

/// An action that a step ends in.
pub open spec fn ends(d: DrainView, phase: DrainPhase, action: DrainActionView) -> (
    DrainView,
    DrainActionView,
) {
    (DrainView { phase, ..d }, action)
}

/// Goes on until something has to be done outside. Data is dropped where the transport is closing
/// or lost.
pub open spec fn advanced(d: DrainView, task: DrainTask, dropping: bool) -> (
    DrainView,
    DrainActionView,
)
    decreases
            d.queue.events.len() + d.taken.len(),
            if d.taken.len() == 0 {
                1nat
            } else {
                0nat
            },
            if d.collected is Some {
                1nat
            } else {
                0nat
            },
            task_rank(task),
{
    match task {
        DrainTask::Refill => if d.queue.events.len() == 0 {
            ends(
                DrainView { queue: QueueView { scheduled: false, ..d.queue }, ..d },
                DrainPhase::Working,
                DrainActionView::Finish,
            )
        } else if d.taken.len() == 0 {
            advanced(
                DrainView {
                    queue: QueueView { events: Seq::empty(), ..d.queue },
                    taken: d.queue.events,
                    ..d
                },
                DrainTask::Collect,
                dropping,
            )
        } else {
            ends(d, DrainPhase::Working, DrainActionView::Finish)
        },
        DrainTask::Collect => if d.taken.len() == 0 {
            advanced(d, DrainTask::Flush(AfterFlush::Refill), dropping)
        } else {
            match d.taken[0] {
                PendingReadEvent::Data(data) => {
                    let rest = d.taken.drop_first();
                    match d.collected {
                        None => advanced(
                            DrainView { taken: rest, collected: Some(data@), ..d },
                            DrainTask::Collect,
                            dropping,
                        ),
                        Some(sofar) => if sofar.len() + data@.len()
                            <= MAX_PENDING_READ_COALESCE_BYTES {
                            advanced(
                                DrainView { taken: rest, collected: Some(sofar + data@), ..d },
                                DrainTask::Collect,
                                dropping,
                            )
                        } else {
                            advanced(d, DrainTask::Flush(AfterFlush::Collect), dropping)
                        },
                    }
                },
                _ => advanced(d, DrainTask::Flush(AfterFlush::Handle), dropping),
            }
        },
        DrainTask::Flush(after) => match d.collected {
            None => advanced(d, DrainTask::Resume(after), dropping),
            Some(data) => if dropping {
                advanced(DrainView { collected: None, ..d }, DrainTask::Resume(after), dropping)
            } else {
                ends(
                    DrainView { collected: None, ..d },
                    DrainPhase::Delivering(after),
                    DrainActionView::Deliver(data),
                )
            },
        },
        DrainTask::Resume(after) => match after {
            AfterFlush::Refill => advanced(d, DrainTask::Refill, dropping),
            AfterFlush::Collect => if d.taken.len() > 0 && d.taken[0] is Data && d.collected is None {
                advanced(
                    DrainView {
                        taken: d.taken.drop_first(),
                        collected: Some(d.taken[0]->Data_0@),
                        ..d
                    },
                    DrainTask::Collect,
                    dropping,
                )
            } else {
                ends(d, DrainPhase::Working, DrainActionView::Finish)
            },
            AfterFlush::Handle => if d.taken.len() > 0 {
                handled(DrainView { taken: d.taken.drop_first(), ..d }, d.taken[0])
            } else {
                ends(d, DrainPhase::Working, DrainActionView::Finish)
            },
        },
    }
}

/// What an event that is not data asks for.
pub open spec fn handled(d: DrainView, event: PendingReadEvent) -> (DrainView, DrainActionView) {
    match event {
        PendingReadEvent::Eof => ends(d, DrainPhase::AskingEof, DrainActionView::CallEofReceived),
        PendingReadEvent::ConnectionLost(reason) => ends(
            d,
            DrainPhase::Concluding,
            DrainActionView::Lose(
                match reason {
                    Some(reason) => Some(reason@),
                    None => None,
                },
            ),
        ),
        PendingReadEvent::PauseWriting => ends(
            d,
            DrainPhase::Notifying,
            DrainActionView::CallPauseWriting,
        ),
        PendingReadEvent::ResumeWriting => ends(
            d,
            DrainPhase::Notifying,
            DrainActionView::CallResumeWriting,
        ),
        PendingReadEvent::Data(_) => ends(d, DrainPhase::Working, DrainActionView::Finish),
    }
}

/// The drain is over: what it took and did not get to is dropped.
pub open spec fn concluded(d: DrainView) -> DrainView {
    DrainView {
        queue: QueueView { scheduled: false, ..d.queue },
        taken: Seq::empty(),
        collected: None,
        phase: DrainPhase::Working,
    }
}

/// One step of a drain. An answer to a question that was not asked ends it.
pub open spec fn drain_step(d: DrainView, event: DrainEvent, dropping: bool) -> (
    DrainView,
    DrainActionView,
) {
    match (d.phase, event) {
        (DrainPhase::Working, DrainEvent::Begin) => advanced(d, DrainTask::Refill, dropping),
        (DrainPhase::Delivering(after), DrainEvent::Done) => advanced(
            DrainView { phase: DrainPhase::Working, ..d },
            DrainTask::Resume(after),
            dropping,
        ),
        (DrainPhase::Delivering(_), DrainEvent::Raised(raised)) => ends(
            d,
            DrainPhase::Concluding,
            DrainActionView::ReportDataFailure(raised),
        ),
        (DrainPhase::AskingEof, DrainEvent::Eof(true)) => (
            concluded(d),
            DrainActionView::Finish,
        ),
        (DrainPhase::AskingEof, DrainEvent::Eof(false)) => ends(
            d,
            DrainPhase::Concluding,
            DrainActionView::CloseAndLose,
        ),
        (DrainPhase::AskingEof, DrainEvent::Raised(raised)) => ends(
            d,
            DrainPhase::Concluding,
            DrainActionView::ReportEofFailure(raised),
        ),
        (DrainPhase::Notifying, DrainEvent::Done) => advanced(
            DrainView { phase: DrainPhase::Working, ..d },
            DrainTask::Collect,
            dropping,
        ),
        (DrainPhase::Notifying, DrainEvent::Raised(raised)) => (
            DrainView {
                taken: Seq::empty(),
                collected: None,
                phase: DrainPhase::Working,
                ..d
            },
            DrainActionView::Raise(raised),
        ),
        _ => (concluded(d), DrainActionView::Finish),
    }
}

/// Works the events of a transport off: tells the protocol of each in turn, with the data of
/// several reads put together.
pub struct ReadDrain {
    taken: VecDeque<PendingReadEvent>,
    collected: Option<Vec<u8>>,
    phase: DrainPhase,
}

impl ReadDrain {
    pub closed spec fn spec_taken(&self) -> Seq<PendingReadEvent> {
        self.taken@
    }

    pub closed spec fn spec_collected(&self) -> Option<Seq<u8>> {
        match self.collected {
            Some(data) => Some(data@),
            None => None,
        }
    }

    pub closed spec fn spec_phase(&self) -> DrainPhase {
        self.phase
    }

    /// The drain together with the queue that it works off.
    pub open spec fn on(&self, queue: QueueView) -> DrainView {
        DrainView {
            queue,
            taken: self.spec_taken(),
            collected: self.spec_collected(),
            phase: self.spec_phase(),
        }
    }

    pub fn new() -> (drain: Self)
        ensures
            forall|queue: QueueView| #[trigger]
                drain.on(queue) == (DrainView {
                    queue,
                    taken: Seq::empty(),
                    collected: None,
                    phase: DrainPhase::Working,
                }),
    {
        ReadDrain { taken: VecDeque::new(), collected: None, phase: DrainPhase::Working }
    }

    fn conclude(&mut self, queue: &mut ReadEventQueue)
        ensures
            final(self).on(final(queue)@) == concluded(old(self).on(old(queue)@)),
    {
        queue.schedule_failed();
        self.taken.clear();
        self.collected = None;
        self.phase = DrainPhase::Working;
    }

    /// Does what an event that is not data asks for.
    fn handle(&mut self, event: PendingReadEvent) -> (action: DrainAction)
        ensures
            forall|queue: QueueView|
                (#[trigger] final(self).on(queue), action@) == handled(old(self).on(queue), event),
    {
        match event {
            PendingReadEvent::Eof => {
                self.phase = DrainPhase::AskingEof;
                DrainAction::CallEofReceived
            },
            PendingReadEvent::ConnectionLost(reason) => {
                self.phase = DrainPhase::Concluding;
                DrainAction::Lose(reason)
            },
            PendingReadEvent::PauseWriting => {
                self.phase = DrainPhase::Notifying;
                DrainAction::CallPauseWriting
            },
            PendingReadEvent::ResumeWriting => {
                self.phase = DrainPhase::Notifying;
                DrainAction::CallResumeWriting
            },
            PendingReadEvent::Data(_) => {
                self.phase = DrainPhase::Working;
                DrainAction::Finish
            },
        }
    }

    /// The length of the data at the front, if there is data.
    fn front_data_len(&self) -> (len: Option<usize>)
        requires
            self.taken@.len() > 0,
        ensures
            len == match self.taken@[0] {
                PendingReadEvent::Data(data) => Some(data@.len() as usize),
                _ => None,
            },
            len matches Some(len) ==> self.taken@[0] is Data && len == self.taken@[0]->Data_0@.len(),
    {
        match &self.taken[0] {
            PendingReadEvent::Data(data) => Some(data.len()),
            _ => None,
        }
    }

    /// Adds the data at the front to what was collected.
    fn collect_front(&mut self)
        requires
            old(self).taken@.len() > 0,
            old(self).taken@[0] is Data,
        ensures
            final(self).taken@ == old(self).taken@.drop_first(),
            final(self).phase == old(self).phase,
            final(self).collected is Some,
            final(self).collected.unwrap()@ == match old(self).collected {
                Some(sofar) => sofar@ + old(self).taken@[0]->Data_0@,
                None => old(self).taken@[0]->Data_0@,
            },
    {
        let front = self.taken.pop_front();
        assert(self.taken@ =~= old(self).taken@.drop_first());
        if let Some(PendingReadEvent::Data(data)) = front {
            let mut sofar: Option<Vec<u8>> = None;
            core::mem::swap(&mut self.collected, &mut sofar);
            match sofar {
                Some(mut all) => {
                    let ghost before = all@;
                    all.extend_from_slice(data.as_slice());
                    assert(all@ =~= before + data@);
                    self.collected = Some(all);
                },
                None => {
                    self.collected = Some(data);
                },
            }
        }
    }

    fn advance(&mut self, queue: &mut ReadEventQueue, first: DrainTask, dropping: bool) -> (action:
        DrainAction)
        ensures
            (final(self).on(final(queue)@), action@) == advanced(
                old(self).on(old(queue)@),
                first,
                dropping,
            ),
    {
        let ghost start = self.on(queue@);
        let mut task = first;
        loop
            invariant
                start == old(self).on(old(queue)@),
                advanced(self.on(queue@), task, dropping) == advanced(start, first, dropping),
            decreases
                    queue@.events.len() + self.taken@.len(),
                    if self.taken@.len() == 0 {
                        1nat
                    } else {
                        0nat
                    },
                    if self.collected is Some {
                        1nat
                    } else {
                        0nat
                    },
                    task_rank(task),
        {
            let ghost before = self.on(queue@);
            match task {
                DrainTask::Refill => {
                    if queue.len() == 0 {
                        queue.schedule_failed();
                        self.phase = DrainPhase::Working;
                        return DrainAction::Finish;
                    }
                    if self.taken.len() > 0 {
                        self.phase = DrainPhase::Working;
                        return DrainAction::Finish;
                    }
                    self.taken = queue.take();
                    task = DrainTask::Collect;
                },
                DrainTask::Collect => {
                    if self.taken.len() == 0 {
                        task = DrainTask::Flush(AfterFlush::Refill);
                    } else {
                        match self.front_data_len() {
                            Some(len) => {
                                let fits = match &self.collected {
                                    None => true,
                                    Some(sofar) => sofar.len() <= MAX_PENDING_READ_COALESCE_BYTES
                                        && len <= MAX_PENDING_READ_COALESCE_BYTES - sofar.len(),
                                };
                                if fits {
                                    self.collect_front();
                                } else {
                                    task = DrainTask::Flush(AfterFlush::Collect);
                                }
                            },
                            None => {
                                task = DrainTask::Flush(AfterFlush::Handle);
                            },
                        }
                    }
                },
                DrainTask::Flush(after) => {
                    let mut collected: Option<Vec<u8>> = None;
                    core::mem::swap(&mut self.collected, &mut collected);
                    match collected {
                        Some(data) if !dropping => {
                            self.phase = DrainPhase::Delivering(after);
                            return DrainAction::Deliver(data);
                        },
                        _ => {
                            task = DrainTask::Resume(after);
                        },
                    }
                },
                DrainTask::Resume(after) => {
                    match after {
                        AfterFlush::Refill => {
                            task = DrainTask::Refill;
                        },
                        AfterFlush::Collect => {
                            if self.taken.len() > 0 && self.collected.is_none()
                                && self.front_data_len().is_some() {
                                self.collect_front();
                                task = DrainTask::Collect;
                            } else {
                                self.phase = DrainPhase::Working;
                                return DrainAction::Finish;
                            }
                        },
                        AfterFlush::Handle => {
                            match self.taken.pop_front() {
                                Some(event) => {
                                    assert(self.on(queue@) =~= (DrainView {
                                        taken: before.taken.drop_first(),
                                        ..before
                                    }));
                                    return self.handle(event);
                                },
                                None => {
                                    self.phase = DrainPhase::Working;
                                    return DrainAction::Finish;
                                },
                            }
                        },
                    }
                },
            }
        }
    }

    /// Takes what came of the action before and says what to do next. `dropping` says that the
    /// transport is closing or lost.
    pub fn step(&mut self, queue: &mut ReadEventQueue, event: DrainEvent, dropping: bool) -> (action:
        DrainAction)
        ensures
            (final(self).on(final(queue)@), action@) == drain_step(
                old(self).on(old(queue)@),
                event,
                dropping,
            ),
    {
        match (self.phase, event) {
            (DrainPhase::Working, DrainEvent::Begin) => self.advance(
                queue,
                DrainTask::Refill,
                dropping,
            ),
            (DrainPhase::Delivering(after), DrainEvent::Done) => {
                self.phase = DrainPhase::Working;
                self.advance(queue, DrainTask::Resume(after), dropping)
            },
            (DrainPhase::Delivering(_), DrainEvent::Raised(raised)) => {
                self.phase = DrainPhase::Concluding;
                DrainAction::ReportDataFailure(raised)
            },
            (DrainPhase::AskingEof, DrainEvent::Eof(keep_open)) => {
                if keep_open {
                    self.conclude(queue);
                    DrainAction::Finish
                } else {
                    self.phase = DrainPhase::Concluding;
                    DrainAction::CloseAndLose
                }
            },
            (DrainPhase::AskingEof, DrainEvent::Raised(raised)) => {
                self.phase = DrainPhase::Concluding;
                DrainAction::ReportEofFailure(raised)
            },
            (DrainPhase::Notifying, DrainEvent::Done) => {
                self.phase = DrainPhase::Working;
                self.advance(queue, DrainTask::Collect, dropping)
            },
            (DrainPhase::Notifying, DrainEvent::Raised(raised)) => {
                self.taken.clear();
                self.collected = None;
                self.phase = DrainPhase::Working;
                DrainAction::Raise(raised)
            },
            _ => {
                self.conclude(queue);
                DrainAction::Finish
            },
        }
    }
}

} // verus!
