//! The protocol that joins a stream reader and a stream writer to a transport.

use std::collections::VecDeque;
use vstd::prelude::*;
use crate::objects::ObjectId;
use crate::stream_reader::{fresh_reader, PyFastStreamReader, ReaderError};

verus! {

/// The exception of a `drain` on a connection that is gone.
pub fn connection_lost_message() -> (text: &'static str)
    ensures
        text@ == "Connection lost"@,
{
    "Connection lost"
}

/// A call that settles a future.
#[derive(Clone, Copy, PartialEq, Eq, Debug, Structural)]
pub enum FutureCall {
    /// `set_result(None)`
    SetNone(ObjectId),
    SetException(ObjectId, ObjectId),
}

/// The call that settles `future`: with the exception, or with `None` where there is none.
pub open spec fn settling_call(future: ObjectId, exception: Option<ObjectId>) -> FutureCall {
    match exception {
        Some(exception) => FutureCall::SetException(future, exception),
        None => FutureCall::SetNone(future),
    }
}

/// The call for one who waits, unless the future is done already.
pub open spec fn waiter_call(
    future: ObjectId,
    done: bool,
    exception: Option<ObjectId>,
) -> Option<FutureCall> {
    if done {
        None
    } else {
        Some(settling_call(future, exception))
    }
}

/// The call for one who waits in `drain`: none where the future is done already.
pub fn settle_drain_waiter(future: ObjectId, done: bool, exception: Option<ObjectId>) -> (call:
    Option<FutureCall>)
    ensures
        call == waiter_call(future, done, exception),
{
    if done {
        return None;
    }
    match exception {
        Some(exception) => Some(FutureCall::SetException(future, exception)),
        None => Some(FutureCall::SetNone(future)),
    }
}

/// How `drain` goes on.
#[derive(Clone, Copy, PartialEq, Eq, Debug, Structural)]
pub enum DrainStep {
    /// Return a fresh future that holds this exception.
    Failed(ObjectId),
    /// Return a fresh future that holds a `ConnectionResetError`.
    ConnectionLost,
    /// Return this future, which is done.
    Ready(ObjectId),
    /// Create a future and hand it to `push_drain_waiter`.
    Wait,
}

/// The model of the protocol.
#[verifier::ext_equal]
pub struct ProtocolView {
    pub loop_obj: ObjectId,
    pub reader: ObjectId,
    pub client_connected_cb: Option<ObjectId>,
    pub transport: Option<ObjectId>,
    pub task: Option<ObjectId>,
    pub closed: ObjectId,
    pub ready_none: ObjectId,
    pub paused: bool,
    pub drain_waiters: Seq<ObjectId>,
    pub connection_lost: bool,
}

/// What `drain` does, by the exception that the reader holds.
pub open spec fn drained(v: ProtocolView, reader_exception: Option<ObjectId>) -> DrainStep {
    match reader_exception {
        Some(exception) => DrainStep::Failed(exception),
        None => if v.connection_lost {
            DrainStep::ConnectionLost
        } else if !v.paused {
            DrainStep::Ready(v.ready_none)
        } else {
            DrainStep::Wait
        },
    }
}

/// A protocol without a connection.
pub open spec fn fresh_protocol(
    loop_obj: ObjectId,
    reader: ObjectId,
    client_connected_cb: Option<ObjectId>,
    closed: ObjectId,
    ready_none: ObjectId,
) -> ProtocolView {
    ProtocolView {
        loop_obj,
        reader,
        client_connected_cb,
        transport: None,
        task: None,
        closed,
        ready_none,
        paused: false,
        drain_waiters: Seq::empty(),
        connection_lost: false,
    }
}

/// One more waits in `drain`.
pub open spec fn with_drain_waiter(v: ProtocolView, future: ObjectId) -> ProtocolView {
    ProtocolView { drain_waiters: v.drain_waiters.push(future), ..v }
}

/// Nobody waits in `drain` any more.
pub open spec fn without_drain_waiters(v: ProtocolView) -> ProtocolView {
    ProtocolView { drain_waiters: Seq::empty(), ..v }
}

/// Those who wait in `drain` are to be settled.
pub open spec fn drain_run(v: ProtocolView, exception: Option<ObjectId>) -> DrainRunView {
    DrainRunView { waiting: v.drain_waiters, exception }
}

/// Writing has to stop for now.
pub open spec fn writing_paused(v: ProtocolView) -> ProtocolView {
    ProtocolView { paused: true, ..v }
}

/// Writing may go on.
pub open spec fn writing_resumed(v: ProtocolView) -> ProtocolView {
    ProtocolView { paused: false, drain_waiters: Seq::empty(), ..v }
}

/// The protocol has a connection.
pub open spec fn with_connection(v: ProtocolView, transport: ObjectId) -> ProtocolView {
    ProtocolView { transport: Some(transport), ..v }
}

/// What the handling of a new connection works on.
pub open spec fn connection_made(v: ProtocolView, transport: ObjectId) -> ConnectionMade {
    ConnectionMade { transport, reader: v.reader, callback: v.client_connected_cb }
}

/// The callback's coroutine became a task.
pub open spec fn with_task(v: ProtocolView, task: ObjectId) -> ProtocolView {
    ProtocolView { task: Some(task), ..v }
}

/// The connection is lost.
pub open spec fn with_loss(v: ProtocolView) -> ProtocolView {
    ProtocolView { connection_lost: true, ..v }
}

/// What the handling of a lost connection works on.
pub open spec fn connection_lost(v: ProtocolView, exception: Option<ObjectId>) -> ConnectionLost {
    ConnectionLost { closed: v.closed, exception }
}

/// The protocol let its connection go.
pub open spec fn without_connection(v: ProtocolView) -> ProtocolView {
    ProtocolView { transport: None, task: None, ..v }
}

pub struct PyFastStreamProtocol {
    loop_obj: ObjectId,
    reader: ObjectId,
    client_connected_cb: Option<ObjectId>,
    transport: Option<ObjectId>,
    task: Option<ObjectId>,
    closed: ObjectId,
    ready_none: ObjectId,
    paused: bool,
    drain_waiters: VecDeque<ObjectId>,
    connection_lost: bool,
}

impl View for PyFastStreamProtocol {
    type V = ProtocolView;

    closed spec fn view(&self) -> ProtocolView {
        ProtocolView {
            loop_obj: self.loop_obj,
            reader: self.reader,
            client_connected_cb: self.client_connected_cb,
            transport: self.transport,
            task: self.task,
            closed: self.closed,
            ready_none: self.ready_none,
            paused: self.paused,
            drain_waiters: self.drain_waiters@,
            connection_lost: self.connection_lost,
        }
    }
}

impl PyFastStreamProtocol {
    /// `closed` is a fresh future; `ready_none` is one that was resolved with `None`.
    pub fn new_with_loop(
        loop_obj: ObjectId,
        reader: ObjectId,
        client_connected_cb: Option<ObjectId>,
        closed: ObjectId,
        ready_none: ObjectId,
    ) -> (protocol: Self)
        ensures
            protocol@ == fresh_protocol(loop_obj, reader, client_connected_cb, closed, ready_none),
    {
        PyFastStreamProtocol {
            loop_obj,
            reader,
            client_connected_cb,
            transport: None,
            task: None,
            closed,
            ready_none,
            paused: false,
            drain_waiters: VecDeque::new(),
            connection_lost: false,
        }
    }

    pub fn has_client_connected_cb(&self) -> (has: bool)
        ensures
            has == self@.client_connected_cb is Some,
    {
        self.client_connected_cb.is_some()
    }

    pub fn reader_ref(&self) -> (reader: ObjectId)
        ensures
            reader == self@.reader,
    {
        self.reader
    }

    pub fn closed_future(&self) -> (closed: ObjectId)
        ensures
            closed == self@.closed,
    {
        self.closed
    }

    pub fn transport(&self) -> (transport: Option<ObjectId>)
        ensures
            transport == self@.transport,
    {
        self.transport
    }

    pub fn task(&self) -> (task: Option<ObjectId>)
        ensures
            task == self@.task,
    {
        self.task
    }

    /// Decides what `drain` returns.
    pub fn build_drain_future(&self, reader_exception: Option<ObjectId>) -> (step: DrainStep)
        ensures
            step == drained(self@, reader_exception),
    {
        if let Some(exception) = reader_exception {
            return DrainStep::Failed(exception);
        }
        if self.connection_lost {
            return DrainStep::ConnectionLost;
        }
        if !self.paused {
            return DrainStep::Ready(self.ready_none);
        }
        DrainStep::Wait
    }

    pub fn push_drain_waiter(&mut self, future: ObjectId)
        ensures
            final(self)@ == with_drain_waiter(old(self)@, future),
    {
        self.drain_waiters.push_back(future);
    }

    /// Starts to settle everyone who waits in `drain`. From here on nobody waits, whatever becomes
    /// of the run.
    pub fn resolve_drain_waiters(&mut self, exception: Option<ObjectId>) -> (run: DrainRun)
        ensures
            final(self)@ == without_drain_waiters(old(self)@),
            run@ == drain_run(old(self)@, exception),
    {
        let mut waiting: VecDeque<ObjectId> = VecDeque::new();
        core::mem::swap(&mut self.drain_waiters, &mut waiting);
        DrainRun { waiting, exception }
    }

    pub fn pause_writing(&mut self)
        ensures
            final(self)@ == writing_paused(old(self)@),
    {
        self.paused = true;
    }

    pub fn resume_writing(&mut self) -> (run: DrainRun)
        ensures
            final(self)@ == writing_resumed(old(self)@),
            run@ == drain_run(old(self)@, None),
    {
        self.paused = false;
        self.resolve_drain_waiters(None)
    }

    /// Starts to handle a new connection.
    pub fn handle_connection_made(&mut self, transport: ObjectId) -> (run: ConnectionMade)
        ensures
            final(self)@ == with_connection(old(self)@, transport),
            run == connection_made(old(self)@, transport),
    {
        self.transport = Some(transport);
        ConnectionMade { transport, reader: self.reader, callback: self.client_connected_cb }
    }

    /// The callback's coroutine became a task.
    pub fn set_task(&mut self, task: ObjectId)
        ensures
            final(self)@ == with_task(old(self)@, task),
    {
        self.task = Some(task);
    }

    /// Starts to handle the loss of the connection.
    pub fn handle_connection_lost(&mut self, exception: Option<ObjectId>) -> (run: ConnectionLost)
        ensures
            final(self)@ == with_loss(old(self)@),
            run == connection_lost(old(self)@, exception),
    {
        self.connection_lost = true;
        ConnectionLost { closed: self.closed, exception }
    }

    /// The last step of a loss that was handled without an error.
    pub fn forget_connection(&mut self)
        ensures
            final(self)@ == without_connection(old(self)@),
    {
        self.transport = None;
        self.task = None;
    }
}

/// What is left to do when `drain` waiters are settled.
#[verifier::ext_equal]
pub struct DrainRunView {
    pub waiting: Seq<ObjectId>,
    pub exception: Option<ObjectId>,
}

/// The future that has to be asked next.
pub open spec fn asked_next(run: DrainRunView) -> Option<ObjectId> {
    if run.waiting.len() > 0 {
        Some(run.waiting[0])
    } else {
        None
    }
}

/// What is left after that future answered, and the call that has to follow.
pub open spec fn after_answer(run: DrainRunView, done: bool) -> (DrainRunView, Option<FutureCall>) {
    (
        DrainRunView { waiting: run.waiting.drop_first(), ..run },
        waiter_call(run.waiting[0], done, run.exception),
    )
}

/// Settles the futures of those who wait in `drain`, one after the other: ask whether the future is
/// done, and if it is not, settle it.
pub struct DrainRun {
    waiting: VecDeque<ObjectId>,
    exception: Option<ObjectId>,
}

impl View for DrainRun {
    type V = DrainRunView;

    closed spec fn view(&self) -> DrainRunView {
        DrainRunView { waiting: self.waiting@, exception: self.exception }
    }
}

impl DrainRun {
    /// The future that has to be asked next.
    pub fn next(&self) -> (future: Option<ObjectId>)
        ensures
            future == asked_next(self@),
    {
        if self.waiting.len() > 0 {
            Some(self.waiting[0])
        } else {
            None
        }
    }

    /// What that future answered, and the call that has to follow.
    pub fn answered(&mut self, done: bool) -> (call: Option<FutureCall>)
        requires
            old(self)@.waiting.len() > 0,
        ensures
            (final(self)@, call) == after_answer(old(self)@, done),
    {
        let asked = self.waiting.pop_front();
        assert(self.waiting@ =~= old(self)@.waiting.drop_first());
        match asked {
            Some(future) => settle_drain_waiter(future, done, self.exception),
            None => None,
        }
    }
}

/// The calls that a run makes when the futures answer `done` in turn.
pub open spec fn drain_calls(run: DrainRunView, done: Seq<bool>) -> Seq<FutureCall>
    decreases run.waiting.len(),
{
    if run.waiting.len() == 0 {
        Seq::empty()
    } else {
        let (left, call) = after_answer(run, done[0]);
        let rest = if left.waiting.len() < run.waiting.len() {
            drain_calls(left, done.drop_first())
        } else {
            Seq::empty()
        };
        match call {
            Some(call) => seq![call] + rest,
            None => rest,
        }
    }
}

/// How many of the futures before the one at `i` answered no.
pub open spec fn open_before(done: Seq<bool>, i: int) -> nat
    decreases i,
{
    if i <= 0 {
        0
    } else {
        open_before(done, i - 1) + if done[i - 1] {
            0nat
        } else {
            1nat
        }
    }
}

/// Leaving the first answer out moves the count by what it adds.
proof fn lemma_open_before_rest(done: Seq<bool>, i: int)
    requires
        0 <= i < done.len(),
    ensures
        open_before(done, i + 1) == open_before(done.drop_first(), i) + if done[0] {
            0nat
        } else {
            1nat
        },
    decreases i,
{
    if i > 0 {
        lemma_open_before_rest(done, i - 1);
        assert(done.drop_first()[i - 1] == done[i]);
    } else {
        assert(open_before(done, 0) == 0);
    }
}

/// Everyone who waits is settled exactly once and in order, but for those who are done already: the
/// call for a future that answered no stands behind those for the earlier ones that did, and there
/// are no other calls.
pub proof fn law_drain_settles_everyone_who_waits(run: DrainRunView, done: Seq<bool>)
    requires
        done.len() == run.waiting.len(),
    ensures
        drain_calls(run, done).len() == open_before(done, done.len() as int),
        forall|i: int|
            0 <= i < done.len() && !#[trigger] done[i] ==> open_before(done, i) < drain_calls(
                run,
                done,
            ).len() && drain_calls(run, done)[open_before(done, i) as int] == settling_call(
                run.waiting[i],
                run.exception,
            ),
    decreases done.len(),
{
    if done.len() > 0 {
        let later = DrainRunView { waiting: run.waiting.drop_first(), ..run };
        law_drain_settles_everyone_who_waits(later, done.drop_first());
        let rest = drain_calls(later, done.drop_first());
        let calls = drain_calls(run, done);
        lemma_open_before_rest(done, done.len() - 1);
        assert forall|i: int| 0 <= i < done.len() && !#[trigger] done[i] implies open_before(done, i)
            < calls.len() && calls[open_before(done, i) as int] == settling_call(
            run.waiting[i],
            run.exception,
        ) by {
            if i > 0 {
                assert(!done.drop_first()[i - 1]);
                lemma_open_before_rest(done, i - 1);
            }
        }
    }
}

/// What happens next when a connection was made.
#[derive(Clone, Copy, PartialEq, Eq, Debug, Structural)]
pub enum MadeAction {
    /// Hand the transport to the reader.
    AttachReader { reader: ObjectId, transport: ObjectId },
    /// Create a writer and call the callback with the reader and it.
    CallClient { callback: ObjectId, reader: ObjectId },
    /// Ask whether the callback returned a coroutine.
    AskCoroutine(ObjectId),
    /// Make a task of it.
    CreateTask(ObjectId),
    /// Keep the task, and add the done callback.
    KeepTask { task: ObjectId, transport: ObjectId },
    Finish,
    /// Let the exception through.
    Fail(ObjectId),
}

/// What came of the action before.
#[derive(Clone, Copy, PartialEq, Eq, Debug, Structural)]
pub enum MadeEvent {
    Begin,
    ReaderAttached,
    ClientReturned(ObjectId),
    /// Whether the object that the callback returned is a coroutine.
    Coroutine(ObjectId, bool),
    TaskCreated(ObjectId),
    TaskKept,
    Raised(ObjectId),
}

/// The handling of a new connection.
#[derive(Clone, Copy, PartialEq, Eq, Debug, Structural)]
pub struct ConnectionMade {
    pub transport: ObjectId,
    pub reader: ObjectId,
    pub callback: Option<ObjectId>,
}

/// One step of handling a new connection.
pub open spec fn made_step(run: ConnectionMade, event: MadeEvent) -> MadeAction {
    match event {
        MadeEvent::Begin => MadeAction::AttachReader {
            reader: run.reader,
            transport: run.transport,
        },
        MadeEvent::ReaderAttached => match run.callback {
            Some(callback) => MadeAction::CallClient { callback, reader: run.reader },
            None => MadeAction::Finish,
        },
        MadeEvent::ClientReturned(result) => MadeAction::AskCoroutine(result),
        MadeEvent::Coroutine(result, true) => MadeAction::CreateTask(result),
        MadeEvent::Coroutine(_, false) => MadeAction::Finish,
        MadeEvent::TaskCreated(task) => MadeAction::KeepTask { task, transport: run.transport },
        MadeEvent::TaskKept => MadeAction::Finish,
        MadeEvent::Raised(raised) => MadeAction::Fail(raised),
    }
}

impl ConnectionMade {
    /// The reader gets the transport first. Without a callback that is all; with one it is called,
    /// and a coroutine that it returns becomes a task.
    pub fn step(&self, event: MadeEvent) -> (action: MadeAction)
        ensures
            action == made_step(*self, event),
    {
        match event {
            MadeEvent::Begin => MadeAction::AttachReader {
                reader: self.reader,
                transport: self.transport,
            },
            MadeEvent::ReaderAttached => match self.callback {
                Some(callback) => MadeAction::CallClient { callback, reader: self.reader },
                None => MadeAction::Finish,
            },
            MadeEvent::ClientReturned(result) => MadeAction::AskCoroutine(result),
            MadeEvent::Coroutine(result, is_coroutine) => if is_coroutine {
                MadeAction::CreateTask(result)
            } else {
                MadeAction::Finish
            },
            MadeEvent::TaskCreated(task) => MadeAction::KeepTask {
                task,
                transport: self.transport,
            },
            MadeEvent::TaskKept => MadeAction::Finish,
            MadeEvent::Raised(raised) => MadeAction::Fail(raised),
        }
    }
}

/// What happens next when a connection was lost.
#[derive(Clone, Copy, PartialEq, Eq, Debug, Structural)]
pub enum LostAction {
    /// Tell the reader: `set_exception_internal`, or `feed_eof_internal` where there is none.
    TellReader(Option<ObjectId>),
    /// Ask whether the future is done.
    AskClosed(ObjectId),
    Settle(FutureCall),
    /// Settle everyone who waits in `drain`.
    ResolveDrainWaiters(Option<ObjectId>),
    /// `forget_connection`
    Forget,
    Finish,
    /// Let the exception through.
    Fail(ObjectId),
}

/// What came of the action before.
#[derive(Clone, Copy, PartialEq, Eq, Debug, Structural)]
pub enum LostEvent {
    Begin,
    ReaderTold,
    Closed(bool),
    Settled,
    DrainWaitersResolved,
    Forgotten,
    Raised(ObjectId),
}

/// The handling of a lost connection.
#[derive(Clone, Copy, PartialEq, Eq, Debug, Structural)]
pub struct ConnectionLost {
    pub closed: ObjectId,
    pub exception: Option<ObjectId>,
}

/// One step of handling a lost connection.
pub open spec fn lost_step(run: ConnectionLost, event: LostEvent) -> LostAction {
    match event {
        LostEvent::Begin => LostAction::TellReader(run.exception),
        LostEvent::ReaderTold => LostAction::AskClosed(run.closed),
        LostEvent::Closed(false) => LostAction::Settle(settling_call(run.closed, run.exception)),
        LostEvent::Closed(true) => LostAction::ResolveDrainWaiters(run.exception),
        LostEvent::Settled => LostAction::ResolveDrainWaiters(run.exception),
        LostEvent::DrainWaitersResolved => LostAction::Forget,
        LostEvent::Forgotten => LostAction::Finish,
        LostEvent::Raised(raised) => LostAction::Fail(raised),
    }
}

impl ConnectionLost {
    /// The reader learns of it first, then the future of `wait_closed`, then everyone in `drain`;
    /// only then the protocol lets the transport go. An error on the way ends it there.
    pub fn step(&self, event: LostEvent) -> (action: LostAction)
        ensures
            action == lost_step(*self, event),
    {
        match event {
            LostEvent::Begin => LostAction::TellReader(self.exception),
            LostEvent::ReaderTold => LostAction::AskClosed(self.closed),
            LostEvent::Closed(done) => if done {
                LostAction::ResolveDrainWaiters(self.exception)
            } else {
                match self.exception {
                    Some(exception) => LostAction::Settle(
                        FutureCall::SetException(self.closed, exception),
                    ),
                    None => LostAction::Settle(FutureCall::SetNone(self.closed)),
                }
            },
            LostEvent::Settled => LostAction::ResolveDrainWaiters(self.exception),
            LostEvent::DrainWaitersResolved => LostAction::Forget,
            LostEvent::Forgotten => LostAction::Finish,
            LostEvent::Raised(raised) => LostAction::Fail(raised),
        }
    }
}

/// A stream writer: a transport with the protocol and the reader that belong to it.
#[derive(Clone, Copy, PartialEq, Eq, Debug, Structural)]
pub struct PyFastStreamWriter {
    pub transport: ObjectId,
    pub protocol: ObjectId,
    pub reader: ObjectId,
}

impl PyFastStreamWriter {
    /// Decides what `drain` returns. The stream's exception wins.
    pub fn drain(&self, reader: &PyFastStreamReader, protocol: &PyFastStreamProtocol) -> (step:
        DrainStep)
        ensures
            step == drained(protocol@, reader@.exception),
    {
        protocol.build_drain_future(reader.get_exception_obj())
    }

    pub fn wait_closed(&self, protocol: &PyFastStreamProtocol) -> (closed: ObjectId)
        ensures
            closed == protocol@.closed,
    {
        protocol.closed_future()
    }
}

/// Nobody waits in `drain` while writing goes on, and nobody who may write is kept waiting.
pub proof fn law_drain_waits_only_while_paused(v: ProtocolView, reader_exception: Option<ObjectId>)
    ensures
        drained(v, reader_exception) is Wait <==> v.paused && !v.connection_lost
            && reader_exception is None,
        drained(v, reader_exception) is Ready ==> !v.paused && !v.connection_lost,
{
}

/// What to do when the task of a client is done.
#[derive(Clone, Copy, PartialEq, Eq, Debug, Structural)]
pub enum ClientDone {
    Nothing,
    CloseTransport,
    /// Report the exception to the loop's handler, then close the transport.
    ReportAndClose(ObjectId),
}

/// How the task of a client ended.
#[derive(Clone, Copy, PartialEq, Eq, Debug, Structural)]
pub enum ClientEnd {
    Cancelled,
    Returned,
    Raised(ObjectId),
}

/// What follows the end of a client.
pub open spec fn after_client(end: ClientEnd) -> ClientDone {
    match end {
        ClientEnd::Cancelled => ClientDone::CloseTransport,
        ClientEnd::Returned => ClientDone::Nothing,
        ClientEnd::Raised(exception) => ClientDone::ReportAndClose(exception),
    }
}

/// A client that was cancelled or failed has its transport closed; only a failure is reported.
pub fn client_done(end: ClientEnd) -> (action: ClientDone)
    ensures
        action == after_client(end),
{
    match end {
        ClientEnd::Cancelled => ClientDone::CloseTransport,
        ClientEnd::Returned => ClientDone::Nothing,
        ClientEnd::Raised(exception) => ClientDone::ReportAndClose(exception),
    }
}

/// The message under which a client's failure is reported.
pub fn client_failed_message() -> (text: &'static str)
    ensures
        text@ == "Unhandled exception in client_connected_cb"@,
{
    "Unhandled exception in client_connected_cb"
}

/// What `open_connection` and `start_server` build each protocol from.
#[derive(Clone, Copy, PartialEq, Eq, Debug, Structural)]
pub struct PyFastProtocolFactory {
    pub loop_obj: ObjectId,
    pub limit: usize,
    pub client_connected_cb: Option<ObjectId>,
}

impl PyFastProtocolFactory {
    /// The reader of the next connection.
    pub fn make_reader(&self) -> (made: Result<PyFastStreamReader, ReaderError>)
        requires
            self.limit <= isize::MAX,
        ensures
            match made {
                Ok(reader) => self.limit > 0 && reader.wf() && reader@ == fresh_reader(
                    self.loop_obj,
                    self.limit as nat,
                ),
                Err(error) => self.limit == 0 && error == ReaderError::BadLimit,
            },
    {
        PyFastStreamReader::new_with_loop(self.loop_obj, self.limit)
    }

    /// The protocol around that reader, with the two futures that it keeps.
    pub fn make_protocol(&self, reader: ObjectId, closed: ObjectId, ready_none: ObjectId) -> (protocol:
        PyFastStreamProtocol)
        ensures
            protocol@ == fresh_protocol(
                self.loop_obj,
                reader,
                self.client_connected_cb,
                closed,
                ready_none,
            ),
    {
        PyFastStreamProtocol::new_with_loop(
            self.loop_obj,
            reader,
            self.client_connected_cb,
            closed,
            ready_none,
        )
    }
}

/// Where the stream functions get their streams from.
#[derive(Clone, Copy, PartialEq, Eq, Debug, Structural)]
pub enum StreamSource {
    /// This library's reader and writer.
    Native,
    /// `asyncio.streams`, with the limit added to the keyword arguments.
    Asyncio,
}

/// Whose streams are used.
pub open spec fn stream_source(is_native_loop: bool, ssl_requested: bool) -> StreamSource {
    if is_native_loop && !ssl_requested {
        StreamSource::Native
    } else {
        StreamSource::Asyncio
    }
}

/// Native streams need a native loop, and they do no TLS: an `ssl` argument other than `None`
/// leaves the call to asyncio.
pub fn native_stream_loop(is_native_loop: bool, ssl_requested: bool) -> (source: StreamSource)
    ensures
        source == stream_source(is_native_loop, ssl_requested),
{
    if !is_native_loop {
        return StreamSource::Asyncio;
    }
    if ssl_requested {
        return StreamSource::Asyncio;
    }
    StreamSource::Native
}

} // verus!
