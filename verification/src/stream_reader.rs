//! The stream reader: bytes come in from a transport, reads take them out, and a read that cannot
//! be answered yet waits.

use vstd::prelude::*;
use vstd::slice::slice_subrange;
use crate::objects::{ExceptionClass, ObjectId};
use crate::read_buffer::ReadBuffer;
use crate::separators::{is_unseparated, shortest_match, Separators};

verus! {

/// The limit of a reader that was given none.
pub const DEFAULT_STREAM_LIMIT: usize = 65_536;

/// The smallest room that a reader sets aside for what it buffers.
pub const MIN_BUFFER_CAPACITY: usize = 4096;

/// What a read asks for.
pub enum ReadWaitKind {
    /// Whatever is there, at most that many bytes, as soon as there is a byte.
    Any(usize),
    /// Exactly that many bytes.
    Exact(usize),
    /// Everything up to the first separator, that separator with it.
    Until(Separators),
    /// Everything up to the end of the stream.
    All,
}

/// The model of `ReadWaitKind`.
pub enum KindView {
    Any(nat),
    Exact(nat),
    Until(Seq<Seq<u8>>),
    All,
}

impl View for ReadWaitKind {
    type V = KindView;

    open spec fn view(&self) -> KindView {
        match self {
            ReadWaitKind::Any(n) => KindView::Any(*n as nat),
            ReadWaitKind::Exact(n) => KindView::Exact(*n as nat),
            ReadWaitKind::Until(separators) => KindView::Until(separators@),
            ReadWaitKind::All => KindView::All,
        }
    }
}

impl ReadWaitKind {
    pub open spec fn wf(&self) -> bool {
        match self {
            ReadWaitKind::Until(separators) => separators.wf(),
            _ => true,
        }
    }
}

/// The reading method that the caller used.
#[derive(Clone, Copy, PartialEq, Eq, Debug, Structural)]
pub enum ReadFunction {
    Read,
    ReadExactly,
    ReadUntil,
}

/// An error of the reader's own making.
#[derive(Clone, Copy, PartialEq, Eq, Debug, Structural)]
pub enum ReaderError {
    BadLimit,
    FeedAfterEof,
    Busy(ReadFunction),
}

impl ReaderError {
    pub fn message(&self) -> (text: &'static str)
        ensures
            text@ == match *self {
                ReaderError::BadLimit => "Limit cannot be <= 0"@,
                ReaderError::FeedAfterEof => "feed_data after feed_eof"@,
                ReaderError::Busy(ReadFunction::Read) =>
                    "read() called while another coroutine is already waiting for incoming data"@,
                ReaderError::Busy(ReadFunction::ReadExactly) =>
                    "readexactly() called while another coroutine is already waiting for incoming data"@,
                ReaderError::Busy(ReadFunction::ReadUntil) =>
                    "readuntil() called while another coroutine is already waiting for incoming data"@,
            },
    {
        match self {
            ReaderError::BadLimit => "Limit cannot be <= 0",
            ReaderError::FeedAfterEof => "feed_data after feed_eof",
            ReaderError::Busy(ReadFunction::Read) =>
                "read() called while another coroutine is already waiting for incoming data",
            ReaderError::Busy(ReadFunction::ReadExactly) =>
                "readexactly() called while another coroutine is already waiting for incoming data",
            ReaderError::Busy(ReadFunction::ReadUntil) =>
                "readuntil() called while another coroutine is already waiting for incoming data",
        }
    }

    /// The class of the exception that it becomes.
    pub open spec fn class(self) -> ExceptionClass {
        ExceptionClass::ValueError
    }

    pub fn exception(&self) -> (class: ExceptionClass)
        ensures
            class == self.class(),
    {
        ExceptionClass::ValueError
    }
}

/// The exception that a read ends in.
pub enum ReadError {
    /// The exception that the stream was told of.
    Stored(ObjectId),
    /// The stream ended first. `partial` is what was there.
    IncompleteRead { partial: Vec<u8>, expected: Option<usize> },
    /// More than the limit stands before the separator, or without one.
    LimitOverrun { found: bool, consumed: usize },
}

/// The model of `ReadError`.
pub enum ReadErrorView {
    Stored(ObjectId),
    IncompleteRead { partial: Seq<u8>, expected: Option<nat> },
    LimitOverrun { found: bool, consumed: nat },
}

impl View for ReadError {
    type V = ReadErrorView;

    open spec fn view(&self) -> ReadErrorView {
        match self {
            ReadError::Stored(exception) => ReadErrorView::Stored(*exception),
            ReadError::IncompleteRead { partial, expected } => ReadErrorView::IncompleteRead {
                partial: partial@,
                expected: match expected {
                    Some(n) => Some(*n as nat),
                    None => None,
                },
            },
            ReadError::LimitOverrun { found, consumed } => ReadErrorView::LimitOverrun {
                found: *found,
                consumed: *consumed as nat,
            },
        }
    }
}

/// The text of a `LimitOverrunError`.
pub fn limit_overrun_message(found: bool) -> (text: &'static str)
    ensures
        text@ == if found {
            "Separator is found, but chunk is longer than limit"@
        } else {
            "Separator is not found, and chunk exceed the limit"@
        },
{
    if found {
        "Separator is found, but chunk is longer than limit"
    } else {
        "Separator is not found, and chunk exceed the limit"
    }
}

/// What a future is resolved with.
pub enum Payload {
    Data(Vec<u8>),
    Failed(ReadError),
}

/// The model of `Payload`.
pub enum PayloadView {
    Data(Seq<u8>),
    Failed(ReadErrorView),
}

impl View for Payload {
    type V = PayloadView;

    open spec fn view(&self) -> PayloadView {
        match self {
            Payload::Data(data) => PayloadView::Data(data@),
            Payload::Failed(error) => PayloadView::Failed(error@),
        }
    }
}

/// The outcome of an attempt to read: what to hand out, or nothing while the read must wait.
/// `resume` is a transport that has to be told to read on before the payload is handed out.
pub struct Resolution {
    pub ready: Option<Payload>,
    pub resume: Option<ObjectId>,
}

/// What a waiting read ends in: tell the transport to read on, then resolve the future.
pub struct Completion {
    pub future: ObjectId,
    pub resume: Option<ObjectId>,
    pub payload: Payload,
}

/// The model of `Completion`.
pub struct CompletionView {
    pub future: ObjectId,
    pub resume: Option<ObjectId>,
    pub payload: PayloadView,
}

impl View for Completion {
    type V = CompletionView;

    open spec fn view(&self) -> CompletionView {
        CompletionView { future: self.future, resume: self.resume, payload: self.payload@ }
    }
}

/// What follows when bytes came in: the read that waited is answered, and only then the transport
/// is asked to pause. `pause_finished` takes what came of that.
pub struct Fed {
    pub completion: Option<Completion>,
    pub pause: Option<ObjectId>,
}

/// `None` or the model of the completion.
pub open spec fn completion_view(completion: Option<Completion>) -> Option<CompletionView> {
    match completion {
        Some(completion) => Some(completion@),
        None => None,
    }
}

/// How a reading method goes on.
pub enum ReadStep {
    /// Tell the transport to read on, then return a fresh future that holds the payload already.
    Ready { resume: Option<ObjectId>, payload: Payload },
    /// Raise: another read is waiting.
    Busy(ReaderError),
    /// Tell the transport to read on, create a future, and park it with `park`.
    Park { resume: Option<ObjectId>, kind: ReadWaitKind },
}

/// The model of `ReadStep`.
pub enum ReadStepView {
    Ready { resume: Option<ObjectId>, payload: PayloadView },
    Busy(ReaderError),
    Park { resume: Option<ObjectId>, kind: KindView },
}

impl View for ReadStep {
    type V = ReadStepView;

    open spec fn view(&self) -> ReadStepView {
        match self {
            ReadStep::Ready { resume, payload } => ReadStepView::Ready {
                resume: *resume,
                payload: payload@,
            },
            ReadStep::Busy(error) => ReadStepView::Busy(*error),
            ReadStep::Park { resume, kind } => ReadStepView::Park { resume: *resume, kind: kind@ },
        }
    }
}

/// What came of `pause_reading` on the transport.
#[derive(Clone, Copy, PartialEq, Eq, Debug, Structural)]
pub enum PauseOutcome {
    Paused,
    NotImplemented,
    Raised(ObjectId),
}

/// A read that waits, with the future that its caller holds.
struct ReadWaiter {
    future: ObjectId,
    kind: ReadWaitKind,
}

/// The model of the reader.
#[verifier::ext_equal]
pub struct ReaderView {
    pub loop_obj: ObjectId,
    pub limit: nat,
    /// The bytes that came in and were not taken out.
    pub unread: Seq<u8>,
    pub waiter: Option<(ObjectId, KindView)>,
    pub transport: Option<ObjectId>,
    pub paused: bool,
    pub eof: bool,
    pub exception: Option<ObjectId>,
}

/// The model of `Resolution`, with the reader after it.
#[verifier::ext_equal]
pub struct ResolutionView {
    pub reader: ReaderView,
    pub ready: Option<PayloadView>,
    pub resume: Option<ObjectId>,
}

/// A paused transport reads on once what is buffered fits the limit.
pub open spec fn resume_if_room(v: ReaderView) -> (ReaderView, Option<ObjectId>) {
    if v.paused && v.unread.len() <= v.limit && v.transport is Some {
        (ReaderView { paused: false, ..v }, v.transport)
    } else {
        (v, None)
    }
}

/// Hands out the first `n` bytes, or all of them where fewer are there.
pub open spec fn deliver(v: ReaderView, n: nat) -> ResolutionView {
    let len = if n <= v.unread.len() {
        n as int
    } else {
        v.unread.len() as int
    };
    let (reader, resume) = resume_if_room(ReaderView { unread: v.unread.skip(len), ..v });
    ResolutionView { reader, ready: Some(PayloadView::Data(v.unread.take(len))), resume }
}

/// The stream ended before the read was answered: what is buffered goes into the exception.
pub open spec fn fail_incomplete(v: ReaderView, expected: Option<nat>) -> ResolutionView {
    ResolutionView {
        reader: ReaderView { unread: Seq::empty(), ..v },
        ready: Some(
            PayloadView::Failed(ReadErrorView::IncompleteRead { partial: v.unread, expected }),
        ),
        resume: None,
    }
}

/// The chunk is too long. Nothing is taken out.
pub open spec fn fail_overrun(v: ReaderView, found: bool, consumed: nat) -> ResolutionView {
    ResolutionView {
        reader: v,
        ready: Some(PayloadView::Failed(ReadErrorView::LimitOverrun { found, consumed })),
        resume: None,
    }
}

pub open spec fn wait(v: ReaderView) -> ResolutionView {
    ResolutionView { reader: v, ready: None, resume: None }
}

/// How many bytes at the front cannot be part of a separator that is still to come.
pub open spec fn settled_prefix(separators: Seq<Seq<u8>>, unread: Seq<u8>) -> nat {
    let max_len = separators.last().len();
    if unread.len() + 1 <= max_len {
        0
    } else {
        (unread.len() + 1 - max_len) as nat
    }
}

/// What a read up to a separator comes to.
pub open spec fn resolved_until(v: ReaderView, separators: Seq<Seq<u8>>) -> ResolutionView {
    match shortest_match(separators, v.unread) {
        Some((start, end)) => if start > v.limit {
            fail_overrun(v, true, start as nat)
        } else {
            deliver(v, end as nat)
        },
        None => if settled_prefix(separators, v.unread) > v.limit {
            fail_overrun(v, false, settled_prefix(separators, v.unread))
        } else if v.eof {
            fail_incomplete(v, None)
        } else {
            wait(v)
        },
    }
}

/// What a read comes to.
pub open spec fn resolved(v: ReaderView, kind: KindView) -> ResolutionView {
    match kind {
        KindView::Any(n) => if v.unread.len() == 0 && !v.eof {
            wait(v)
        } else {
            deliver(v, n)
        },
        KindView::Exact(n) => if v.unread.len() >= n {
            deliver(v, n)
        } else if v.eof {
            fail_incomplete(v, Some(n))
        } else {
            wait(v)
        },
        KindView::Until(separators) => resolved_until(v, separators),
        KindView::All => if v.eof {
            ResolutionView {
                reader: ReaderView { unread: Seq::empty(), ..v },
                ready: Some(PayloadView::Data(v.unread)),
                resume: None,
            }
        } else {
            wait(v)
        },
    }
}

/// What becomes of the waiting read after the reader changed.
pub open spec fn completed(v: ReaderView) -> (ReaderView, Option<CompletionView>) {
    match v.waiter {
        None => (v, None),
        Some((future, kind)) => {
            let free = ReaderView { waiter: None, ..v };
            match v.exception {
                Some(exception) => (
                    free,
                    Some(
                        CompletionView {
                            future,
                            resume: None,
                            payload: PayloadView::Failed(ReadErrorView::Stored(exception)),
                        },
                    ),
                ),
                None => match resolved(free, kind).ready {
                    Some(payload) => (
                        resolved(free, kind).reader,
                        Some(
                            CompletionView {
                                future,
                                resume: resolved(free, kind).resume,
                                payload,
                            },
                        ),
                    ),
                    None => (v, None),
                },
            }
        },
    }
}

/// What a reading method does.
pub open spec fn started(v: ReaderView, function: ReadFunction, kind: KindView) -> (
    ReaderView,
    ReadStepView,
) {
    match v.exception {
        Some(exception) => (
            v,
            ReadStepView::Ready {
                resume: None,
                payload: PayloadView::Failed(ReadErrorView::Stored(exception)),
            },
        ),
        None => match resolved(v, kind).ready {
            Some(payload) => (
                resolved(v, kind).reader,
                ReadStepView::Ready { resume: resolved(v, kind).resume, payload },
            ),
            None => if v.waiter is Some {
                (v, ReadStepView::Busy(ReaderError::Busy(function)))
            } else if v.paused && v.transport is Some {
                (ReaderView { paused: false, ..v }, ReadStepView::Park { resume: v.transport, kind })
            } else {
                (v, ReadStepView::Park { resume: None, kind })
            },
        },
    }
}

/// The step that hands a stored exception out, where there is one.
pub open spec fn surfaced(v: ReaderView) -> Option<ReadStepView> {
    match v.exception {
        Some(exception) => Some(
            ReadStepView::Ready {
                resume: None,
                payload: PayloadView::Failed(ReadErrorView::Stored(exception)),
            },
        ),
        None => None,
    }
}

/// What a read of no bytes does: it asks for nothing, so it is answered with nothing, unless the
/// stream broke.
pub open spec fn started_empty(v: ReaderView) -> (ReaderView, ReadStepView) {
    match surfaced(v) {
        Some(step) => (v, step),
        None => (
            v,
            ReadStepView::Ready { resume: None, payload: PayloadView::Data(Seq::empty()) },
        ),
    }
}

/// What `read(n)` does.
pub open spec fn started_read(v: ReaderView, n: int) -> (ReaderView, ReadStepView) {
    if n == 0 {
        started_empty(v)
    } else if n < 0 {
        started(v, ReadFunction::Read, KindView::All)
    } else {
        started(v, ReadFunction::Read, KindView::Any(n as nat))
    }
}

/// What `readexactly(n)` does.
pub open spec fn started_readexactly(v: ReaderView, n: nat) -> (ReaderView, ReadStepView) {
    if n == 0 {
        started_empty(v)
    } else {
        started(v, ReadFunction::ReadExactly, KindView::Exact(n))
    }
}

/// A transport that can still be paused has to be, once twice the limit is exceeded.
pub open spec fn must_pause(v: ReaderView) -> bool {
    v.transport is Some && !v.paused && v.unread.len() > 2 * v.limit
}

/// The transport that has to be paused, where one has to.
pub open spec fn pause_due(v: ReaderView) -> Option<ObjectId> {
    if must_pause(v) {
        v.transport
    } else {
        None
    }
}

/// A reader into which nothing came yet.
pub open spec fn fresh_reader(loop_obj: ObjectId, limit: nat) -> ReaderView {
    ReaderView {
        loop_obj,
        limit,
        unread: Seq::empty(),
        waiter: None,
        transport: None,
        paused: false,
        eof: false,
        exception: None,
    }
}

/// The stream ended and everything was read.
pub open spec fn is_at_eof(v: ReaderView) -> bool {
    v.eof && v.unread.len() == 0
}

/// The reader with other bytes buffered.
pub open spec fn with_unread(v: ReaderView, unread: Seq<u8>) -> ReaderView {
    ReaderView { unread, ..v }
}

/// Bytes came in behind those that are there.
pub open spec fn with_bytes(v: ReaderView, data: Seq<u8>) -> (ReaderView, Option<CompletionView>) {
    completed(ReaderView { unread: v.unread + data, ..v })
}

/// The stream ended.
pub open spec fn with_end(v: ReaderView) -> (ReaderView, Option<CompletionView>) {
    completed(ReaderView { eof: true, ..v })
}

/// The stream broke.
pub open spec fn with_exception(v: ReaderView, exception: ObjectId) -> (
    ReaderView,
    Option<CompletionView>,
) {
    completed(ReaderView { exception: Some(exception), ..v })
}

/// A transport was attached or taken away.
pub open spec fn with_transport(v: ReaderView, transport: Option<ObjectId>) -> (
    ReaderView,
    Option<ObjectId>,
) {
    resume_if_room(ReaderView { transport, ..v })
}

/// The transport was asked to pause.
pub open spec fn after_pausing(v: ReaderView, outcome: PauseOutcome) -> ReaderView {
    match outcome {
        PauseOutcome::Paused => ReaderView { paused: true, ..v },
        PauseOutcome::NotImplemented => ReaderView { transport: None, ..v },
        PauseOutcome::Raised(_) => v,
    }
}

/// What asking the transport raised, where it matters.
pub open spec fn pausing_raised(outcome: PauseOutcome) -> Result<(), ObjectId> {
    match outcome {
        PauseOutcome::Raised(raised) => Err(raised),
        _ => Ok(()),
    }
}

/// A read waits.
pub open spec fn with_waiter(v: ReaderView, future: ObjectId, kind: KindView) -> ReaderView {
    ReaderView { waiter: Some((future, kind)), ..v }
}

pub struct PyFastStreamReader {
    loop_obj: ObjectId,
    limit: usize,
    buffer: ReadBuffer,
    waiter: Option<ReadWaiter>,
    transport: Option<ObjectId>,
    paused: bool,
    eof: bool,
    exception: Option<ObjectId>,
}

impl View for PyFastStreamReader {
    type V = ReaderView;

    closed spec fn view(&self) -> ReaderView {
        ReaderView {
            loop_obj: self.loop_obj,
            limit: self.limit as nat,
            unread: self.buffer@,
            waiter: match self.waiter {
                Some(waiter) => Some((waiter.future, waiter.kind@)),
                None => None,
            },
            transport: self.transport,
            paused: self.paused,
            eof: self.eof,
            exception: self.exception,
        }
    }
}

impl PyFastStreamReader {
    pub closed spec fn wf(&self) -> bool {
        &&& self.limit > 0
        &&& self.buffer.wf()
        &&& match self.waiter {
            Some(waiter) => waiter.kind.wf(),
            None => true,
        }
    }

    pub fn new_with_loop(loop_obj: ObjectId, limit: usize) -> (made: Result<Self, ReaderError>)
        requires
            limit <= isize::MAX,
        ensures
            match made {
                Ok(reader) => limit > 0 && reader.wf() && reader@ == fresh_reader(
                    loop_obj,
                    limit as nat,
                ),
                Err(error) => limit == 0 && error == ReaderError::BadLimit,
            },
    {
        if limit == 0 {
            return Err(ReaderError::BadLimit);
        }
        let capacity: usize = if limit < MIN_BUFFER_CAPACITY {
            MIN_BUFFER_CAPACITY
        } else {
            limit
        };
        Ok(
            PyFastStreamReader {
                loop_obj,
                limit,
                buffer: ReadBuffer::with_capacity(capacity),
                waiter: None,
                transport: None,
                paused: false,
                eof: false,
                exception: None,
            },
        )
    }

    pub fn get_loop_obj(&self) -> (loop_obj: ObjectId)
        ensures
            loop_obj == self@.loop_obj,
    {
        self.loop_obj
    }

    pub fn get_limit(&self) -> (limit: usize)
        ensures
            limit == self@.limit,
    {
        self.limit
    }

    pub fn get_buffer(&self) -> (unread: &[u8])
        requires
            self.wf(),
        ensures
            unread@ == self@.unread,
    {
        self.buffer.unread()
    }

    /// Replaces what is buffered. A read that waits is not looked at.
    pub fn set_buffer(&mut self, data: &[u8])
        requires
            old(self).wf(),
        ensures
            final(self).wf(),
            final(self)@ == with_unread(old(self)@, data@),
    {
        self.buffer.replace(data);
    }

    pub fn get_waiter(&self) -> (future: Option<ObjectId>)
        ensures
            future == match self@.waiter {
                Some((future, _)) => Some(future),
                None => None,
            },
    {
        match &self.waiter {
            Some(waiter) => Some(waiter.future),
            None => None,
        }
    }

    pub fn get_transport(&self) -> (transport: Option<ObjectId>)
        ensures
            transport == self@.transport,
    {
        self.transport
    }

    pub fn get_paused(&self) -> (paused: bool)
        ensures
            paused == self@.paused,
    {
        self.paused
    }

    pub fn get_eof(&self) -> (eof: bool)
        ensures
            eof == self@.eof,
    {
        self.eof
    }

    pub fn get_exception_obj(&self) -> (exception: Option<ObjectId>)
        ensures
            exception == self@.exception,
    {
        self.exception
    }

    /// The stream ended and everything was read.
    pub fn at_eof(&self) -> (at_eof: bool)
        requires
            self.wf(),
        ensures
            at_eof == is_at_eof(self@),
    {
        self.eof && self.buffer.is_empty()
    }

    /// Takes the first `n` bytes out, or all of them where fewer are there.
    fn take_unread(&mut self, n: usize) -> (data: Vec<u8>)
        requires
            old(self).wf(),
        ensures
            final(self).wf(),
            ({
                let len = if n <= old(self)@.unread.len() {
                    n as int
                } else {
                    old(self)@.unread.len() as int
                };
                &&& data@ == old(self)@.unread.take(len)
                &&& final(self)@ == (ReaderView {
                    unread: old(self)@.unread.skip(len),
                    ..old(self)@
                })
            }),
            final(self).limit == old(self).limit,
    {
        let buffered: usize = self.buffer.len();
        let len: usize = if n < buffered {
            n
        } else {
            buffered
        };
        let mut data: Vec<u8> = Vec::new();
        data.extend_from_slice(slice_subrange(self.buffer.unread(), 0, len));
        assert(data@ =~= self@.unread.take(len as int));
        self.buffer.consume(len);
        data
    }

    /// Takes every byte out.
    fn take_all_unread(&mut self) -> (data: Vec<u8>)
        requires
            old(self).wf(),
        ensures
            final(self).wf(),
            data@ == old(self)@.unread,
            final(self)@ == (ReaderView { unread: Seq::empty(), ..old(self)@ }),
    {
        let mut data: Vec<u8> = Vec::new();
        data.extend_from_slice(self.buffer.unread());
        assert(data@ =~= self@.unread);
        self.buffer.consume_all();
        data
    }

    /// The transport that has to read on because there is room again.
    fn maybe_resume_transport(&mut self) -> (resume: Option<ObjectId>)
        requires
            old(self).wf(),
        ensures
            final(self).wf(),
            (final(self)@, resume) == resume_if_room(old(self)@),
    {
        if self.paused && self.buffer.len() <= self.limit && self.transport.is_some() {
            self.paused = false;
            self.transport
        } else {
            None
        }
    }

    fn resolve_until(&mut self, separators: &Separators) -> (resolution: Resolution)
        requires
            old(self).wf(),
            separators.wf(),
        ensures
            final(self).wf(),
            Self::is_resolution(resolution, final(self)@, resolved_until(old(self)@, separators@)),
    {
        let buffered: usize = self.buffer.len();
        let max_len: usize = separators.max_len();
        if buffered >= separators.min_len() {
            let found = separators.find_shortest(self.buffer.unread());
            if let Some((start, end)) = found {
                if start > self.limit {
                    return Resolution {
                        ready: Some(
                            Payload::Failed(
                                ReadError::LimitOverrun { found: true, consumed: start },
                            ),
                        ),
                        resume: None,
                    };
                }
                let data = self.take_unread(end);
                let resume = self.maybe_resume_transport();
                return Resolution { ready: Some(Payload::Data(data)), resume };
            }
            let offset: usize = if buffered < max_len - 1 {
                0
            } else {
                buffered - (max_len - 1)
            };
            if offset > self.limit {
                return Resolution {
                    ready: Some(
                        Payload::Failed(ReadError::LimitOverrun { found: false, consumed: offset }),
                    ),
                    resume: None,
                };
            }
        } else {
            proof {
                lemma_short_is_unseparated(separators@, self@.unread);
            }
        }
        if self.eof {
            let partial = self.take_all_unread();
            return Resolution {
                ready: Some(
                    Payload::Failed(ReadError::IncompleteRead { partial, expected: None }),
                ),
                resume: None,
            };
        }
        Resolution { ready: None, resume: None }
    }

    /// The resolution that was returned and the reader as it is now are those of the model.
    pub open spec fn is_resolution(
        resolution: Resolution,
        reader: ReaderView,
        model: ResolutionView,
    ) -> bool {
        &&& reader == model.reader
        &&& resolution.resume == model.resume
        &&& match resolution.ready {
            Some(payload) => model.ready == Some(payload@),
            None => model.ready is None,
        }
    }

    /// Attempts to answer a read from what is buffered.
    pub fn resolve_read(&mut self, kind: &ReadWaitKind) -> (resolution: Resolution)
        requires
            old(self).wf(),
            kind.wf(),
        ensures
            final(self).wf(),
            Self::is_resolution(resolution, final(self)@, resolved(old(self)@, kind@)),
    {
        match kind {
            ReadWaitKind::Any(n) => {
                if self.buffer.is_empty() && !self.eof {
                    Resolution { ready: None, resume: None }
                } else {
                    let data = self.take_unread(*n);
                    let resume = self.maybe_resume_transport();
                    Resolution { ready: Some(Payload::Data(data)), resume }
                }
            },
            ReadWaitKind::Exact(n) => {
                if self.buffer.len() >= *n {
                    let data = self.take_unread(*n);
                    let resume = self.maybe_resume_transport();
                    Resolution { ready: Some(Payload::Data(data)), resume }
                } else if !self.eof {
                    Resolution { ready: None, resume: None }
                } else {
                    let partial = self.take_all_unread();
                    Resolution {
                        ready: Some(
                            Payload::Failed(
                                ReadError::IncompleteRead { partial, expected: Some(*n) },
                            ),
                        ),
                        resume: None,
                    }
                }
            },
            ReadWaitKind::Until(separators) => self.resolve_until(separators),
            ReadWaitKind::All => {
                if !self.eof {
                    Resolution { ready: None, resume: None }
                } else {
                    let data = self.take_all_unread();
                    Resolution { ready: Some(Payload::Data(data)), resume: None }
                }
            },
        }
    }

    /// Answers the waiting read if that can be done now. A read that still must wait stays.
    fn maybe_complete_waiter(&mut self) -> (completion: Option<Completion>)
        requires
            old(self).wf(),
        ensures
            final(self).wf(),
            (final(self)@, completion_view(completion)) == completed(old(self)@),
    {
        let mut taken: Option<ReadWaiter> = None;
        core::mem::swap(&mut self.waiter, &mut taken);
        match taken {
            None => None,
            Some(waiter) => {
                if let Some(exception) = self.exception {
                    return Some(
                        Completion {
                            future: waiter.future,
                            resume: None,
                            payload: Payload::Failed(ReadError::Stored(exception)),
                        },
                    );
                }
                let resolution = self.resolve_read(&waiter.kind);
                match resolution.ready {
                    Some(payload) => Some(
                        Completion { future: waiter.future, resume: resolution.resume, payload },
                    ),
                    None => {
                        self.waiter = Some(waiter);
                        assert(self@ =~= old(self)@);
                        None
                    },
                }
            },
        }
    }

    /// Bytes came in. They are refused once the end of the stream was announced. The transport has
    /// to pause where too much is left after the read that waited took its share.
    pub fn feed_data_internal(&mut self, data: &[u8]) -> (fed: Result<Fed, ReaderError>)
        requires
            old(self).wf(),
        ensures
            final(self).wf(),
            match fed {
                Ok(fed) => {
                    &&& !old(self)@.eof
                    &&& (final(self)@, completion_view(fed.completion)) == with_bytes(
                        old(self)@,
                        data@,
                    )
                    &&& fed.pause == pause_due(final(self)@)
                },
                Err(error) => old(self)@.eof && error == ReaderError::FeedAfterEof && final(self)@
                    == old(self)@,
            },
    {
        if self.eof {
            return Err(ReaderError::FeedAfterEof);
        }
        self.buffer.extend(data);
        let completion = self.maybe_complete_waiter();
        let pause = self.maybe_pause_transport();
        Ok(Fed { completion, pause })
    }

    /// The stream ended.
    pub fn feed_eof_internal(&mut self) -> (completion: Option<Completion>)
        requires
            old(self).wf(),
        ensures
            final(self).wf(),
            (final(self)@, completion_view(completion)) == with_end(old(self)@),
    {
        self.eof = true;
        self.maybe_complete_waiter()
    }

    /// The stream broke. Every read from now on ends in `exception`.
    pub fn set_exception_internal(&mut self, exception: ObjectId) -> (completion: Option<Completion>)
        requires
            old(self).wf(),
        ensures
            final(self).wf(),
            (final(self)@, completion_view(completion)) == with_exception(old(self)@, exception),
    {
        self.exception = Some(exception);
        self.maybe_complete_waiter()
    }

    /// Attaches a transport, or takes the one there is away. The result is a transport that has to
    /// be told to read on.
    pub fn set_transport_obj(&mut self, transport: Option<ObjectId>) -> (resume: Option<ObjectId>)
        requires
            old(self).wf(),
        ensures
            final(self).wf(),
            (final(self)@, resume) == with_transport(old(self)@, transport),
    {
        self.transport = transport;
        self.maybe_resume_transport()
    }

    /// The transport that has to be paused because too much is buffered. `pause_finished` takes
    /// what came of it.
    pub fn maybe_pause_transport(&self) -> (pause: Option<ObjectId>)
        requires
            self.wf(),
        ensures
            pause == pause_due(self@),
    {
        let buffered: usize = self.buffer.len();
        if self.transport.is_some() && !self.paused && buffered > self.limit && buffered
            - self.limit > self.limit {
            self.transport
        } else {
            None
        }
    }

    /// A transport that cannot be paused is let go of, and never asked again.
    pub fn pause_finished(&mut self, outcome: PauseOutcome) -> (finished: Result<(), ObjectId>)
        requires
            old(self).wf(),
        ensures
            final(self).wf(),
            finished == pausing_raised(outcome),
            final(self)@ == after_pausing(old(self)@, outcome),
    {
        match outcome {
            PauseOutcome::Paused => {
                self.paused = true;
                Ok(())
            },
            PauseOutcome::NotImplemented => {
                self.transport = None;
                Ok(())
            },
            PauseOutcome::Raised(raised) => Err(raised),
        }
    }

    fn start_waiter(&mut self, function: ReadFunction, kind: ReadWaitKind) -> (step: ReadStep)
        requires
            old(self).wf(),
        ensures
            final(self).wf(),
            (final(self)@, step@) == if old(self)@.waiter is Some {
                (old(self)@, ReadStepView::Busy(ReaderError::Busy(function)))
            } else if old(self)@.paused && old(self)@.transport is Some {
                (
                    ReaderView { paused: false, ..old(self)@ },
                    ReadStepView::Park { resume: old(self)@.transport, kind: kind@ },
                )
            } else {
                (old(self)@, ReadStepView::Park { resume: None, kind: kind@ })
            },
            step matches ReadStep::Park { kind: parked, .. } ==> parked == kind,
    {
        if self.waiter.is_some() {
            return ReadStep::Busy(ReaderError::Busy(function));
        }
        if self.paused && self.transport.is_some() {
            self.paused = false;
            return ReadStep::Park { resume: self.transport, kind };
        }
        ReadStep::Park { resume: None, kind }
    }

    /// Keeps the future of a read that has to wait.
    pub fn park(&mut self, future: ObjectId, kind: ReadWaitKind)
        requires
            old(self).wf(),
            old(self)@.waiter is None,
            kind.wf(),
        ensures
            final(self).wf(),
            final(self)@ == with_waiter(old(self)@, future, kind@),
    {
        self.waiter = Some(ReadWaiter { future, kind });
    }

    /// Starts a read: it is answered at once where that can be done, and a stored exception wins
    /// over everything.
    fn build_ready_future(&mut self, function: ReadFunction, kind: ReadWaitKind) -> (step: ReadStep)
        requires
            old(self).wf(),
            kind.wf(),
        ensures
            final(self).wf(),
            (final(self)@, step@) == started(old(self)@, function, kind@),
            step matches ReadStep::Park { kind: parked, .. } ==> parked.wf(),
    {
        if let Some(exception) = self.exception {
            return ReadStep::Ready {
                resume: None,
                payload: Payload::Failed(ReadError::Stored(exception)),
            };
        }
        let resolution = self.resolve_read(&kind);
        match resolution.ready {
            Some(payload) => ReadStep::Ready { resume: resolution.resume, payload },
            None => self.start_waiter(function, kind),
        }
    }

    /// A read of no bytes.
    fn build_empty_future(&self) -> (step: ReadStep)
        ensures
            (self@, step@) == started_empty(self@),
            !(step is Park),
    {
        match self.exception {
            Some(exception) => ReadStep::Ready {
                resume: None,
                payload: Payload::Failed(ReadError::Stored(exception)),
            },
            None => ReadStep::Ready { resume: None, payload: Payload::Data(Vec::new()) },
        }
    }

    /// `read(n)`: a negative `n` reads everything, zero reads nothing. A stored exception wins over
    /// everything, also where nothing was asked for.
    pub fn build_read_future(&mut self, n: isize) -> (step: ReadStep)
        requires
            old(self).wf(),
        ensures
            final(self).wf(),
            (final(self)@, step@) == started_read(old(self)@, n as int),
            step matches ReadStep::Park { kind: parked, .. } ==> parked.wf(),
    {
        if n == 0 {
            return self.build_empty_future();
        }
        if n < 0 {
            self.build_ready_future(ReadFunction::Read, ReadWaitKind::All)
        } else {
            self.build_ready_future(ReadFunction::Read, ReadWaitKind::Any(n as usize))
        }
    }

    /// `readexactly(n)`: zero reads nothing. A stored exception wins over everything, also where
    /// nothing was asked for.
    pub fn build_readexactly_future(&mut self, n: usize) -> (step: ReadStep)
        requires
            old(self).wf(),
        ensures
            final(self).wf(),
            (final(self)@, step@) == started_readexactly(old(self)@, n as nat),
            step matches ReadStep::Park { kind: parked, .. } ==> parked.wf(),
    {
        if n == 0 {
            return self.build_empty_future();
        }
        self.build_ready_future(ReadFunction::ReadExactly, ReadWaitKind::Exact(n))
    }

    /// `readuntil(separators)`.
    pub fn build_readuntil_future(&mut self, separators: Separators) -> (step: ReadStep)
        requires
            old(self).wf(),
            separators.wf(),
        ensures
            final(self).wf(),
            (final(self)@, step@) == started(
                old(self)@,
                ReadFunction::ReadUntil,
                KindView::Until(separators@),
            ),
            step matches ReadStep::Park { kind: parked, .. } ==> parked.wf(),
    {
        self.build_ready_future(ReadFunction::ReadUntil, ReadWaitKind::Until(separators))
    }
}

/// A separator does not fit into fewer bytes than the shortest one has.
proof fn lemma_short_is_unseparated(separators: Seq<Seq<u8>>, haystack: Seq<u8>)
    requires
        separators.len() > 0,
        forall|i: int| 0 <= i < separators.len() ==> haystack.len() < (#[trigger] separators[i]).len(),
    ensures
        shortest_match(separators, haystack) is None,
{
    assert(is_unseparated(separators, haystack));
}

} // verus!
