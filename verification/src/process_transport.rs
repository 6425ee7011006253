//! The transport of a child process: its pipes, its exit, and what the protocol learns of them.

use std::collections::{HashMap, HashSet, VecDeque};
use vstd::prelude::*;
use crate::loop_commands::{LoopCommand, LoopTransportCommand};
use crate::loop_core::{is_sent, LoopCore, LoopCoreError, LoopView, Sent, ThreadReady, ThreadView};
use crate::newlines::{are_newline_replacements, newline_replacements, Replacement};
use crate::objects::{CallResult, ExceptionClass, ObjectId};
use crate::os_constants::{sigterm, SIGTERM};
use crate::stream_transport::TransportSpawnContext;
use crate::text::{decimal, flag_text, push_decimal, push_flag, push_signed_decimal, signed_decimal};

verus! {

broadcast use vstd::std_specs::hash::group_hash_axioms;

/// So much is read from a pipe at once.
pub const PROCESS_READER_BUFFER_SIZE: usize = 65_536;

/// How long the waiter waits for a command before it looks for the exit, in milliseconds.
pub const PROCESS_WAIT_POLL_INTERVAL_MS: u64 = 20;

/// What the waiter of a process is asked for.
#[derive(Clone, Copy, PartialEq, Eq, Debug, Structural)]
pub enum ProcessCommand {
    Close,
    SendSignal(i32),
    Terminate,
    Kill,
}

/// Something that the loop has to tell the protocol.
pub enum PendingProcessEvent {
    PipeDataReceived { fd: i32, data: Vec<u8> },
    PipeConnectionLost { fd: i32, reason: Option<String> },
    ProcessExited { returncode: i32 },
    ConnectionLost { reason: Option<String> },
}

/// How the output of a process becomes text.
#[derive(Clone)]
pub struct ProcessTextConfig {
    pub encoding: String,
    pub errors: String,
    pub translate_newlines: bool,
}

/// What a process transport is made from.
pub struct ProcessTransportParams {
    pub loop_core: ObjectId,
    pub loop_obj: ObjectId,
    pub protocol: ObjectId,
    pub context: ObjectId,
    pub context_needs_run: bool,
    pub text_config: Option<ProcessTextConfig>,
    pub child: ObjectId,
    pub stdout_override: Option<ObjectId>,
    pub stderr_override: Option<ObjectId>,
}

/// What the transport of a process is made from, without text mode and with the child's own pipes.
pub open spec fn plain_process(spawn_context: TransportSpawnContext, child: ObjectId) -> ProcessTransportParams {
    ProcessTransportParams {
        loop_core: spawn_context.loop_core,
        loop_obj: spawn_context.loop_obj,
        protocol: spawn_context.protocol,
        context: spawn_context.context,
        context_needs_run: spawn_context.context_needs_run,
        text_config: None,
        child,
        stdout_override: None,
        stderr_override: None,
    }
}

impl ProcessTransportParams {
    pub fn new(spawn_context: TransportSpawnContext, child: ObjectId) -> (params: Self)
        ensures
            params == plain_process(spawn_context, child),
    {
        ProcessTransportParams {
            loop_core: spawn_context.loop_core,
            loop_obj: spawn_context.loop_obj,
            protocol: spawn_context.protocol,
            context: spawn_context.context,
            context_needs_run: spawn_context.context_needs_run,
            text_config: None,
            child,
            stdout_override: None,
            stderr_override: None,
        }
    }

    pub fn with_text_config(self, text_config: Option<ProcessTextConfig>) -> (params: Self)
        ensures
            params == (ProcessTransportParams { text_config, ..self }),
    {
        let mut params = self;
        params.text_config = text_config;
        params
    }

    pub fn with_stdio_overrides(
        self,
        stdout_override: Option<ObjectId>,
        stderr_override: Option<ObjectId>,
    ) -> (params: Self)
        ensures
            params == (ProcessTransportParams { stdout_override, stderr_override, ..self }),
    {
        let mut params = self;
        params.stdout_override = stdout_override;
        params.stderr_override = stderr_override;
        params
    }
}

/// The ends of the pipes that this process holds.
#[derive(Clone, Copy, PartialEq, Eq, Debug, Structural)]
pub struct ProcessPipes {
    pub stdin: Option<ObjectId>,
    pub stdout: Option<ObjectId>,
    pub stderr: Option<ObjectId>,
}

/// The descriptors of the pipes that are there.
pub open spec fn pipe_fds(pipes: ProcessPipes) -> Set<i32> {
    Set::new(
        |fd: i32|
            (fd == 0 && pipes.stdin is Some) || (fd == 1 && pipes.stdout is Some) || (fd == 2
                && pipes.stderr is Some),
    )
}

/// The child's pipes, with those that the caller brought in their place.
pub open spec fn pipes_of(
    child: ProcessPipes,
    stdout_override: Option<ObjectId>,
    stderr_override: Option<ObjectId>,
) -> ProcessPipes {
    ProcessPipes {
        stdin: child.stdin,
        stdout: if stdout_override is Some {
            stdout_override
        } else {
            child.stdout
        },
        stderr: if stderr_override is Some {
            stderr_override
        } else {
            child.stderr
        },
    }
}

impl ProcessPipes {
    /// A pipe that the caller brought takes the place of the child's own.
    pub fn take_from(
        child: ProcessPipes,
        stdout_override: Option<ObjectId>,
        stderr_override: Option<ObjectId>,
    ) -> (pipes: Self)
        ensures
            pipes == pipes_of(child, stdout_override, stderr_override),
    {
        ProcessPipes {
            stdin: child.stdin,
            stdout: if stdout_override.is_some() {
                stdout_override
            } else {
                child.stdout
            },
            stderr: if stderr_override.is_some() {
                stderr_override
            } else {
                child.stderr
            },
        }
    }

    pub fn open_pipes(&self) -> (open: HashSet<i32>)
        ensures
            open@ == pipe_fds(*self),
    {
        let mut open: HashSet<i32> = HashSet::new();
        if self.stdin.is_some() {
            open.insert(0);
        }
        if self.stdout.is_some() {
            open.insert(1);
        }
        if self.stderr.is_some() {
            open.insert(2);
        }
        assert(open@ =~= pipe_fds(*self));
        open
    }
}

/// The model of a process transport.
#[verifier::ext_equal]
pub struct ProcessView {
    pub id: ObjectId,
    pub loop_obj: ObjectId,
    pub protocol: ObjectId,
    pub context: ObjectId,
    pub context_needs_run: bool,
    pub pid: u32,
    pub returncode: Option<i32>,
    pub closing: bool,
    pub exited: bool,
    pub connection_lost_called: bool,
    pub open_pipes: Set<i32>,
    pub pipe_transports: Map<i32, ObjectId>,
    pub text_config: Option<ProcessTextConfig>,
    pub events: Seq<PendingProcessEvent>,
    pub scheduled: bool,
}

/// What reporting an event comes to. The loop is told unless it knows already.
pub open spec fn is_process_event_reported(
    v: ProcessView,
    l: LoopView,
    t: ThreadView,
    event: PendingProcessEvent,
    told: Option<Result<Sent, LoopCoreError>>,
    v_after: ProcessView,
    l_after: LoopView,
    t_after: ThreadView,
) -> bool {
    let events = v.events.push(event);
    match told {
        None => v.scheduled && v_after == (ProcessView { events, ..v }) && l_after == l && t_after
            == t,
        Some(result) => !v.scheduled && v_after == (ProcessView {
            events,
            scheduled: result is Ok,
            ..v
        }) && is_sent(
            l,
            t,
            LoopCommand::Transport(LoopTransportCommand::Process(v.id)),
            result,
            l_after,
            t_after,
        ),
    }
}

/// What reporting an event and, where `finish` says so, the loss of the connection comes to.
pub open spec fn is_process_end_reported(
    v: ProcessView,
    l: LoopView,
    t: ThreadView,
    event: PendingProcessEvent,
    finish: bool,
    told: Seq<Option<Result<Sent, LoopCoreError>>>,
    v_after: ProcessView,
    l_after: LoopView,
    t_after: ThreadView,
) -> bool {
    if finish {
        told.len() == 2 && exists|v1: ProcessView, l1: LoopView, t1: ThreadView|
            is_process_event_reported(v, l, t, event, told[0], v1, l1, t1)
                && #[trigger] is_process_event_reported(
                v1,
                l1,
                t1,
                PendingProcessEvent::ConnectionLost { reason: None },
                told[1],
                v_after,
                l_after,
                t_after,
            )
    } else {
        told.len() == 1 && is_process_event_reported(
            v,
            l,
            t,
            event,
            told[0],
            v_after,
            l_after,
            t_after,
        )
    }
}

/// The process is gone, and so are its pipes.
pub open spec fn is_over(v: ProcessView) -> bool {
    v.exited && v.open_pipes.is_empty()
}

/// A pipe was closed. Whether that was the last thing to wait for.
pub open spec fn pipe_closed(v: ProcessView, fd: i32) -> (ProcessView, bool) {
    let after = ProcessView { open_pipes: v.open_pipes.remove(fd), ..v };
    (after, is_over(after))
}

/// The process exited. Whether that was the last thing to wait for.
pub open spec fn exited(v: ProcessView, returncode: i32) -> (ProcessView, bool) {
    let after = ProcessView { returncode: Some(returncode), exited: true, ..v };
    (after, is_over(after))
}

/// The connection to the process is lost.
pub open spec fn process_lost(v: ProcessView) -> ProcessView {
    ProcessView { connection_lost_called: true, closing: true, ..v }
}

/// The transport of a process that closes.
pub open spec fn process_closing(v: ProcessView) -> ProcessView {
    ProcessView { closing: true, ..v }
}

/// The transport of a process that runs.
pub open spec fn fresh_process(
    id: ObjectId,
    params: ProcessTransportParams,
    pid: u32,
    pipes: ProcessPipes,
) -> ProcessView {
    ProcessView {
        id,
        loop_obj: params.loop_obj,
        protocol: params.protocol,
        context: params.context,
        context_needs_run: params.context_needs_run,
        pid,
        returncode: None,
        closing: false,
        exited: false,
        connection_lost_called: false,
        open_pipes: pipe_fds(pipes),
        pipe_transports: Map::empty(),
        text_config: params.text_config,
        events: Seq::empty(),
        scheduled: false,
    }
}

/// What a closed pipe comes to.
pub open spec fn is_pipe_loss_route(
    v: ProcessView,
    l: LoopView,
    t: ThreadView,
    fd: i32,
    reason: Option<String>,
    route: ProcessRoute,
    v_after: ProcessView,
    l_after: LoopView,
    t_after: ThreadView,
) -> bool {
    let (after, finish) = pipe_closed(v, fd);
    let here = t.active_loop == Some(l.id);
    match route {
        ProcessRoute::Ignore => !v.open_pipes.contains(fd) && v_after == v && l_after == l
            && t_after == t,
        ProcessRoute::Here { finish: f } => v.open_pipes.contains(fd) && here && f == finish
            && v_after == after && l_after == l && t_after == t,
        ProcessRoute::Later(told) => v.open_pipes.contains(fd) && !here && is_process_end_reported(
            after,
            l,
            t,
            PendingProcessEvent::PipeConnectionLost { fd, reason },
            finish,
            told@,
            v_after,
            l_after,
            t_after,
        ),
    }
}

/// What an exit comes to.
pub open spec fn is_exit_route(
    v: ProcessView,
    l: LoopView,
    t: ThreadView,
    returncode: i32,
    route: ProcessRoute,
    v_after: ProcessView,
    l_after: LoopView,
    t_after: ThreadView,
) -> bool {
    let (after, finish) = exited(v, returncode);
    let here = t.active_loop == Some(l.id);
    match route {
        ProcessRoute::Ignore => false,
        ProcessRoute::Here { finish: f } => here && f == finish && v_after == after && l_after == l
            && t_after == t,
        ProcessRoute::Later(told) => !here && is_process_end_reported(
            after,
            l,
            t,
            PendingProcessEvent::ProcessExited { returncode },
            finish,
            told@,
            v_after,
            l_after,
            t_after,
        ),
    }
}

/// What the loss of the connection comes to.
pub open spec fn is_process_loss_route(
    v: ProcessView,
    l: LoopView,
    t: ThreadView,
    reason: Option<String>,
    route: ProcessRoute,
    v_after: ProcessView,
    l_after: LoopView,
    t_after: ThreadView,
) -> bool {
    let here = t.active_loop == Some(l.id);
    match route {
        ProcessRoute::Ignore => v.connection_lost_called && v_after == v && l_after == l && t_after
            == t,
        ProcessRoute::Here { finish } => !v.connection_lost_called && here && !finish && v_after
            == process_lost(v) && l_after == l && t_after == t,
        ProcessRoute::Later(told) => !v.connection_lost_called && !here && is_process_end_reported(
            process_lost(v),
            l,
            t,
            PendingProcessEvent::ConnectionLost { reason },
            false,
            told@,
            v_after,
            l_after,
            t_after,
        ),
    }
}

/// What data from a pipe comes to.
pub open spec fn is_data_route(
    v: ProcessView,
    l: LoopView,
    t: ThreadView,
    fd: i32,
    data: Vec<u8>,
    route: DataRoute,
    v_after: ProcessView,
    l_after: LoopView,
    t_after: ThreadView,
) -> bool {
    let here = t.active_loop == Some(l.id);
    match route {
        DataRoute::Here(payload) => here && payload@ == data@ && v_after == v && l_after == l
            && t_after == t,
        DataRoute::Later(told) => !here && is_process_event_reported(
            v,
            l,
            t,
            PendingProcessEvent::PipeDataReceived { fd, data },
            told,
            v_after,
            l_after,
            t_after,
        ),
    }
}

/// A command for a process, as long as it runs.
pub open spec fn command_for(v: ProcessView, command: ProcessCommand) -> Result<
    ProcessCommand,
    ProcessError,
> {
    if v.returncode is Some {
        Err(ProcessError::NotRunning)
    } else {
        Ok(command)
    }
}

/// What it means that a command was sent, or was not.
pub open spec fn command_sent(sent: bool) -> Result<(), ProcessError> {
    if sent {
        Ok(())
    } else {
        Err(ProcessError::NotRunning)
    }
}

/// The transport of a pipe, where it is known.
pub open spec fn pipe_transport_of(v: ProcessView, fd: i32) -> Option<ObjectId> {
    if v.pipe_transports.contains_key(fd) {
        Some(v.pipe_transports[fd])
    } else {
        None
    }
}

/// What a list of transports adds to those that are known.
pub open spec fn registered(known: Map<i32, ObjectId>, transports: Seq<(i32, ObjectId)>) -> Map<
    i32,
    ObjectId,
>
    decreases transports.len(),
{
    if transports.len() == 0 {
        known
    } else {
        registered(known, transports.drop_last()).insert(transports.last().0, transports.last().1)
    }
}

/// One pipe's transport, where there is one, added to those that are known.
pub open spec fn with_pipe(
    known: Map<i32, ObjectId>,
    fd: i32,
    transport: Option<ObjectId>,
) -> Map<i32, ObjectId> {
    match transport {
        Some(transport) => known.insert(fd, transport),
        None => known,
    }
}

/// The transports of the three pipes, as far as they are there, added to those that are known.
pub open spec fn with_pipes(
    known: Map<i32, ObjectId>,
    stdin: Option<ObjectId>,
    stdout: Option<ObjectId>,
    stderr: Option<ObjectId>,
) -> Map<i32, ObjectId> {
    with_pipe(with_pipe(with_pipe(known, 0, stdin), 1, stdout), 2, stderr)
}

/// A process with other transports for its pipes.
pub open spec fn with_transports(v: ProcessView, pipe_transports: Map<i32, ObjectId>) -> ProcessView {
    ProcessView { pipe_transports, ..v }
}

/// How data from a pipe is handled.
pub enum DataRoute {
    /// Call the protocol here.
    Here(Vec<u8>),
    /// The loop will.
    Later(Option<Result<Sent, LoopCoreError>>),
}

/// The form in which the protocol gets the data.
#[derive(Clone, PartialEq, Eq, Debug)]
pub enum PipePayload {
    Bytes,
    /// As text, decoded as the text mode says, then with these replacements made one after the
    /// other.
    Decoded { replacements: Vec<Replacement> },
}

/// What follows when the protocol was told.
#[derive(Clone, Copy, PartialEq, Eq, Debug, Structural)]
pub enum AfterTelling {
    Done,
    /// Handle the loss of the connection.
    Lose,
    /// Report what the protocol raised, then fail with an error of the transport's own.
    ReportAndFail { raised: ObjectId, error: ProcessError },
    /// Fail with what the protocol raised.
    Fail(ObjectId),
}

/// What follows a closed pipe that the protocol was told of.
pub open spec fn after_pipe_loss(finish: bool, told: CallResult) -> AfterTelling {
    match told {
        Ok(_) => if finish {
            AfterTelling::Lose
        } else {
            AfterTelling::Done
        },
        Err(raised) => AfterTelling::ReportAndFail { raised, error: ProcessError::PipeLossFailed },
    }
}

/// What follows an exit that the protocol was told of.
pub open spec fn after_exit(finish: bool, told: CallResult) -> AfterTelling {
    match told {
        Ok(_) => if finish {
            AfterTelling::Lose
        } else {
            AfterTelling::Done
        },
        Err(raised) => AfterTelling::Fail(raised),
    }
}

/// What follows when the protocol was told of a closed pipe.
pub fn pipe_loss_told(finish: bool, told: CallResult) -> (after: AfterTelling)
    ensures
        after == after_pipe_loss(finish, told),
{
    match told {
        Ok(_) => {
            if finish {
                AfterTelling::Lose
            } else {
                AfterTelling::Done
            }
        },
        Err(raised) => AfterTelling::ReportAndFail { raised, error: ProcessError::PipeLossFailed },
    }
}

/// What follows when the protocol was told of the exit.
pub fn exit_told(finish: bool, told: CallResult) -> (after: AfterTelling)
    ensures
        after == after_exit(finish, told),
{
    match told {
        Ok(_) => {
            if finish {
                AfterTelling::Lose
            } else {
                AfterTelling::Done
            }
        },
        Err(raised) => AfterTelling::Fail(raised),
    }
}

/// How a loss is handled.
pub enum ProcessRoute {
    /// It was handled before.
    Ignore,
    /// Call the protocol here; then, where `finish` says so, handle the loss of the connection.
    Here { finish: bool },
    /// The loop will.
    Later(Vec<Option<Result<Sent, LoopCoreError>>>),
}

/// An error of the transport's own making.
#[derive(Clone, Copy, PartialEq, Eq, Debug, Structural)]
pub enum ProcessError {
    NotRunning,
    PipeLossFailed,
}

impl ProcessError {
    pub fn message(&self) -> (text: &'static str)
        ensures
            text@ == match *self {
                ProcessError::NotRunning => "process is not running"@,
                ProcessError::PipeLossFailed => "subprocess pipe_connection_lost failed"@,
            },
    {
        match self {
            ProcessError::NotRunning => "process is not running",
            ProcessError::PipeLossFailed => "subprocess pipe_connection_lost failed",
        }
    }

    /// The class of the exception that it becomes.
    pub open spec fn class(self) -> ExceptionClass {
        match self {
            ProcessError::NotRunning => ExceptionClass::ProcessLookupError,
            ProcessError::PipeLossFailed => ExceptionClass::RuntimeError,
        }
    }

    pub fn exception(&self) -> (class: ExceptionClass)
        ensures
            class == self.class(),
    {
        match self {
            ProcessError::NotRunning => ExceptionClass::ProcessLookupError,
            ProcessError::PipeLossFailed => ExceptionClass::RuntimeError,
        }
    }
}

pub struct ProcessTransportCore {
    id: ObjectId,
    loop_obj: ObjectId,
    protocol: ObjectId,
    context: ObjectId,
    context_needs_run: bool,
    pid: u32,
    returncode: Option<i32>,
    closing: bool,
    exited: bool,
    connection_lost_called: bool,
    open_pipes: HashSet<i32>,
    pipe_transports: HashMap<i32, ObjectId>,
    text_config: Option<ProcessTextConfig>,
    pending_events: VecDeque<PendingProcessEvent>,
    events_scheduled: bool,
}

impl View for ProcessTransportCore {
    type V = ProcessView;

    closed spec fn view(&self) -> ProcessView {
        ProcessView {
            id: self.id,
            loop_obj: self.loop_obj,
            protocol: self.protocol,
            context: self.context,
            context_needs_run: self.context_needs_run,
            pid: self.pid,
            returncode: self.returncode,
            closing: self.closing,
            exited: self.exited,
            connection_lost_called: self.connection_lost_called,
            open_pipes: self.open_pipes@,
            pipe_transports: self.pipe_transports@,
            text_config: self.text_config,
            events: self.pending_events@,
            scheduled: self.events_scheduled,
        }
    }
}

pub struct PyProcessTransport {
    pub core: ProcessTransportCore,
}

/// The transport of a process that runs.
pub fn spawn_process_transport(
    id: ObjectId,
    params: ProcessTransportParams,
    pid: u32,
    pipes: ProcessPipes,
) -> (transport: PyProcessTransport)
    ensures
        transport.core@ == fresh_process(id, params, pid, pipes),
{
    PyProcessTransport {
        core: ProcessTransportCore {
            id,
            loop_obj: params.loop_obj,
            protocol: params.protocol,
            context: params.context,
            context_needs_run: params.context_needs_run,
            pid,
            returncode: None,
            closing: false,
            exited: false,
            connection_lost_called: false,
            open_pipes: pipes.open_pipes(),
            pipe_transports: HashMap::new(),
            text_config: params.text_config,
            pending_events: VecDeque::new(),
            events_scheduled: false,
        },
    }
}

impl ProcessTransportCore {
    pub fn get_returncode(&self) -> (returncode: Option<i32>)
        ensures
            returncode == self@.returncode,
    {
        self.returncode
    }

    pub fn is_closing(&self) -> (closing: bool)
        ensures
            closing == self@.closing,
    {
        self.closing
    }

    pub fn pid(&self) -> (pid: u32)
        ensures
            pid == self@.pid,
    {
        self.pid
    }

    pub fn text_config(&self) -> (text_config: &Option<ProcessTextConfig>)
        ensures
            *text_config == self@.text_config,
    {
        &self.text_config
    }

    pub fn pipe_transport(&self, fd: i32) -> (transport: Option<ObjectId>)
        ensures
            transport == pipe_transport_of(self@, fd),
    {
        match self.pipe_transports.get(&fd) {
            Some(transport) => Some(*transport),
            None => None,
        }
    }

    pub fn has_open_pipe(&self, fd: i32) -> (open: bool)
        ensures
            open == self@.open_pipes.contains(fd),
    {
        self.open_pipes.contains(&fd)
    }

    pub fn set_closing(&mut self)
        ensures
            final(self)@ == process_closing(old(self)@),
    {
        self.closing = true;
    }

    /// Reports an event to the loop.
    pub fn enqueue_pending_event(
        &mut self,
        loop_core: &mut LoopCore,
        thread: &mut ThreadReady,
        event: PendingProcessEvent,
    ) -> (told: Option<Result<Sent, LoopCoreError>>)
        ensures
            is_process_event_reported(
                old(self)@,
                old(loop_core)@,
                old(thread)@,
                event,
                told,
                final(self)@,
                final(loop_core)@,
                final(thread)@,
            ),
    {
        self.pending_events.push_back(event);
        if self.events_scheduled {
            return None;
        }
        let command = LoopCommand::Transport(LoopTransportCommand::Process(self.id));
        let result = loop_core.send_command(thread, command);
        self.events_scheduled = result.is_ok();
        Some(result)
    }

    fn report_end(
        &mut self,
        loop_core: &mut LoopCore,
        thread: &mut ThreadReady,
        event: PendingProcessEvent,
        finish: bool,
    ) -> (told: Vec<Option<Result<Sent, LoopCoreError>>>)
        ensures
            is_process_end_reported(
                old(self)@,
                old(loop_core)@,
                old(thread)@,
                event,
                finish,
                told@,
                final(self)@,
                final(loop_core)@,
                final(thread)@,
            ),
    {
        let mut told: Vec<Option<Result<Sent, LoopCoreError>>> = Vec::new();
        let first = self.enqueue_pending_event(loop_core, thread, event);
        told.push(first);
        if finish {
            let ghost v1 = self@;
            let ghost l1 = loop_core@;
            let ghost t1 = thread@;
            let second = self.enqueue_pending_event(
                loop_core,
                thread,
                PendingProcessEvent::ConnectionLost { reason: None },
            );
            told.push(second);
            assert(is_process_event_reported(
                v1,
                l1,
                t1,
                PendingProcessEvent::ConnectionLost { reason: None },
                told@[1],
                self@,
                loop_core@,
                thread@,
            ));
        }
        told
    }

    /// A pipe was closed. One that was closed before is ignored.
    pub fn pipe_connection_lost_message(
        &mut self,
        loop_core: &mut LoopCore,
        thread: &mut ThreadReady,
        fd: i32,
        reason: Option<String>,
    ) -> (route: ProcessRoute)
        ensures
            is_pipe_loss_route(
                old(self)@,
                old(loop_core)@,
                old(thread)@,
                fd,
                reason,
                route,
                final(self)@,
                final(loop_core)@,
                final(thread)@,
            ),
    {
        if !self.open_pipes.remove(&fd) {
            assert(self@.open_pipes =~= old(self)@.open_pipes);
            return ProcessRoute::Ignore;
        }
        assert(self@ =~= pipe_closed(old(self)@, fd).0);
        let finish = self.exited && self.open_pipes.is_empty();
        if !loop_core.on_runtime_thread(thread) {
            return ProcessRoute::Later(
                self.report_end(
                    loop_core,
                    thread,
                    PendingProcessEvent::PipeConnectionLost { fd, reason },
                    finish,
                ),
            );
        }
        ProcessRoute::Here { finish }
    }

    /// The process exited. Those who wait for that have to be woken.
    pub fn process_exited(
        &mut self,
        loop_core: &mut LoopCore,
        thread: &mut ThreadReady,
        returncode: i32,
    ) -> (route: ProcessRoute)
        ensures
            is_exit_route(
                old(self)@,
                old(loop_core)@,
                old(thread)@,
                returncode,
                route,
                final(self)@,
                final(loop_core)@,
                final(thread)@,
            ),
    {
        self.returncode = Some(returncode);
        self.exited = true;
        let finish = self.open_pipes.is_empty();
        if !loop_core.on_runtime_thread(thread) {
            return ProcessRoute::Later(
                self.report_end(
                    loop_core,
                    thread,
                    PendingProcessEvent::ProcessExited { returncode },
                    finish,
                ),
            );
        }
        ProcessRoute::Here { finish }
    }

    /// The connection is lost. That is handled once.
    pub fn connection_lost_message(
        &mut self,
        loop_core: &mut LoopCore,
        thread: &mut ThreadReady,
        reason: Option<String>,
    ) -> (route: ProcessRoute)
        ensures
            is_process_loss_route(
                old(self)@,
                old(loop_core)@,
                old(thread)@,
                reason,
                route,
                final(self)@,
                final(loop_core)@,
                final(thread)@,
            ),
    {
        if self.connection_lost_called {
            return ProcessRoute::Ignore;
        }
        self.connection_lost_called = true;
        self.closing = true;
        if !loop_core.on_runtime_thread(thread) {
            return ProcessRoute::Later(
                self.report_end(
                    loop_core,
                    thread,
                    PendingProcessEvent::ConnectionLost { reason },
                    false,
                ),
            );
        }
        ProcessRoute::Here { finish: false }
    }

    /// A pipe brought data.
    pub fn pipe_data_received(
        &mut self,
        loop_core: &mut LoopCore,
        thread: &mut ThreadReady,
        fd: i32,
        data: Vec<u8>,
    ) -> (route: DataRoute)
        ensures
            is_data_route(
                old(self)@,
                old(loop_core)@,
                old(thread)@,
                fd,
                data,
                route,
                final(self)@,
                final(loop_core)@,
                final(thread)@,
            ),
    {
        if !loop_core.on_runtime_thread(thread) {
            return DataRoute::Later(
                self.enqueue_pending_event(
                    loop_core,
                    thread,
                    PendingProcessEvent::PipeDataReceived { fd, data },
                ),
            );
        }
        DataRoute::Here(data)
    }

    /// What becomes of data before the protocol gets it.
    pub fn pipe_payload(&self) -> (payload: PipePayload)
        ensures
            match self@.text_config {
                Some(config) => payload matches PipePayload::Decoded { replacements }
                    && are_newline_replacements(replacements@, config.translate_newlines),
                None => payload is Bytes,
            },
    {
        match &self.text_config {
            Some(config) => PipePayload::Decoded {
                replacements: newline_replacements(config.translate_newlines),
            },
            None => PipePayload::Bytes,
        }
    }

    /// Remembers the transports of the pipes. Of two for one pipe the later one stays.
    pub fn register_pipe_transports(&mut self, transports: &Vec<(i32, ObjectId)>)
        ensures
            final(self)@ == with_transports(
                old(self)@,
                registered(old(self)@.pipe_transports, transports@),
            ),
    {
        let ghost start = *self;
        let mut done: usize = 0;
        assert(transports@.take(0) =~= Seq::empty());
        while done < transports.len()
            invariant
                done <= transports@.len(),
                start == *old(self),
                self@ == (ProcessView {
                    pipe_transports: registered(
                        start@.pipe_transports,
                        transports@.take(done as int),
                    ),
                    ..start@
                }),
            decreases transports@.len() - done,
        {
            let (fd, transport) = transports[done];
            self.pipe_transports.insert(fd, transport);
            assert(transports@.take(done + 1).drop_last() =~= transports@.take(done as int));
            done += 1;
        }
        assert(transports@.take(transports@.len() as int) =~= transports@);
    }

    /// Gives each pipe that is there its transport.
    pub fn register_initial_pipe_transports(
        &mut self,
        stdin: Option<ObjectId>,
        stdout: Option<ObjectId>,
        stderr: Option<ObjectId>,
    )
        ensures
            final(self)@ == with_transports(
                old(self)@,
                with_pipes(old(self)@.pipe_transports, stdin, stdout, stderr),
            ),
    {
        let ghost start = self@.pipe_transports;
        let mut entries: Vec<(i32, ObjectId)> = Vec::new();
        assert(registered(start, entries@) == start);
        if let Some(transport) = stdin {
            let ghost before = entries@;
            entries.push((0, transport));
            assert(entries@.drop_last() =~= before);
        }
        assert(registered(start, entries@) == with_pipe(start, 0, stdin));
        if let Some(transport) = stdout {
            let ghost before = entries@;
            entries.push((1, transport));
            assert(entries@.drop_last() =~= before);
        }
        assert(registered(start, entries@) == with_pipe(with_pipe(start, 0, stdin), 1, stdout));
        if let Some(transport) = stderr {
            let ghost before = entries@;
            entries.push((2, transport));
            assert(entries@.drop_last() =~= before);
        }
        self.register_pipe_transports(&entries);
    }

    fn take_events(&mut self) -> (events: VecDeque<PendingProcessEvent>)
        ensures
            events@ == old(self)@.events,
            final(self)@ == (ProcessView { events: Seq::empty(), ..old(self)@ }),
    {
        let mut events: VecDeque<PendingProcessEvent> = VecDeque::new();
        core::mem::swap(&mut self.pending_events, &mut events);
        events
    }
}

/// What a drain does next.
pub enum ProcessDrainAction {
    CallPipeData { fd: i32, data: Vec<u8> },
    CallPipeLost { fd: i32, reason: Option<String> },
    CallExited { returncode: i32 },
    /// Tell the protocol of the loss of the connection.
    Lose(Option<String>),
    /// Report what a call raised, then tell the protocol of the loss of the connection.
    ReportAndLose { call: ProcessCall, raised: ObjectId },
    Finish,
}

/// A method of the protocol.
#[derive(Clone, Copy, PartialEq, Eq, Debug, Structural)]
pub enum ProcessCall {
    PipeData,
    PipeLost,
    Exited,
    ConnectionLost,
}

/// The message under which the failure of such a call is reported.
pub fn process_call_message(call: ProcessCall) -> (text: &'static str)
    ensures
        text@ == match call {
            ProcessCall::PipeData => "subprocess pipe_data_received failed"@,
            ProcessCall::PipeLost => "subprocess pipe_connection_lost failed"@,
            ProcessCall::Exited => "subprocess process_exited failed"@,
            ProcessCall::ConnectionLost => "subprocess connection_lost failed"@,
        },
{
    match call {
        ProcessCall::PipeData => "subprocess pipe_data_received failed",
        ProcessCall::PipeLost => "subprocess pipe_connection_lost failed",
        ProcessCall::Exited => "subprocess process_exited failed",
        ProcessCall::ConnectionLost => "subprocess connection_lost failed",
    }
}

/// What a drain waits for.
#[derive(Clone, Copy, PartialEq, Eq, Debug, Structural)]
pub enum ProcessDrainPhase {
    Working,
    Calling(ProcessCall),
    Concluding,
}

/// What came of the action before.
#[derive(Clone, Copy, PartialEq, Eq, Debug, Structural)]
pub enum ProcessDrainEvent {
    Begin,
    Done,
    Raised(ObjectId),
}

/// The model of a drain, with the transport that it works for.
#[verifier::ext_equal]
pub struct ProcessDrainView {
    pub core: ProcessView,
    pub taken: Seq<PendingProcessEvent>,
    pub phase: ProcessDrainPhase,
}

/// What an event asks for.
pub open spec fn process_event_asks(event: PendingProcessEvent) -> (
    ProcessDrainPhase,
    ProcessDrainAction,
) {
    match event {
        PendingProcessEvent::PipeDataReceived { fd, data } => (
            ProcessDrainPhase::Calling(ProcessCall::PipeData),
            ProcessDrainAction::CallPipeData { fd, data },
        ),
        PendingProcessEvent::PipeConnectionLost { fd, reason } => (
            ProcessDrainPhase::Calling(ProcessCall::PipeLost),
            ProcessDrainAction::CallPipeLost { fd, reason },
        ),
        PendingProcessEvent::ProcessExited { returncode } => (
            ProcessDrainPhase::Calling(ProcessCall::Exited),
            ProcessDrainAction::CallExited { returncode },
        ),
        PendingProcessEvent::ConnectionLost { reason } => (
            ProcessDrainPhase::Concluding,
            ProcessDrainAction::Lose(reason),
        ),
    }
}

/// The next event, or the end where there is none.
pub open spec fn process_next(d: ProcessDrainView) -> (ProcessDrainView, ProcessDrainAction) {
    let d1 = if d.taken.len() == 0 {
        ProcessDrainView {
            taken: d.core.events,
            core: ProcessView { events: Seq::empty(), ..d.core },
            ..d
        }
    } else {
        d
    };
    if d1.taken.len() == 0 {
        (
            ProcessDrainView {
                core: ProcessView { scheduled: false, ..d1.core },
                phase: ProcessDrainPhase::Working,
                ..d1
            },
            ProcessDrainAction::Finish,
        )
    } else {
        let (phase, action) = process_event_asks(d1.taken[0]);
        (ProcessDrainView { taken: d1.taken.drop_first(), phase, ..d1 }, action)
    }
}

/// The drain is over: what it took and did not get to is dropped.
pub open spec fn process_concluded(d: ProcessDrainView) -> ProcessDrainView {
    ProcessDrainView {
        core: ProcessView { scheduled: false, ..d.core },
        taken: Seq::empty(),
        phase: ProcessDrainPhase::Working,
    }
}

/// One step of a drain. A call that raises ends it, and so does the loss of the connection.
pub open spec fn process_drain_step(d: ProcessDrainView, event: ProcessDrainEvent) -> (
    ProcessDrainView,
    ProcessDrainAction,
) {
    match (d.phase, event) {
        (ProcessDrainPhase::Working, ProcessDrainEvent::Begin) => process_next(d),
        (ProcessDrainPhase::Calling(_), ProcessDrainEvent::Done) => process_next(d),
        (ProcessDrainPhase::Calling(call), ProcessDrainEvent::Raised(raised)) => (
            ProcessDrainView { phase: ProcessDrainPhase::Concluding, ..d },
            ProcessDrainAction::ReportAndLose { call, raised },
        ),
        _ => (process_concluded(d), ProcessDrainAction::Finish),
    }
}

/// Works the events of a process off, one after the other.
pub struct ProcessDrain {
    taken: VecDeque<PendingProcessEvent>,
    phase: ProcessDrainPhase,
}

impl ProcessDrain {
    pub closed spec fn spec_taken(&self) -> Seq<PendingProcessEvent> {
        self.taken@
    }

    pub closed spec fn spec_phase(&self) -> ProcessDrainPhase {
        self.phase
    }

    /// The drain together with the process whose events it works off.
    pub open spec fn on(&self, core: ProcessView) -> ProcessDrainView {
        ProcessDrainView { core, taken: self.spec_taken(), phase: self.spec_phase() }
    }

    pub fn new() -> (drain: Self)
        ensures
            forall|core: ProcessView| #[trigger]
                drain.on(core) == (ProcessDrainView {
                    core,
                    taken: Seq::empty(),
                    phase: ProcessDrainPhase::Working,
                }),
    {
        ProcessDrain { taken: VecDeque::new(), phase: ProcessDrainPhase::Working }
    }

    fn next(&mut self, core: &mut ProcessTransportCore) -> (action: ProcessDrainAction)
        ensures
            (final(self).on(final(core)@), action) == process_next(old(self).on(old(core)@)),
    {
        if self.taken.len() == 0 {
            self.taken = core.take_events();
        }
        let ghost d1 = self.on(core@);
        match self.taken.pop_front() {
            None => {
                core.events_scheduled = false;
                self.phase = ProcessDrainPhase::Working;
                ProcessDrainAction::Finish
            },
            Some(event) => {
                assert(self.taken@ =~= d1.taken.drop_first());
                match event {
                    PendingProcessEvent::PipeDataReceived { fd, data } => {
                        self.phase = ProcessDrainPhase::Calling(ProcessCall::PipeData);
                        ProcessDrainAction::CallPipeData { fd, data }
                    },
                    PendingProcessEvent::PipeConnectionLost { fd, reason } => {
                        self.phase = ProcessDrainPhase::Calling(ProcessCall::PipeLost);
                        ProcessDrainAction::CallPipeLost { fd, reason }
                    },
                    PendingProcessEvent::ProcessExited { returncode } => {
                        self.phase = ProcessDrainPhase::Calling(ProcessCall::Exited);
                        ProcessDrainAction::CallExited { returncode }
                    },
                    PendingProcessEvent::ConnectionLost { reason } => {
                        self.phase = ProcessDrainPhase::Concluding;
                        ProcessDrainAction::Lose(reason)
                    },
                }
            },
        }
    }

    /// Takes what came of the action before and says what to do next.
    pub fn step(&mut self, core: &mut ProcessTransportCore, event: ProcessDrainEvent) -> (action:
        ProcessDrainAction)
        ensures
            (final(self).on(final(core)@), action) == process_drain_step(
                old(self).on(old(core)@),
                event,
            ),
    {
        match (self.phase, event) {
            (ProcessDrainPhase::Working, ProcessDrainEvent::Begin) => self.next(core),
            (ProcessDrainPhase::Calling(_), ProcessDrainEvent::Done) => self.next(core),
            (ProcessDrainPhase::Calling(call), ProcessDrainEvent::Raised(raised)) => {
                self.phase = ProcessDrainPhase::Concluding;
                ProcessDrainAction::ReportAndLose { call, raised }
            },
            _ => {
                core.events_scheduled = false;
                self.taken.clear();
                self.phase = ProcessDrainPhase::Working;
                ProcessDrainAction::Finish
            },
        }
    }
}

/// What one does who waits for the exit.
#[derive(Clone, Copy, PartialEq, Eq, Debug, Structural)]
pub enum ProcessWaitAction {
    Return(i32),
    /// Ask for a notice of the exit.
    Listen,
    /// Wait for the notice.
    Wait,
}

/// What came of the action before.
#[derive(Clone, Copy, PartialEq, Eq, Debug, Structural)]
pub enum ProcessWaitEvent {
    Begin,
    Listening,
    Noticed,
}

/// One step of waiting for the exit.
pub open spec fn wait_step(v: ProcessView, event: ProcessWaitEvent) -> ProcessWaitAction {
    match (v.returncode, event) {
        (Some(returncode), _) => ProcessWaitAction::Return(returncode),
        (None, ProcessWaitEvent::Listening) => ProcessWaitAction::Wait,
        (None, _) => ProcessWaitAction::Listen,
    }
}

impl PyProcessTransport {
    pub fn get_pid(&self) -> (pid: u32)
        ensures
            pid == self.core@.pid,
    {
        self.core.pid()
    }

    pub fn get_returncode(&self) -> (returncode: Option<i32>)
        ensures
            returncode == self.core@.returncode,
    {
        self.core.get_returncode()
    }

    pub fn is_closing(&self) -> (closing: bool)
        ensures
            closing == self.core@.closing,
    {
        self.core.is_closing()
    }

    pub fn get_pipe_transport(&self, fd: i32) -> (transport: Option<ObjectId>)
        ensures
            transport == pipe_transport_of(self.core@, fd),
    {
        self.core.pipe_transport(fd)
    }

    /// One step of waiting for the exit.
    pub fn wait(&self, event: ProcessWaitEvent) -> (action: ProcessWaitAction)
        ensures
            action == wait_step(self.core@, event),
    {
        match (self.core.get_returncode(), event) {
            (Some(returncode), _) => ProcessWaitAction::Return(returncode),
            (None, ProcessWaitEvent::Listening) => ProcessWaitAction::Wait,
            (None, _) => ProcessWaitAction::Listen,
        }
    }

    /// A process that exited takes no signals.
    pub fn control(&self, command: ProcessCommand) -> (send: Result<ProcessCommand, ProcessError>)
        ensures
            send == command_for(self.core@, command),
    {
        if self.core.get_returncode().is_some() {
            return Err(ProcessError::NotRunning);
        }
        Ok(command)
    }

    pub fn send_signal(&self, sig: i32) -> (send: Result<ProcessCommand, ProcessError>)
        ensures
            send == command_for(self.core@, ProcessCommand::SendSignal(sig)),
    {
        self.control(ProcessCommand::SendSignal(sig))
    }

    pub fn terminate(&self) -> (send: Result<ProcessCommand, ProcessError>)
        ensures
            send == command_for(self.core@, ProcessCommand::Terminate),
    {
        self.control(ProcessCommand::Terminate)
    }

    pub fn kill(&self) -> (send: Result<ProcessCommand, ProcessError>)
        ensures
            send == command_for(self.core@, ProcessCommand::Kill),
    {
        self.control(ProcessCommand::Kill)
    }

    /// What it means that the command was sent, or that nobody was there to take it.
    pub fn control_sent(sent: bool) -> (done: Result<(), ProcessError>)
        ensures
            done == command_sent(sent),
    {
        if sent {
            Ok(())
        } else {
            Err(ProcessError::NotRunning)
        }
    }

    /// Closes the transport. The result is the standard input, which has to be closed; then the
    /// waiter gets the command to close.
    pub fn close(&mut self) -> (stdin: Option<ObjectId>)
        ensures
            final(self).core@ == process_closing(old(self).core@),
            stdin == pipe_transport_of(old(self).core@, 0),
    {
        self.core.set_closing();
        self.core.pipe_transport(0)
    }

    pub fn repr(&self) -> (text: String)
        ensures
            text@ == "<ProcessTransport pid="@ + decimal(self.core@.pid as nat) + " returncode="@ + (
            match self.core@.returncode {
                Some(code) => "Some("@ + signed_decimal(code as int) + ")"@,
                None => "None"@,
            }) + " closing="@ + flag_text(self.core@.closing) + ">"@,
    {
        let mut text = "<ProcessTransport pid=".to_owned();
        push_decimal(&mut text, self.core.pid() as u64);
        text.append(" returncode=");
        let ghost before = text@;
        match self.core.get_returncode() {
            Some(code) => {
                text.append("Some(");
                push_signed_decimal(&mut text, code as i64);
                text.append(")");
                assert(text@ =~= before + ("Some("@ + signed_decimal(code as int) + ")"@));
            },
            None => text.append("None"),
        }
        text.append(" closing=");
        push_flag(&mut text, self.core.is_closing());
        text.append(">");
        text
    }
}

/// A pipe of a process, as its protocol sees it.
pub struct PyProcessPipeTransport {
    fd: i32,
    closing: bool,
}

impl PyProcessPipeTransport {
    pub closed spec fn spec_fd(&self) -> i32 {
        self.fd
    }

    pub closed spec fn spec_closing(&self) -> bool {
        self.closing
    }

    pub fn new(fd: i32) -> (pipe: Self)
        ensures
            pipe.spec_fd() == fd,
            !pipe.spec_closing(),
    {
        PyProcessPipeTransport { fd, closing: false }
    }

    pub fn close(&mut self)
        ensures
            final(self).spec_closing(),
            final(self).spec_fd() == old(self).spec_fd(),
    {
        self.closing = true;
    }

    pub fn is_closing(&self) -> (closing: bool)
        ensures
            closing == self.spec_closing(),
    {
        self.closing
    }

    /// Nothing is known of a pipe, so the answer is what the caller gave for that.
    pub fn get_extra_info(&self, name: &str, default: Option<ObjectId>) -> (found: Option<ObjectId>)
        ensures
            found == default,
    {
        let _ = name;
        default
    }

    pub fn repr(&self) -> (text: String)
        ensures
            text@ == "<ProcessPipeTransport fd="@ + signed_decimal(self.spec_fd() as int)
                + " closing="@ + flag_text(self.spec_closing()) + ">"@,
    {
        let mut text = "<ProcessPipeTransport fd=".to_owned();
        push_signed_decimal(&mut text, self.fd as i64);
        text.append(" closing=");
        push_flag(&mut text, self.closing);
        text.append(">");
        text
    }
}

/// The protocol of the standard input, which only hears of its loss.
pub struct PyProcessStdinProtocol {}

impl PyProcessStdinProtocol {
    /// The standard input was closed.
    pub fn connection_lost(
        &self,
        core: &mut ProcessTransportCore,
        loop_core: &mut LoopCore,
        thread: &mut ThreadReady,
    ) -> (route: ProcessRoute)
        ensures
            is_pipe_loss_route(
                old(core)@,
                old(loop_core)@,
                old(thread)@,
                0,
                None,
                route,
                final(core)@,
                final(loop_core)@,
                final(thread)@,
            ),
    {
        if !core.has_open_pipe(0) {
            return ProcessRoute::Ignore;
        }
        core.pipe_connection_lost_message(loop_core, thread, 0, None)
    }
}

/// The encoding and the error handling of the text mode, each under its name.
pub open spec fn are_text_entries(
    text_config: Option<ProcessTextConfig>,
    entries: Option<Vec<(String, String)>>,
) -> bool {
    match text_config {
        None => entries is None,
        Some(config) => entries matches Some(entries) && entries@.len() == 2 && entries@[0].0@
            == "text_encoding"@ && entries@[0].1@ == config.encoding@ && entries@[1].0@
            == "text_errors"@ && entries@[1].1@ == config.errors@,
    }
}

/// What the extra info of the standard input says of the text mode: names, each with its value.
pub fn process_text_extra_entries(text_config: &Option<ProcessTextConfig>) -> (entries: Option<
    Vec<(String, String)>,
>)
    ensures
        are_text_entries(*text_config, entries),
{
    match text_config {
        None => None,
        Some(config) => {
            let mut entries: Vec<(String, String)> = Vec::new();
            entries.push(("text_encoding".to_owned(), config.encoding.as_str().to_owned()));
            entries.push(("text_errors".to_owned(), config.errors.as_str().to_owned()));
            Some(entries)
        },
    }
}

/// A thread that reads a pipe.
#[derive(Clone, Copy, PartialEq, Eq, Debug, Structural)]
pub struct ReaderWorker {
    pub fd: i32,
    pub reader: ObjectId,
}

/// The readers that a process needs: one for each output that is a pipe.
pub open spec fn reader_workers(pipes: ProcessPipes) -> Seq<ReaderWorker> {
    let first = match pipes.stdout {
        Some(reader) => seq![ReaderWorker { fd: 1, reader }],
        None => Seq::empty(),
    };
    match pipes.stderr {
        Some(reader) => first.push(ReaderWorker { fd: 2, reader }),
        None => first,
    }
}

/// The readers to start, in this order. The waiter is started after them.
pub fn spawn_process_workers(pipes: ProcessPipes) -> (workers: Vec<ReaderWorker>)
    ensures
        workers@ == reader_workers(pipes),
{
    let mut workers: Vec<ReaderWorker> = Vec::new();
    if let Some(reader) = pipes.stdout {
        workers.push(ReaderWorker { fd: 1, reader });
    }
    if let Some(reader) = pipes.stderr {
        workers.push(ReaderWorker { fd: 2, reader });
    }
    assert(workers@ =~= reader_workers(pipes));
    workers
}

/// The name of the thread that reads a pipe.
pub fn reader_thread_name(fd: i32) -> (name: &'static str)
    ensures
        name@ == if fd == 1 {
            "rsloop-process-stdout"@
        } else {
            "rsloop-process-stderr"@
        },
{
    if fd == 1 {
        "rsloop-process-stdout"
    } else {
        "rsloop-process-stderr"
    }
}

/// The message of the error that a thread could not be started.
pub fn spawn_failed_message(what: &str, reason: &str) -> (text: String)
    ensures
        text@ == "failed to spawn "@ + what@ + ": "@ + reason@,
{
    let mut text = "failed to spawn ".to_owned();
    text.append(what);
    text.append(": ");
    text.append(reason);
    text
}

/// The exit code of a process.
pub open spec fn exit_code_of(code: Option<i32>, signal: Option<i32>) -> int {
    match (code, signal) {
        (Some(code), _) => code as int,
        (None, Some(signal)) => -signal,
        (None, None) => -1,
    }
}

/// The exit code of a process: its own, or the negative of the signal that ended it, or minus one
/// where neither is known.
pub fn process_exit_code(code: Option<i32>, signal: Option<i32>) -> (exit_code: i32)
    requires
        signal != Some(i32::MIN),
    ensures
        exit_code == exit_code_of(code, signal),
{
    match (code, signal) {
        (Some(code), _) => code,
        (None, Some(signal)) => -signal,
        (None, None) => -1,
    }
}

/// What is done to a child process.
#[derive(Clone, Copy, PartialEq, Eq, Debug, Structural)]
pub enum ChildCall {
    Kill,
    Signal { signal: i32, terminate: bool },
}

/// The message under which the failure of that is reported.
pub fn child_call_message(call: ChildCall) -> (text: &'static str)
    ensures
        text@ == match call {
            ChildCall::Kill => "subprocess kill failed"@,
            ChildCall::Signal { terminate: true, .. } => "subprocess terminate failed"@,
            ChildCall::Signal { terminate: false, .. } => "subprocess send_signal failed"@,
        },
{
    match call {
        ChildCall::Kill => "subprocess kill failed",
        ChildCall::Signal { terminate: true, .. } => "subprocess terminate failed",
        ChildCall::Signal { terminate: false, .. } => "subprocess send_signal failed",
    }
}

/// What a command does to the process.
pub open spec fn child_call_for(command: ProcessCommand) -> ChildCall {
    match command {
        ProcessCommand::Close => ChildCall::Kill,
        ProcessCommand::Kill => ChildCall::Kill,
        ProcessCommand::Terminate => ChildCall::Signal { signal: SIGTERM, terminate: true },
        ProcessCommand::SendSignal(signal) => ChildCall::Signal { signal, terminate: false },
    }
}

/// Closing the transport kills the process.
pub fn handle_process_command(command: ProcessCommand) -> (call: ChildCall)
    ensures
        call == child_call_for(command),
{
    match command {
        ProcessCommand::Close => ChildCall::Kill,
        ProcessCommand::Kill => ChildCall::Kill,
        ProcessCommand::Terminate => ChildCall::Signal { signal: sigterm(), terminate: true },
        ProcessCommand::SendSignal(signal) => ChildCall::Signal { signal, terminate: false },
    }
}

/// What the reader of a pipe does next.
pub enum PipeReaderAction {
    Read,
    /// Hand the data over, then read again.
    Deliver(Vec<u8>),
    /// Close the pipe, then end.
    ClosePipe(Option<String>),
    /// Report what the call raised, close the pipe, then end.
    ReportAndClosePipe(ObjectId),
}

/// What came of the action before.
pub enum PipeReaderEvent {
    Again,
    /// What was read. Nothing means that the pipe was closed.
    Received(Vec<u8>),
    ReadFailed(String),
    DeliveryFailed(ObjectId),
}

/// What the reader of a pipe does.
pub open spec fn pipe_reader_does(event: PipeReaderEvent) -> PipeReaderAction {
    match event {
        PipeReaderEvent::Again => PipeReaderAction::Read,
        PipeReaderEvent::Received(data) => if data@.len() == 0 {
            PipeReaderAction::ClosePipe(None)
        } else {
            PipeReaderAction::Deliver(data)
        },
        PipeReaderEvent::ReadFailed(text) => PipeReaderAction::ClosePipe(Some(text)),
        PipeReaderEvent::DeliveryFailed(raised) => PipeReaderAction::ReportAndClosePipe(raised),
    }
}

/// One step of the reader of a pipe.
pub fn run_process_reader(event: PipeReaderEvent) -> (action: PipeReaderAction)
    ensures
        action == pipe_reader_does(event),
{
    match event {
        PipeReaderEvent::Again => PipeReaderAction::Read,
        PipeReaderEvent::Received(data) => {
            if data.len() == 0 {
                PipeReaderAction::ClosePipe(None)
            } else {
                PipeReaderAction::Deliver(data)
            }
        },
        PipeReaderEvent::ReadFailed(text) => PipeReaderAction::ClosePipe(Some(text)),
        PipeReaderEvent::DeliveryFailed(raised) => PipeReaderAction::ReportAndClosePipe(raised),
    }
}

/// What the waiter of a process does next.
#[derive(Clone, Copy, PartialEq, Eq, Debug, Structural)]
pub enum WaiterAction {
    /// Look whether the process exited.
    TryWait,
    /// Close the standard input where `close_stdin` says so, then handle the exit, then end.
    HandleExit { returncode: i32, close_stdin: bool },
    /// Report that waiting failed, handle the loss of the connection, then end.
    ReportAndLose,
    /// Wait for a command, at most for the poll interval.
    Receive,
    Call(ChildCall),
    Finish,
}

/// What came of the action before.
#[derive(Clone, Copy, PartialEq, Eq, Debug, Structural)]
pub enum WaiterEvent {
    Again,
    Exited { code: Option<i32>, signal: Option<i32> },
    Running,
    WaitFailed,
    Command(ProcessCommand),
    Timeout,
    Disconnected,
}

/// The message under which it is reported that waiting failed.
pub fn wait_failed_message() -> (text: &'static str)
    ensures
        text@ == "subprocess wait failed"@,
{
    "subprocess wait failed"
}

/// What the waiter of a process does.
pub open spec fn is_waiter_step(v: ProcessView, event: WaiterEvent, action: WaiterAction) -> bool {
    match event {
        WaiterEvent::Again => action == WaiterAction::TryWait,
        WaiterEvent::Exited { code, signal } => action is HandleExit
            && action->HandleExit_returncode == exit_code_of(code, signal)
            && action->HandleExit_close_stdin == v.open_pipes.contains(0),
        WaiterEvent::Running => action == WaiterAction::Receive,
        WaiterEvent::WaitFailed => action == WaiterAction::ReportAndLose,
        WaiterEvent::Command(command) => action == WaiterAction::Call(child_call_for(command)),
        WaiterEvent::Timeout => action == WaiterAction::TryWait,
        WaiterEvent::Disconnected => action == WaiterAction::Finish,
    }
}

/// One step of the waiter of a process.
pub fn run_process_waiter(core: &ProcessTransportCore, event: WaiterEvent) -> (action: WaiterAction)
    requires
        event matches WaiterEvent::Exited { signal, .. } ==> signal != Some(i32::MIN),
    ensures
        is_waiter_step(core@, event, action),
{
    match event {
        WaiterEvent::Again => WaiterAction::TryWait,
        WaiterEvent::Exited { code, signal } => WaiterAction::HandleExit {
            returncode: process_exit_code(code, signal),
            close_stdin: core.has_open_pipe(0),
        },
        WaiterEvent::Running => WaiterAction::Receive,
        WaiterEvent::WaitFailed => WaiterAction::ReportAndLose,
        WaiterEvent::Command(command) => WaiterAction::Call(handle_process_command(command)),
        WaiterEvent::Timeout => WaiterAction::TryWait,
        WaiterEvent::Disconnected => WaiterAction::Finish,
    }
}

/// Something that happens to a process.
#[derive(Clone, Copy, PartialEq, Eq, Debug, Structural)]
pub enum Happening {
    PipeClosed(i32),
    Exited(i32),
}

/// What it comes to, and whether the loss of the connection falls due by it. A pipe that is closed
/// already does not count.
pub open spec fn happened(v: ProcessView, happening: Happening) -> (ProcessView, bool) {
    match happening {
        Happening::PipeClosed(fd) => if v.open_pipes.contains(fd) {
            pipe_closed(v, fd)
        } else {
            (v, false)
        },
        Happening::Exited(returncode) => exited(v, returncode),
    }
}

/// What a course of events comes to, and how often the loss of the connection fell due in it.
pub open spec fn run_of(v: ProcessView, happenings: Seq<Happening>) -> (ProcessView, nat)
    decreases happenings.len(),
{
    if happenings.len() == 0 {
        (v, 0)
    } else {
        let (before, times) = run_of(v, happenings.drop_last());
        let (after, due) = happened(before, happenings.last());
        (
            after,
            if due {
                times + 1
            } else {
                times
            },
        )
    }
}

/// A process that exited does not exit again.
pub open spec fn exits_once(v: ProcessView, happenings: Seq<Happening>) -> bool {
    forall|i: int|
        0 <= i < happenings.len() && #[trigger] happenings[i] is Exited ==> !run_of(
            v,
            happenings.take(i),
        ).0.exited
}

/// The loss of the connection falls due once, and that is when the process exited and its pipes are
/// closed, in whatever order these things happen.
pub proof fn law_loss_is_due_once(v: ProcessView, happenings: Seq<Happening>)
    requires
        !is_over(v),
        exits_once(v, happenings),
    ensures
        run_of(v, happenings).1 == if is_over(run_of(v, happenings).0) {
            1nat
        } else {
            0nat
        },
    decreases happenings.len(),
{
    if happenings.len() > 0 {
        let front = happenings.drop_last();
        assert(happenings.take(happenings.len() - 1) =~= front);
        assert forall|i: int| 0 <= i < front.len() && #[trigger] front[i] is Exited implies !run_of(
            v,
            front.take(i),
        ).0.exited by {
            assert(happenings[i] == front[i]);
            assert(front.take(i) =~= happenings.take(i));
        }
        law_loss_is_due_once(v, front);
        let before = run_of(v, front).0;
        assert(happenings[happenings.len() - 1] == happenings.last());
        match happenings.last() {
            Happening::PipeClosed(fd) => {
                if before.open_pipes.contains(fd) {
                    assert(!before.open_pipes.is_empty());
                }
            },
            Happening::Exited(_) => {
                assert(!before.exited);
            },
        }
    }
}

/// It does not matter whether the process exits before a pipe closes or after.
pub proof fn law_exit_and_close_commute(v: ProcessView, fd: i32, returncode: i32)
    ensures
        run_of(v, seq![Happening::PipeClosed(fd), Happening::Exited(returncode)]).0 == run_of(
            v,
            seq![Happening::Exited(returncode), Happening::PipeClosed(fd)],
        ).0,
{
    let close = Happening::PipeClosed(fd);
    let exit = Happening::Exited(returncode);
    reveal_with_fuel(run_of, 3);
    assert(seq![close, exit].drop_last() =~= seq![close]);
    assert(seq![exit, close].drop_last() =~= seq![exit]);
    assert(seq![close].drop_last() =~= Seq::empty());
    assert(seq![exit].drop_last() =~= Seq::empty());
}

/// An event that was reported waits for the loop, behind those that were reported before, and the
/// loop knows, unless the loop could not be told.
pub proof fn law_reported_process_events_are_scheduled(
    v: ProcessView,
    l: LoopView,
    t: ThreadView,
    event: PendingProcessEvent,
    told: Option<Result<Sent, LoopCoreError>>,
    v_after: ProcessView,
    l_after: LoopView,
    t_after: ThreadView,
)
    requires
        is_process_event_reported(v, l, t, event, told, v_after, l_after, t_after),
    ensures
        v_after.events == v.events.push(event),
        v_after.scheduled <==> !(told matches Some(Err(_))),
{
}

/// What waits for a drain: what it took, then what was reported since.
pub open spec fn process_waiting(d: ProcessDrainView) -> Seq<PendingProcessEvent> {
    d.taken + d.core.events
}

/// Events are told in the order in which they were reported, one at a time, and the drain ends with
/// nothing left untold unless a call raised or the connection was lost.
pub proof fn law_process_events_are_told_in_order(d: ProcessDrainView, event: ProcessDrainEvent)
    requires
        (d.phase is Working && event is Begin) || (d.phase is Calling && event is Done),
    ensures
        ({
            let (after, action) = process_drain_step(d, event);
            if process_waiting(d).len() == 0 {
                action is Finish && !after.core.scheduled && process_waiting(after).len() == 0
            } else {
                &&& action == process_event_asks(process_waiting(d)[0]).1
                &&& process_waiting(after) == process_waiting(d).drop_first()
                &&& after.core.scheduled == d.core.scheduled
            }
        }),
{
    let (after, action) = process_drain_step(d, event);
    if process_waiting(d).len() > 0 {
        if d.taken.len() == 0 {
            assert(process_waiting(d) =~= d.core.events);
        }
        assert(process_waiting(after) =~= process_waiting(d).drop_first());
    }
}

/// One who waits for the exit does not miss it: it is looked for once more after the notice was
/// asked for, so an exit before that is seen, and one after it comes with the notice.
pub proof fn law_waiting_misses_no_exit(v: ProcessView, returncode: i32)
    ensures
        wait_step(exited(v, returncode).0, ProcessWaitEvent::Listening)
            == ProcessWaitAction::Return(returncode),
        forall|event: ProcessWaitEvent| #[trigger]
            wait_step(v, event) == ProcessWaitAction::Wait ==> event
                == ProcessWaitEvent::Listening && v.returncode is None,
{
}

} // verus!
