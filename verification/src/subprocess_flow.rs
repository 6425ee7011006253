//! Starting a process, from the protocol to the pair of transport and protocol.

use vstd::prelude::*;
use crate::objects::ObjectId;
use crate::subprocess::{
    apply_stdio, check_shell, check_text_protocol, is_text_mode, law_understood_streams_are_set_up,
    parse_process_stdio, shell_fits, stdio_meaning, stdio_plan, text_mode, ProcessStdioSpec,
    StdioArgument, StdioPlan, SubprocessEntry, SubprocessError,
};

verus! {

/// What was asked for.
#[derive(Clone, Copy, PartialEq, Eq, Debug, Structural)]
pub struct SubprocessRequest {
    pub entry: SubprocessEntry,
    pub text_mode: bool,
    pub stdin: ProcessStdioSpec,
    pub stdout: ProcessStdioSpec,
    pub stderr: ProcessStdioSpec,
}

/// What the arguments of a call ask for, or the first refusal: the shell, then the text mode, then
/// the input, the output and the errors.
pub open spec fn requested(
    entry: SubprocessEntry,
    shell: bool,
    universal_newlines: bool,
    has_encoding: bool,
    has_errors: bool,
    text: Option<bool>,
    stdin: StdioArgument,
    stdout: StdioArgument,
    stderr: StdioArgument,
) -> Result<SubprocessRequest, SubprocessError> {
    match (
        shell_fits(entry, shell),
        text_mode(universal_newlines, has_encoding, has_errors, text),
        stdio_meaning(stdin, false),
        stdio_meaning(stdout, false),
        stdio_meaning(stderr, true),
    ) {
        (Err(error), _, _, _, _) => Err(error),
        (_, Err(error), _, _, _) => Err(error),
        (_, _, Err(error), _, _) => Err(error),
        (_, _, _, Err(error), _) => Err(error),
        (_, _, _, _, Err(error)) => Err(error),
        (Ok(_), Ok(text_mode), Ok(stdin), Ok(stdout), Ok(stderr)) => Ok(
            SubprocessRequest { entry, text_mode, stdin, stdout, stderr },
        ),
    }
}

/// Checks the arguments of a call, all of them before anything is started.
pub fn subprocess_request(
    entry: SubprocessEntry,
    shell: bool,
    universal_newlines: bool,
    has_encoding: bool,
    has_errors: bool,
    text: Option<bool>,
    stdin: StdioArgument,
    stdout: StdioArgument,
    stderr: StdioArgument,
) -> (request: Result<SubprocessRequest, SubprocessError>)
    ensures
        request == requested(
            entry,
            shell,
            universal_newlines,
            has_encoding,
            has_errors,
            text,
            stdin,
            stdout,
            stderr,
        ),
{
    if let Err(error) = check_shell(entry, shell) {
        return Err(error);
    }
    let text_mode = match is_text_mode(universal_newlines, has_encoding, has_errors, text) {
        Ok(text_mode) => text_mode,
        Err(error) => return Err(error),
    };
    let stdin = match parse_process_stdio(stdin, false) {
        Ok(stdin) => stdin,
        Err(error) => return Err(error),
    };
    let stdout = match parse_process_stdio(stdout, false) {
        Ok(stdout) => stdout,
        Err(error) => return Err(error),
    };
    let stderr = match parse_process_stdio(stderr, true) {
        Ok(stderr) => stderr,
        Err(error) => return Err(error),
    };
    Ok(SubprocessRequest { entry, text_mode, stdin, stdout, stderr })
}

/// A call is refused exactly where its shell does not fit, its text arguments contradict each other,
/// or its input or output is to go where the output goes; a shell that does not fit is refused
/// whatever the other arguments are. A call that was not refused has its streams set up, so that
/// only a raised exception, a refused keyword or the protocol can keep its process from starting.
pub proof fn law_only_understood_calls_start_a_process(
    entry: SubprocessEntry,
    shell: bool,
    universal_newlines: bool,
    has_encoding: bool,
    has_errors: bool,
    text: Option<bool>,
    stdin: StdioArgument,
    stdout: StdioArgument,
    stderr: StdioArgument,
)
    ensures
        ({
            let request = requested(
                entry,
                shell,
                universal_newlines,
                has_encoding,
                has_errors,
                text,
                stdin,
                stdout,
                stderr,
            );
            &&& request is Ok <==> (shell == (entry == SubprocessEntry::Shell)) && !(text == Some(
                false,
            ) && universal_newlines) && stdin != StdioArgument::Stdout && stdout
                != StdioArgument::Stdout
            &&& shell != (entry == SubprocessEntry::Shell) ==> request == Result::<
                SubprocessRequest,
                SubprocessError,
            >::Err(
                if entry == SubprocessEntry::Shell {
                    SubprocessError::ShellRequired
                } else {
                    SubprocessError::ShellForbidden
                },
            )
            &&& request matches Ok(request) ==> stdio_plan(
                request.stdin,
                request.stdout,
                request.stderr,
            ) is Ok
        }),
{
    law_understood_streams_are_set_up(stdin, stdout, stderr);
}

/// Where starting a process stands.
#[derive(Clone, Copy, PartialEq, Eq, Debug, Structural)]
pub enum SpawnPhase {
    Ready,
    CallingFactory,
    AskingProtocol(ObjectId),
    Spawning(ObjectId),
    MakingTransport(ObjectId),
    Over,
}

/// What came of the action before.
#[derive(Clone, Copy, PartialEq, Eq, Debug, Structural)]
pub enum SpawnEvent {
    Begin,
    /// The action made this: a protocol, a child process or a transport.
    Made(ObjectId),
    Answer(bool),
    Failed(ObjectId),
    /// A keyword of the call was refused.
    Refused(SubprocessError),
}

/// What starting a process does next.
#[derive(Clone, Copy, PartialEq, Eq, Debug, Structural)]
pub enum SpawnAction {
    /// Have the caller's factory make the protocol.
    CallFactory,
    /// Ask whether it is the stream protocol of the standard library.
    AskStreamProtocol(ObjectId),
    /// Start the process, with its streams as planned.
    Spawn(StdioPlan),
    MakeTransport { child: ObjectId, protocol: ObjectId },
    Finish { transport: ObjectId, protocol: ObjectId },
    Fail(ObjectId),
    Refuse(SubprocessError),
    /// The event did not answer what was asked for.
    GiveUp,
}

/// The process is started with its streams set up, or refused where they cannot be.
pub open spec fn spawning(request: SubprocessRequest, protocol: ObjectId) -> (
    SpawnPhase,
    SpawnAction,
) {
    match stdio_plan(request.stdin, request.stdout, request.stderr) {
        Ok(plan) => (SpawnPhase::Spawning(protocol), SpawnAction::Spawn(plan)),
        Err(error) => (SpawnPhase::Over, SpawnAction::Refuse(error)),
    }
}

/// One step of starting a process. Whatever raises ends it. The kind of the protocol matters in
/// text mode only.
pub open spec fn spawn_step(request: SubprocessRequest, phase: SpawnPhase, event: SpawnEvent) -> (
    SpawnPhase,
    SpawnAction,
) {
    match (phase, event) {
        (_, SpawnEvent::Failed(raised)) => (SpawnPhase::Over, SpawnAction::Fail(raised)),
        (_, SpawnEvent::Refused(error)) => (SpawnPhase::Over, SpawnAction::Refuse(error)),
        (SpawnPhase::Ready, SpawnEvent::Begin) => (
            SpawnPhase::CallingFactory,
            SpawnAction::CallFactory,
        ),
        (SpawnPhase::CallingFactory, SpawnEvent::Made(protocol)) => if request.text_mode {
            (SpawnPhase::AskingProtocol(protocol), SpawnAction::AskStreamProtocol(protocol))
        } else {
            spawning(request, protocol)
        },
        (SpawnPhase::AskingProtocol(protocol), SpawnEvent::Answer(stream_protocol)) => if stream_protocol
            && request.text_mode {
            (
                SpawnPhase::Over,
                SpawnAction::Refuse(SubprocessError::TextWithStreams(request.entry)),
            )
        } else {
            spawning(request, protocol)
        },
        (SpawnPhase::Spawning(protocol), SpawnEvent::Made(child)) => (
            SpawnPhase::MakingTransport(protocol),
            SpawnAction::MakeTransport { child, protocol },
        ),
        (SpawnPhase::MakingTransport(protocol), SpawnEvent::Made(transport)) => (
            SpawnPhase::Over,
            SpawnAction::Finish { transport, protocol },
        ),
        _ => (SpawnPhase::Over, SpawnAction::GiveUp),
    }
}

/// Starts a process.
pub struct SubprocessFlow {
    request: SubprocessRequest,
    phase: SpawnPhase,
}

impl SubprocessFlow {
    pub closed spec fn spec_request(&self) -> SubprocessRequest {
        self.request
    }

    pub closed spec fn spec_phase(&self) -> SpawnPhase {
        self.phase
    }

    pub fn new(request: SubprocessRequest) -> (flow: Self)
        ensures
            flow.spec_request() == request,
            flow.spec_phase() == SpawnPhase::Ready,
    {
        SubprocessFlow { request, phase: SpawnPhase::Ready }
    }

    fn spawn(&mut self, protocol: ObjectId) -> (action: SpawnAction)
        ensures
            final(self).spec_request() == old(self).spec_request(),
            (final(self).spec_phase(), action) == spawning(old(self).spec_request(), protocol),
    {
        match apply_stdio(self.request.stdin, self.request.stdout, self.request.stderr) {
            Ok(plan) => {
                self.phase = SpawnPhase::Spawning(protocol);
                SpawnAction::Spawn(plan)
            },
            Err(error) => {
                self.phase = SpawnPhase::Over;
                SpawnAction::Refuse(error)
            },
        }
    }

    /// Takes what came of the action before and says what to do next.
    pub fn step(&mut self, event: SpawnEvent) -> (action: SpawnAction)
        ensures
            final(self).spec_request() == old(self).spec_request(),
            (final(self).spec_phase(), action) == spawn_step(
                old(self).spec_request(),
                old(self).spec_phase(),
                event,
            ),
    {
        match (self.phase, event) {
            (_, SpawnEvent::Failed(raised)) => {
                self.phase = SpawnPhase::Over;
                SpawnAction::Fail(raised)
            },
            (_, SpawnEvent::Refused(error)) => {
                self.phase = SpawnPhase::Over;
                SpawnAction::Refuse(error)
            },
            (SpawnPhase::Ready, SpawnEvent::Begin) => {
                self.phase = SpawnPhase::CallingFactory;
                SpawnAction::CallFactory
            },
            (SpawnPhase::CallingFactory, SpawnEvent::Made(protocol)) => {
                if self.request.text_mode {
                    self.phase = SpawnPhase::AskingProtocol(protocol);
                    SpawnAction::AskStreamProtocol(protocol)
                } else {
                    self.spawn(protocol)
                }
            },
            (SpawnPhase::AskingProtocol(protocol), SpawnEvent::Answer(stream_protocol)) => {
                match check_text_protocol(
                    self.request.entry,
                    self.request.text_mode,
                    stream_protocol,
                ) {
                    Ok(_) => self.spawn(protocol),
                    Err(error) => {
                        self.phase = SpawnPhase::Over;
                        SpawnAction::Refuse(error)
                    },
                }
            },
            (SpawnPhase::Spawning(protocol), SpawnEvent::Made(child)) => {
                self.phase = SpawnPhase::MakingTransport(protocol);
                SpawnAction::MakeTransport { child, protocol }
            },
            (SpawnPhase::MakingTransport(protocol), SpawnEvent::Made(transport)) => {
                self.phase = SpawnPhase::Over;
                SpawnAction::Finish { transport, protocol }
            },
            _ => {
                self.phase = SpawnPhase::Over;
                SpawnAction::GiveUp
            },
        }
    }
}

/// The factory comes first, then the process, then its transport, and the result pairs the
/// transport with the protocol that the factory made.
pub proof fn law_process_starts_after_its_protocol(
    request: SubprocessRequest,
    protocol: ObjectId,
    child: ObjectId,
    transport: ObjectId,
)
    requires
        stdio_plan(request.stdin, request.stdout, request.stderr) is Ok,
    ensures
        ({
            let (p1, a1) = spawn_step(request, SpawnPhase::Ready, SpawnEvent::Begin);
            let (asked, ask) = spawn_step(request, p1, SpawnEvent::Made(protocol));
            let (p2, a2) = if request.text_mode {
                spawn_step(request, asked, SpawnEvent::Answer(false))
            } else {
                (asked, ask)
            };
            let (p3, a3) = spawn_step(request, p2, SpawnEvent::Made(child));
            let (p4, a4) = spawn_step(request, p3, SpawnEvent::Made(transport));
            &&& a1 == SpawnAction::CallFactory
            &&& request.text_mode ==> ask == SpawnAction::AskStreamProtocol(protocol)
            &&& a2 is Spawn
            &&& a3 == SpawnAction::MakeTransport { child, protocol }
            &&& a4 == SpawnAction::Finish { transport, protocol }
        }),
{
}

/// In text mode the stream protocol of the standard library gets no process.
pub proof fn law_text_mode_spares_the_stream_protocol(
    request: SubprocessRequest,
    protocol: ObjectId,
)
    requires
        request.text_mode,
    ensures
        spawn_step(request, SpawnPhase::CallingFactory, SpawnEvent::Made(protocol))
            == (
            SpawnPhase::AskingProtocol(protocol),
            SpawnAction::AskStreamProtocol(protocol),
        ),
        spawn_step(request, SpawnPhase::AskingProtocol(protocol), SpawnEvent::Answer(true)).1
            == SpawnAction::Refuse(SubprocessError::TextWithStreams(request.entry)),
{
}

} // verus!
