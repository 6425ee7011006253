//! Making a connection from its arguments to the pair of transport and protocol.

use vstd::prelude::*;
use crate::connect::{
    attempt_step, check_tls_arguments, fresh_attempts, security_for, security_of, AttemptAction,
    AttemptEvent, AttemptPhase, AttemptsView, ConnectError, ConnectionAttempts,
    ResolvedStreamAddrinfo, Security, TlsArguments,
};
use crate::objects::ObjectId;

verus! {

/// Where the socket of a connection comes from.
#[derive(Clone, Copy, PartialEq, Eq, Debug, Structural)]
pub enum SocketSource {
    /// The caller has one. It is made non-blocking.
    Given(ObjectId),
    /// The caller has a pipe. That it cannot be made non-blocking is no error.
    Pipe(ObjectId),
    /// The addresses of a host, tried one after the other. Sockets are bound to the caller's local
    /// address where there is one.
    Addresses { bind: bool },
    /// A path in the file system, which has to be given.
    UnixPath(Option<ObjectId>),
}

/// Where making a connection stands.
#[derive(Clone, Copy, PartialEq, Eq, Debug, Structural)]
pub enum FlowPhase {
    Ready,
    CallingFactory,
    Preparing(ObjectId),
    Resolving,
    /// The addresses are being tried.
    Trying,
    MakingUnixSocket,
    ConnectingUnix(ObjectId),
    MakingTransport,
    Over,
}

/// What came of the action before.
pub enum FlowEvent {
    Begin,
    /// The action made this: a protocol, a socket or a transport.
    Made(ObjectId),
    Done,
    Resolved(Vec<ResolvedStreamAddrinfo>),
    Failed(ObjectId),
}

/// What making a connection does next.
#[derive(Clone, Copy, PartialEq, Eq, Debug, Structural)]
pub enum FlowAction {
    /// Have the caller's factory make the protocol.
    CallFactory,
    SetNonblocking(ObjectId),
    Resolve,
    /// Make a socket, and bind it where `bind` says so; that binding fails is no error.
    Build { addrinfo: ResolvedStreamAddrinfo, bind: bool },
    Connect { socket: ObjectId, address: ObjectId },
    /// Close the socket. That this fails is no error.
    Close(ObjectId),
    MakeUnixSocket,
    MakeTransport { socket: ObjectId, protocol: ObjectId, security: Security },
    Finish { transport: ObjectId, protocol: ObjectId },
    Fail(ObjectId),
    Refuse(ConnectError),
    /// The event did not answer what was asked for.
    GiveUp,
}

/// The model of making a connection.
#[verifier::ext_equal]
pub struct FlowView {
    pub source: SocketSource,
    pub security: Security,
    pub phase: FlowPhase,
    /// What the factory made, once it was called.
    pub protocol: ObjectId,
    pub attempts: AttemptsView,
}

/// The connection has its socket: the transport comes next.
pub open spec fn with_socket(f: FlowView, socket: ObjectId) -> (FlowView, FlowAction) {
    (
        FlowView { phase: FlowPhase::MakingTransport, ..f },
        FlowAction::MakeTransport { socket, protocol: f.protocol, security: f.security },
    )
}

/// What trying the addresses asks for.
pub open spec fn from_attempt(f: FlowView, attempts: AttemptsView, action: AttemptAction) -> (
    FlowView,
    FlowAction,
) {
    let trying = FlowView { phase: FlowPhase::Trying, attempts, ..f };
    let over = FlowView { phase: FlowPhase::Over, attempts, ..f };
    match action {
        AttemptAction::Build { addrinfo, bind } => (trying, FlowAction::Build { addrinfo, bind }),
        AttemptAction::Connect { socket, address } => (
            trying,
            FlowAction::Connect { socket, address },
        ),
        AttemptAction::Close(socket) => (trying, FlowAction::Close(socket)),
        AttemptAction::Finish(socket) => with_socket(trying, socket),
        AttemptAction::Fail(raised) => (over, FlowAction::Fail(raised)),
        AttemptAction::FailWithoutCause => (over, FlowAction::Refuse(ConnectError::NoAddress)),
    }
}

/// What the event means for the address that is tried.
pub open spec fn attempt_event(phase: AttemptPhase, event: FlowEvent) -> AttemptEvent {
    match (phase, event) {
        (AttemptPhase::Building(_), FlowEvent::Made(socket)) => AttemptEvent::Built(socket),
        (AttemptPhase::Building(_), FlowEvent::Failed(raised)) => AttemptEvent::BuildFailed(raised),
        (AttemptPhase::Connecting(_), FlowEvent::Done) => AttemptEvent::Connected,
        (AttemptPhase::Connecting(_), FlowEvent::Failed(raised)) => AttemptEvent::ConnectFailed(
            raised,
        ),
        (AttemptPhase::Next, _) => AttemptEvent::Closed,
        _ => AttemptEvent::Begin,
    }
}

/// The protocol is there: the socket comes next.
pub open spec fn with_protocol(f: FlowView) -> (FlowView, FlowAction) {
    match f.source {
        SocketSource::Given(socket) => (
            FlowView { phase: FlowPhase::Preparing(socket), ..f },
            FlowAction::SetNonblocking(socket),
        ),
        SocketSource::Pipe(pipe) => (
            FlowView { phase: FlowPhase::Preparing(pipe), ..f },
            FlowAction::SetNonblocking(pipe),
        ),
        SocketSource::Addresses { .. } => (
            FlowView { phase: FlowPhase::Resolving, ..f },
            FlowAction::Resolve,
        ),
        SocketSource::UnixPath(_) => (
            FlowView { phase: FlowPhase::MakingUnixSocket, ..f },
            FlowAction::MakeUnixSocket,
        ),
    }
}

/// One step of making a connection: the protocol, the socket, the transport. Whatever raises ends
/// it, but for an address that does not connect while others are left.
pub open spec fn flow_step(f: FlowView, event: FlowEvent) -> (FlowView, FlowAction) {
    let over = FlowView { phase: FlowPhase::Over, ..f };
    match (f.phase, event) {
        (FlowPhase::Trying, _) => {
            let (attempts, action) = attempt_step(
                f.attempts,
                attempt_event(f.attempts.phase, event),
            );
            from_attempt(f, attempts, action)
        },
        (FlowPhase::Preparing(socket), FlowEvent::Failed(raised)) => if f.source is Pipe {
            with_socket(f, socket)
        } else {
            (over, FlowAction::Fail(raised))
        },
        (_, FlowEvent::Failed(raised)) => (over, FlowAction::Fail(raised)),
        (FlowPhase::Ready, FlowEvent::Begin) => (
            FlowView { phase: FlowPhase::CallingFactory, ..f },
            FlowAction::CallFactory,
        ),
        (FlowPhase::CallingFactory, FlowEvent::Made(protocol)) => with_protocol(
            FlowView { protocol, ..f },
        ),
        (FlowPhase::Preparing(socket), FlowEvent::Done) => with_socket(f, socket),
        (FlowPhase::Resolving, FlowEvent::Resolved(addrinfos)) => {
            let bind = f.source matches SocketSource::Addresses { bind } && bind;
            let (attempts, action) = attempt_step(
                fresh_attempts(addrinfos@, bind),
                AttemptEvent::Begin,
            );
            from_attempt(f, attempts, action)
        },
        (FlowPhase::MakingUnixSocket, FlowEvent::Made(socket)) => match f.source {
            SocketSource::UnixPath(Some(address)) => (
                FlowView { phase: FlowPhase::ConnectingUnix(socket), ..f },
                FlowAction::Connect { socket, address },
            ),
            _ => (over, FlowAction::Refuse(ConnectError::PathRequired)),
        },
        (FlowPhase::ConnectingUnix(socket), FlowEvent::Done) => with_socket(f, socket),
        (FlowPhase::MakingTransport, FlowEvent::Made(transport)) => (
            over,
            FlowAction::Finish { transport, protocol: f.protocol },
        ),
        _ => (over, FlowAction::GiveUp),
    }
}

/// Makes a connection.
pub struct ConnectionFlow {
    source: SocketSource,
    security: Security,
    phase: FlowPhase,
    protocol: ObjectId,
    attempts: ConnectionAttempts,
}

impl View for ConnectionFlow {
    type V = FlowView;

    closed spec fn view(&self) -> FlowView {
        FlowView {
            source: self.source,
            security: self.security,
            phase: self.phase,
            protocol: self.protocol,
            attempts: self.attempts@,
        }
    }
}

/// What was asked for, before anything was done.
pub open spec fn fresh_flow(source: SocketSource, security: Security) -> FlowView {
    FlowView {
        source,
        security,
        phase: FlowPhase::Ready,
        protocol: 0,
        attempts: fresh_attempts(Seq::empty(), false),
    }
}

impl ConnectionFlow {
    pub closed spec fn wf(&self) -> bool {
        self.attempts.wf()
    }

    /// A connection, unless its arguments about TLS contradict each other.
    pub fn new(source: SocketSource, given: TlsArguments, server_side: bool) -> (made: Result<
        Self,
        ConnectError,
    >)
        ensures
            match made {
                Ok(flow) => tls_refusal(given) is None && flow.wf() && flow@ == fresh_flow(
                    source,
                    security_for(given.ssl, server_side),
                ),
                Err(error) => tls_refusal(given) == Some(error),
            },
    {
        if let Err(error) = check_tls_arguments(given) {
            return Err(error);
        }
        Ok(
            ConnectionFlow {
                source,
                security: security_of(given.ssl, server_side),
                phase: FlowPhase::Ready,
                protocol: 0,
                attempts: ConnectionAttempts::new(Vec::new(), false),
            },
        )
    }

    fn with_socket(&mut self, socket: ObjectId) -> (action: FlowAction)
        requires
            old(self).wf(),
        ensures
            final(self).wf(),
            (final(self)@, action) == with_socket(old(self)@, socket),
    {
        self.phase = FlowPhase::MakingTransport;
        FlowAction::MakeTransport { socket, protocol: self.protocol, security: self.security }
    }

    fn take_attempt(&mut self, action: AttemptAction) -> (asked: FlowAction)
        requires
            old(self).wf(),
        ensures
            final(self).wf(),
            (final(self)@, asked) == from_attempt(old(self)@, old(self)@.attempts, action),
    {
        self.phase = FlowPhase::Trying;
        match action {
            AttemptAction::Build { addrinfo, bind } => FlowAction::Build { addrinfo, bind },
            AttemptAction::Connect { socket, address } => FlowAction::Connect { socket, address },
            AttemptAction::Close(socket) => FlowAction::Close(socket),
            AttemptAction::Finish(socket) => self.with_socket(socket),
            AttemptAction::Fail(raised) => {
                self.phase = FlowPhase::Over;
                FlowAction::Fail(raised)
            },
            AttemptAction::FailWithoutCause => {
                self.phase = FlowPhase::Over;
                FlowAction::Refuse(ConnectError::NoAddress)
            },
        }
    }

    fn with_protocol(&mut self, protocol: ObjectId) -> (action: FlowAction)
        requires
            old(self).wf(),
        ensures
            final(self).wf(),
            (final(self)@, action) == with_protocol(FlowView { protocol, ..old(self)@ }),
    {
        self.protocol = protocol;
        match self.source {
            SocketSource::Given(socket) => {
                self.phase = FlowPhase::Preparing(socket);
                FlowAction::SetNonblocking(socket)
            },
            SocketSource::Pipe(pipe) => {
                self.phase = FlowPhase::Preparing(pipe);
                FlowAction::SetNonblocking(pipe)
            },
            SocketSource::Addresses { .. } => {
                self.phase = FlowPhase::Resolving;
                FlowAction::Resolve
            },
            SocketSource::UnixPath(_) => {
                self.phase = FlowPhase::MakingUnixSocket;
                FlowAction::MakeUnixSocket
            },
        }
    }

    fn try_on(&mut self, event: FlowEvent) -> (action: FlowAction)
        requires
            old(self).wf(),
            old(self)@.phase is Trying,
        ensures
            final(self).wf(),
            (final(self)@, action) == flow_step(old(self)@, event),
    {
        let event = match (self.attempts.phase(), event) {
            (AttemptPhase::Building(_), FlowEvent::Made(socket)) => AttemptEvent::Built(socket),
            (AttemptPhase::Building(_), FlowEvent::Failed(raised)) => AttemptEvent::BuildFailed(
                raised,
            ),
            (AttemptPhase::Connecting(_), FlowEvent::Done) => AttemptEvent::Connected,
            (AttemptPhase::Connecting(_), FlowEvent::Failed(raised)) => AttemptEvent::ConnectFailed(
                raised,
            ),
            (AttemptPhase::Next, _) => AttemptEvent::Closed,
            _ => AttemptEvent::Begin,
        };
        let action = self.attempts.step(event);
        self.take_attempt(action)
    }

    /// Takes what came of the action before and says what to do next.
    pub fn step(&mut self, event: FlowEvent) -> (action: FlowAction)
        requires
            old(self).wf(),
        ensures
            final(self).wf(),
            (final(self)@, action) == flow_step(old(self)@, event),
    {
        match (self.phase, event) {
            (FlowPhase::Trying, event) => self.try_on(event),
            (FlowPhase::Preparing(socket), FlowEvent::Failed(raised)) => {
                match self.source {
                    SocketSource::Pipe(_) => self.with_socket(socket),
                    _ => {
                        self.phase = FlowPhase::Over;
                        FlowAction::Fail(raised)
                    },
                }
            },
            (_, FlowEvent::Failed(raised)) => {
                self.phase = FlowPhase::Over;
                FlowAction::Fail(raised)
            },
            (FlowPhase::Ready, FlowEvent::Begin) => {
                self.phase = FlowPhase::CallingFactory;
                FlowAction::CallFactory
            },
            (FlowPhase::CallingFactory, FlowEvent::Made(protocol)) => self.with_protocol(protocol),
            (FlowPhase::Preparing(socket), FlowEvent::Done) => self.with_socket(socket),
            (FlowPhase::Resolving, FlowEvent::Resolved(addrinfos)) => {
                let bind = match self.source {
                    SocketSource::Addresses { bind } => bind,
                    _ => false,
                };
                self.attempts = ConnectionAttempts::new(addrinfos, bind);
                let action = self.attempts.step(AttemptEvent::Begin);
                self.take_attempt(action)
            },
            (FlowPhase::MakingUnixSocket, FlowEvent::Made(socket)) => {
                match self.source {
                    SocketSource::UnixPath(Some(address)) => {
                        self.phase = FlowPhase::ConnectingUnix(socket);
                        FlowAction::Connect { socket, address }
                    },
                    _ => {
                        self.phase = FlowPhase::Over;
                        FlowAction::Refuse(ConnectError::PathRequired)
                    },
                }
            },
            (FlowPhase::ConnectingUnix(socket), FlowEvent::Done) => self.with_socket(socket),
            (FlowPhase::MakingTransport, FlowEvent::Made(transport)) => {
                self.phase = FlowPhase::Over;
                FlowAction::Finish { transport, protocol: self.protocol }
            },
            _ => {
                self.phase = FlowPhase::Over;
                FlowAction::GiveUp
            },
        }
    }
}

/// Why arguments about TLS are refused, where they are.
pub open spec fn tls_refusal(given: TlsArguments) -> Option<ConnectError> {
    if given.ssl {
        None
    } else if given.server_hostname {
        Some(ConnectError::HostnameWithoutTls)
    } else if given.handshake_timeout {
        Some(ConnectError::HandshakeTimeoutWithoutTls)
    } else if given.shutdown_timeout {
        Some(ConnectError::ShutdownTimeoutWithoutTls)
    } else {
        None
    }
}

/// A connection over the caller's own socket: the factory, then that socket, then the transport,
/// and the result pairs the transport with the protocol that the factory made.
pub proof fn law_given_socket_becomes_the_transport(
    socket: ObjectId,
    security: Security,
    protocol: ObjectId,
    transport: ObjectId,
)
    ensures
        ({
            let f0 = fresh_flow(SocketSource::Given(socket), security);
            let (f1, a1) = flow_step(f0, FlowEvent::Begin);
            let (f2, a2) = flow_step(f1, FlowEvent::Made(protocol));
            let (f3, a3) = flow_step(f2, FlowEvent::Done);
            let (f4, a4) = flow_step(f3, FlowEvent::Made(transport));
            &&& a1 == FlowAction::CallFactory
            &&& a2 == FlowAction::SetNonblocking(socket)
            &&& a3 == FlowAction::MakeTransport { socket, protocol, security }
            &&& a4 == FlowAction::Finish { transport, protocol }
        }),
{
}

/// A transport is made only of a socket that was connected or given, and it gets the protocol that
/// the factory made and the security that was asked for.
pub proof fn law_transports_are_made_of_connected_sockets(f: FlowView, event: FlowEvent)
    ensures
        flow_step(f, event).1 matches FlowAction::MakeTransport { socket, protocol, security }
            ==> protocol == f.protocol && security == f.security && match f.phase {
            FlowPhase::Preparing(given) => socket == given,
            FlowPhase::ConnectingUnix(connected) => socket == connected && event is Done,
            FlowPhase::Trying => f.attempts.phase == AttemptPhase::Connecting(socket) && event
                is Done,
            _ => false,
        },
{
    if f.phase is CallingFactory && event is Made {
        let protocol = event->Made_0;
        assert(!(with_protocol(FlowView { protocol, ..f }).1 is MakeTransport));
    }
}

} // verus!
