//! Making connections and listening sockets: arguments, addresses, and waiting for a socket to
//! connect.

use vstd::prelude::*;
use crate::loop_commands::RawFd;
use crate::objects::{ExceptionClass, ObjectId};
use crate::os_constants::{
    ealready, einprogress, eisconn, ewouldblock, EALREADY, EINPROGRESS, EISCONN, EWOULDBLOCK,
    WSAEISCONN,
};
use crate::server::ServerListener;
use crate::stream_transport::{stream_family, StreamFamily};
use crate::text::{push_signed_decimal, signed_decimal};
use crate::transport_start::family_of;

verus! {

/// Why a connection or a server was refused.
#[derive(Clone, Copy, PartialEq, Eq, Debug, Structural)]
pub enum ConnectError {
    HostnameWithoutTls,
    HandshakeTimeoutWithoutTls,
    ShutdownTimeoutWithoutTls,
    PathRequired,
    NoAddress,
    SocketOutOfRange,
}

impl ConnectError {
    pub fn message(&self) -> (text: &'static str)
        ensures
            text@ == match *self {
                ConnectError::HostnameWithoutTls => "server_hostname is only meaningful with ssl"@,
                ConnectError::HandshakeTimeoutWithoutTls =>
                    "ssl_handshake_timeout is only meaningful with ssl"@,
                ConnectError::ShutdownTimeoutWithoutTls =>
                    "ssl_shutdown_timeout is only meaningful with ssl"@,
                ConnectError::PathRequired => "path is required when sock is not provided"@,
                ConnectError::NoAddress => "failed to connect socket"@,
                ConnectError::SocketOutOfRange => "socket file descriptor out of range"@,
            },
    {
        match self {
            ConnectError::HostnameWithoutTls => "server_hostname is only meaningful with ssl",
            ConnectError::HandshakeTimeoutWithoutTls =>
                "ssl_handshake_timeout is only meaningful with ssl",
            ConnectError::ShutdownTimeoutWithoutTls =>
                "ssl_shutdown_timeout is only meaningful with ssl",
            ConnectError::PathRequired => "path is required when sock is not provided",
            ConnectError::NoAddress => "failed to connect socket",
            ConnectError::SocketOutOfRange => "socket file descriptor out of range",
        }
    }

    /// The class of the exception that it becomes.
    pub open spec fn class(self) -> ExceptionClass {
        match self {
            ConnectError::HostnameWithoutTls => ExceptionClass::ValueError,
            ConnectError::HandshakeTimeoutWithoutTls => ExceptionClass::ValueError,
            ConnectError::ShutdownTimeoutWithoutTls => ExceptionClass::ValueError,
            _ => ExceptionClass::RuntimeError,
        }
    }

    pub fn exception(&self) -> (class: ExceptionClass)
        ensures
            class == self.class(),
    {
        match self {
            ConnectError::HostnameWithoutTls => ExceptionClass::ValueError,
            ConnectError::HandshakeTimeoutWithoutTls => ExceptionClass::ValueError,
            ConnectError::ShutdownTimeoutWithoutTls => ExceptionClass::ValueError,
            _ => ExceptionClass::RuntimeError,
        }
    }
}

/// Which of the arguments about TLS were given. A call that has no argument for the server's name
/// has it not given.
#[derive(Clone, Copy, PartialEq, Eq, Debug, Structural)]
pub struct TlsArguments {
    pub ssl: bool,
    pub server_hostname: bool,
    pub handshake_timeout: bool,
    pub shutdown_timeout: bool,
}

/// The first argument that is given without TLS is refused.
pub open spec fn tls_arguments_fit(given: TlsArguments) -> Result<(), ConnectError> {
    if given.ssl {
        Ok(())
    } else if given.server_hostname {
        Err(ConnectError::HostnameWithoutTls)
    } else if given.handshake_timeout {
        Err(ConnectError::HandshakeTimeoutWithoutTls)
    } else if given.shutdown_timeout {
        Err(ConnectError::ShutdownTimeoutWithoutTls)
    } else {
        Ok(())
    }
}

/// Without TLS the other arguments about it mean nothing, and the first one of them is refused.
pub fn check_tls_arguments(given: TlsArguments) -> (checked: Result<(), ConnectError>)
    ensures
        checked == tls_arguments_fit(given),
{
    if given.server_hostname && !given.ssl {
        return Err(ConnectError::HostnameWithoutTls);
    }
    if given.handshake_timeout && !given.ssl {
        return Err(ConnectError::HandshakeTimeoutWithoutTls);
    }
    if given.shutdown_timeout && !given.ssl {
        return Err(ConnectError::ShutdownTimeoutWithoutTls);
    }
    Ok(())
}

/// How a connection is secured.
#[derive(Clone, Copy, PartialEq, Eq, Debug, Structural)]
pub enum Security {
    Plain,
    ClientTls,
    ServerTls,
}

/// TLS where it was asked for, on the side on which the connection is.
pub open spec fn security_for(ssl: bool, server_side: bool) -> Security {
    if !ssl {
        Security::Plain
    } else if server_side {
        Security::ServerTls
    } else {
        Security::ClientTls
    }
}

pub fn security_of(ssl: bool, server_side: bool) -> (security: Security)
    ensures
        security == security_for(ssl, server_side),
{
    if !ssl {
        Security::Plain
    } else if server_side {
        Security::ServerTls
    } else {
        Security::ClientTls
    }
}

/// The socket is connected: the number for that on this machine or on Windows.
pub open spec fn means_connected(errno: i32) -> bool {
    errno == EISCONN || errno == WSAEISCONN
}

/// The connection is being made.
pub open spec fn means_in_progress(errno: i32) -> bool {
    errno == EINPROGRESS || errno == EALREADY || errno == EWOULDBLOCK
}

pub fn is_already_connected_errno(errno: i32) -> (connected: bool)
    ensures
        connected == means_connected(errno),
{
    errno == eisconn() || errno == WSAEISCONN
}

pub fn is_connect_in_progress_errno(errno: i32) -> (in_progress: bool)
    ensures
        in_progress == means_in_progress(errno),
{
    errno == einprogress() || errno == ealready() || errno == ewouldblock()
}

/// What came of the action before.
#[derive(Clone, Copy, PartialEq, Eq, Debug, Structural)]
pub enum SocketConnectEvent {
    Begin,
    Connected,
    /// Connecting raised. Whether the socket asks to be waited for, and the number of the error
    /// where it has one.
    Refused { refusal: ObjectId, retryable: bool, errno: Option<i32> },
    Writable,
    /// The error that the socket keeps, zero for none.
    SocketError(i32),
    /// Something else raised.
    Raised(ObjectId),
}

/// What connecting a socket does next.
#[derive(Clone, Copy, PartialEq, Eq, Debug, Structural)]
pub enum SocketConnectAction {
    Connect,
    WaitWritable,
    ReadSocketError,
    Done,
    Fail(ObjectId),
    /// Raise an error of the operating system with this number.
    FailWith(i32),
}

/// One step of connecting a socket.
pub open spec fn socket_connect_step(event: SocketConnectEvent) -> SocketConnectAction {
    match event {
        SocketConnectEvent::Begin => SocketConnectAction::Connect,
        SocketConnectEvent::Connected => SocketConnectAction::Done,
        SocketConnectEvent::Refused { refusal, retryable, errno } => if retryable {
            SocketConnectAction::WaitWritable
        } else if errno matches Some(errno) && means_connected(errno) {
            SocketConnectAction::Done
        } else {
            SocketConnectAction::Fail(refusal)
        },
        SocketConnectEvent::Writable => SocketConnectAction::ReadSocketError,
        SocketConnectEvent::SocketError(errno) => if errno == 0 || means_connected(errno) {
            SocketConnectAction::Done
        } else if means_in_progress(errno) {
            SocketConnectAction::WaitWritable
        } else {
            SocketConnectAction::FailWith(errno)
        },
        SocketConnectEvent::Raised(raised) => SocketConnectAction::Fail(raised),
    }
}

pub fn connect_socket_to_address(event: SocketConnectEvent) -> (action: SocketConnectAction)
    ensures
        action == socket_connect_step(event),
{
    match event {
        SocketConnectEvent::Begin => SocketConnectAction::Connect,
        SocketConnectEvent::Connected => SocketConnectAction::Done,
        SocketConnectEvent::Refused { refusal, retryable, errno } => {
            if retryable {
                return SocketConnectAction::WaitWritable;
            }
            if let Some(errno) = errno {
                if is_already_connected_errno(errno) {
                    return SocketConnectAction::Done;
                }
            }
            SocketConnectAction::Fail(refusal)
        },
        SocketConnectEvent::Writable => SocketConnectAction::ReadSocketError,
        SocketConnectEvent::SocketError(errno) => {
            if errno == 0 {
                SocketConnectAction::Done
            } else if is_connect_in_progress_errno(errno) {
                SocketConnectAction::WaitWritable
            } else if is_already_connected_errno(errno) {
                SocketConnectAction::Done
            } else {
                SocketConnectAction::FailWith(errno)
            }
        },
        SocketConnectEvent::Raised(raised) => SocketConnectAction::Fail(raised),
    }
}

/// The text of the error that a socket kept.
pub fn socket_os_error(errno: i32) -> (text: String)
    ensures
        text@ == "socket connect failed: "@ + signed_decimal(errno as int),
{
    let mut text = "socket connect failed: ".to_owned();
    push_signed_decimal(&mut text, errno as i64);
    text
}

/// Connecting ends well only where the socket said so, and it waits again only where the socket
/// asked for that.
pub proof fn law_connecting_heeds_the_socket(event: SocketConnectEvent)
    ensures
        socket_connect_step(event) is Done ==> match event {
            SocketConnectEvent::Connected => true,
            SocketConnectEvent::Refused { errno, .. } => errno matches Some(errno)
                && means_connected(errno),
            SocketConnectEvent::SocketError(errno) => errno == 0 || means_connected(errno),
            _ => false,
        },
        socket_connect_step(event) is WaitWritable ==> match event {
            SocketConnectEvent::Refused { retryable, .. } => retryable,
            SocketConnectEvent::SocketError(errno) => means_in_progress(errno),
            _ => false,
        },
{
}

/// An address that a name stands for, with the socket that it wants.
#[derive(Clone, Copy, PartialEq, Eq, Debug, Structural)]
pub struct ResolvedStreamAddrinfo {
    pub family: i32,
    pub sock_type: i32,
    pub proto: i32,
    pub address: ObjectId,
}

/// Where trying the addresses stands.
#[derive(Clone, Copy, PartialEq, Eq, Debug, Structural)]
pub enum AttemptPhase {
    /// Between two addresses.
    Next,
    Building(ResolvedStreamAddrinfo),
    Connecting(ObjectId),
    Over,
}

/// What came of the action before.
#[derive(Clone, Copy, PartialEq, Eq, Debug, Structural)]
pub enum AttemptEvent {
    Begin,
    /// The socket was made. Binding it may have failed.
    Built(ObjectId),
    BuildFailed(ObjectId),
    Connected,
    ConnectFailed(ObjectId),
    /// The socket was closed, or closing it failed.
    Closed,
}

/// What trying the addresses does next.
#[derive(Clone, Copy, PartialEq, Eq, Debug, Structural)]
pub enum AttemptAction {
    /// Make a socket. Bind it to the local address where `bind` says so; that this fails is no
    /// error.
    Build { addrinfo: ResolvedStreamAddrinfo, bind: bool },
    Connect { socket: ObjectId, address: ObjectId },
    Close(ObjectId),
    Finish(ObjectId),
    Fail(ObjectId),
    FailWithoutCause,
}

/// The model of trying the addresses.
#[verifier::ext_equal]
pub struct AttemptsView {
    pub left: Seq<ResolvedStreamAddrinfo>,
    pub bind: bool,
    pub last_error: Option<ObjectId>,
    pub phase: AttemptPhase,
}

/// The next address, or the end where there is none.
pub open spec fn next_attempt(v: AttemptsView) -> (AttemptsView, AttemptAction) {
    if v.left.len() == 0 {
        (
            AttemptsView { phase: AttemptPhase::Over, ..v },
            match v.last_error {
                Some(error) => AttemptAction::Fail(error),
                None => AttemptAction::FailWithoutCause,
            },
        )
    } else {
        (
            AttemptsView {
                left: v.left.drop_first(),
                phase: AttemptPhase::Building(v.left[0]),
                ..v
            },
            AttemptAction::Build { addrinfo: v.left[0], bind: v.bind },
        )
    }
}

/// One step of trying the addresses. What does not fit the phase ends it without a cause.
pub open spec fn attempt_step(v: AttemptsView, event: AttemptEvent) -> (
    AttemptsView,
    AttemptAction,
) {
    let over = AttemptsView { phase: AttemptPhase::Over, ..v };
    match (v.phase, event) {
        (AttemptPhase::Next, AttemptEvent::Begin) => next_attempt(v),
        (AttemptPhase::Next, AttemptEvent::Closed) => next_attempt(v),
        (AttemptPhase::Building(addrinfo), AttemptEvent::Built(socket)) => (
            AttemptsView { phase: AttemptPhase::Connecting(socket), ..v },
            AttemptAction::Connect { socket, address: addrinfo.address },
        ),
        (AttemptPhase::Building(_), AttemptEvent::BuildFailed(raised)) => (
            over,
            AttemptAction::Fail(raised),
        ),
        (AttemptPhase::Connecting(socket), AttemptEvent::Connected) => (
            over,
            AttemptAction::Finish(socket),
        ),
        (AttemptPhase::Connecting(socket), AttemptEvent::ConnectFailed(raised)) => (
            AttemptsView { phase: AttemptPhase::Next, last_error: Some(raised), ..v },
            AttemptAction::Close(socket),
        ),
        _ => (over, AttemptAction::FailWithoutCause),
    }
}

/// Tries addresses, one after the other, until a socket connects.
pub struct ConnectionAttempts {
    addrinfos: Vec<ResolvedStreamAddrinfo>,
    next: usize,
    bind: bool,
    last_error: Option<ObjectId>,
    phase: AttemptPhase,
}

impl View for ConnectionAttempts {
    type V = AttemptsView;

    closed spec fn view(&self) -> AttemptsView {
        AttemptsView {
            left: self.addrinfos@.skip(self.next as int),
            bind: self.bind,
            last_error: self.last_error,
            phase: self.phase,
        }
    }
}

impl ConnectionAttempts {
    pub closed spec fn wf(&self) -> bool {
        self.next <= self.addrinfos@.len()
    }

    pub fn new(addrinfos: Vec<ResolvedStreamAddrinfo>, bind: bool) -> (attempts: Self)
        ensures
            attempts.wf(),
            attempts@ == fresh_attempts(addrinfos@, bind),
    {
        let attempts = ConnectionAttempts {
            addrinfos,
            next: 0,
            bind,
            last_error: None,
            phase: AttemptPhase::Next,
        };
        assert(attempts@.left =~= addrinfos@);
        attempts
    }

    pub fn phase(&self) -> (phase: AttemptPhase)
        ensures
            phase == self@.phase,
    {
        self.phase
    }

    fn next(&mut self) -> (action: AttemptAction)
        requires
            old(self).wf(),
        ensures
            final(self).wf(),
            (final(self)@, action) == next_attempt(old(self)@),
    {
        if self.next >= self.addrinfos.len() {
            self.phase = AttemptPhase::Over;
            return match self.last_error {
                Some(error) => AttemptAction::Fail(error),
                None => AttemptAction::FailWithoutCause,
            };
        }
        let addrinfo = self.addrinfos[self.next];
        self.next += 1;
        self.phase = AttemptPhase::Building(addrinfo);
        assert(self@.left =~= old(self)@.left.drop_first());
        AttemptAction::Build { addrinfo, bind: self.bind }
    }

    /// Takes what came of the action before and says what to do next.
    pub fn step(&mut self, event: AttemptEvent) -> (action: AttemptAction)
        requires
            old(self).wf(),
        ensures
            final(self).wf(),
            (final(self)@, action) == attempt_step(old(self)@, event),
    {
        match (self.phase, event) {
            (AttemptPhase::Next, AttemptEvent::Begin) => self.next(),
            (AttemptPhase::Next, AttemptEvent::Closed) => self.next(),
            (AttemptPhase::Building(addrinfo), AttemptEvent::Built(socket)) => {
                self.phase = AttemptPhase::Connecting(socket);
                AttemptAction::Connect { socket, address: addrinfo.address }
            },
            (AttemptPhase::Building(_), AttemptEvent::BuildFailed(raised)) => {
                self.phase = AttemptPhase::Over;
                AttemptAction::Fail(raised)
            },
            (AttemptPhase::Connecting(socket), AttemptEvent::Connected) => {
                self.phase = AttemptPhase::Over;
                AttemptAction::Finish(socket)
            },
            (AttemptPhase::Connecting(socket), AttemptEvent::ConnectFailed(raised)) => {
                self.phase = AttemptPhase::Next;
                self.last_error = Some(raised);
                AttemptAction::Close(socket)
            },
            _ => {
                self.phase = AttemptPhase::Over;
                AttemptAction::FailWithoutCause
            },
        }
    }
}

/// No address was tried yet.
pub open spec fn fresh_attempts(addrinfos: Seq<ResolvedStreamAddrinfo>, bind: bool) -> AttemptsView {
    AttemptsView { left: addrinfos, bind, last_error: None, phase: AttemptPhase::Next }
}

/// What becomes of one address: the socket that was made for it, and what connecting it raised.
#[derive(Clone, Copy, PartialEq, Eq, Debug, Structural)]
pub struct Outcome {
    pub socket: ObjectId,
    pub refusal: Option<ObjectId>,
}

/// The first socket that connects, or what the last one raised.
pub open spec fn expected_end(outcomes: Seq<Outcome>, last_error: Option<ObjectId>) -> AttemptAction
    decreases outcomes.len(),
{
    if outcomes.len() == 0 {
        match last_error {
            Some(error) => AttemptAction::Fail(error),
            None => AttemptAction::FailWithoutCause,
        }
    } else {
        match outcomes[0].refusal {
            None => AttemptAction::Finish(outcomes[0].socket),
            Some(refusal) => expected_end(outcomes.drop_first(), Some(refusal)),
        }
    }
}

/// Trying the addresses, with the given outcome for each: how it ends.
pub open spec fn attempts_end(v: AttemptsView, outcomes: Seq<Outcome>) -> AttemptAction
    decreases v.left.len(),
{
    let (building, first) = next_attempt(v);
    if v.left.len() == 0 || outcomes.len() == 0 {
        first
    } else {
        let (connecting, _) = attempt_step(building, AttemptEvent::Built(outcomes[0].socket));
        match outcomes[0].refusal {
            None => attempt_step(connecting, AttemptEvent::Connected).1,
            Some(refusal) => {
                let (closing, _) = attempt_step(connecting, AttemptEvent::ConnectFailed(refusal));
                if closing.left.len() < v.left.len() {
                    attempts_end(closing, outcomes.drop_first())
                } else {
                    first
                }
            },
        }
    }
}

/// Connections are tried address by address: the first socket that connects is the result, and
/// where none does the result is what the last one raised.
pub proof fn law_first_address_that_connects_wins(v: AttemptsView, outcomes: Seq<Outcome>)
    requires
        v.phase is Next,
        outcomes.len() == v.left.len(),
    ensures
        attempts_end(v, outcomes) == expected_end(outcomes, v.last_error),
    decreases v.left.len(),
{
    if v.left.len() > 0 {
        let (building, _) = next_attempt(v);
        let (connecting, _) = attempt_step(building, AttemptEvent::Built(outcomes[0].socket));
        if let Some(refusal) = outcomes[0].refusal {
            let (closing, _) = attempt_step(connecting, AttemptEvent::ConnectFailed(refusal));
            law_first_address_that_connects_wins(closing, outcomes.drop_first());
        }
    }
}

/// The path, which has to be there.
pub open spec fn required_path<P>(path: Option<P>) -> Result<P, ConnectError> {
    match path {
        Some(path) => Ok(path),
        None => Err(ConnectError::PathRequired),
    }
}

/// A Unix socket needs a path unless it is given.
pub fn unix_path<P>(path: Option<P>) -> (found: Result<P, ConnectError>)
    ensures
        found == required_path(path),
{
    match path {
        Some(path) => Ok(path),
        None => Err(ConnectError::PathRequired),
    }
}

/// The path, where it is to be cleaned up.
pub open spec fn path_to_clean(cleanup_socket: bool, path: Option<String>) -> Option<String> {
    if cleanup_socket {
        path
    } else {
        None
    }
}

/// The file that a Unix server removes at its end. A path that is no text is left alone.
pub fn cleanup_path(cleanup_socket: bool, path: Option<String>) -> (cleanup: Option<String>)
    ensures
        cleanup == path_to_clean(cleanup_socket, path),
{
    if cleanup_socket {
        path
    } else {
        None
    }
}

/// A listening socket, with its address family.
#[derive(Clone, Copy, PartialEq, Eq, Debug, Structural)]
pub struct ListeningSocket {
    pub family: i32,
    pub fd: RawFd,
}

/// The listener of a socket.
pub open spec fn listener_of(socket: ListeningSocket) -> ServerListener {
    match family_of(socket.family) {
        StreamFamily::Unix => ServerListener::Unix(socket.fd),
        StreamFamily::Tcp => ServerListener::Tcp(socket.fd),
    }
}

/// The listeners of a server's sockets, in their order.
pub fn listener_sources_from_sockets(sockets: &Vec<ListeningSocket>) -> (listeners: Vec<
    ServerListener,
>)
    ensures
        listeners@ == sockets@.map_values(|socket: ListeningSocket| listener_of(socket)),
{
    let mut listeners: Vec<ServerListener> = Vec::new();
    while listeners.len() < sockets.len()
        invariant
            listeners@.len() <= sockets@.len(),
            forall|i: int|
                0 <= i < listeners@.len() ==> #[trigger] listeners@[i] == listener_of(sockets@[i]),
        decreases sockets@.len() - listeners@.len(),
    {
        let socket = sockets[listeners.len()];
        listeners.push(
            match stream_family(socket.family) {
                StreamFamily::Unix => ServerListener::Unix(socket.fd),
                StreamFamily::Tcp => ServerListener::Tcp(socket.fd),
            },
        );
    }
    assert(listeners@ =~= sockets@.map_values(|socket: ListeningSocket| listener_of(socket)));
    listeners
}

/// What a TCP server asks of its sockets.
#[derive(Clone, Copy, PartialEq, Eq, Debug, Structural)]
pub struct TcpServerSocketOptions {
    pub family: i32,
    pub flags: i32,
    pub backlog: i32,
    pub reuse_address: Option<bool>,
    pub reuse_port: Option<bool>,
    pub keep_alive: Option<bool>,
}

/// What is done to a new listening socket.
#[derive(Clone, Copy, PartialEq, Eq, Debug, Structural)]
pub enum ServerSocketStep {
    /// Remove a socket that an earlier server left at the path.
    RemoveStale,
    ReuseAddress,
    ReusePort,
    KeepAlive(bool),
    Bind,
    Listen(i32),
}

/// The options first, then the address, then listening. An option that this machine does not have
/// is left out.
pub open spec fn server_socket_plan(
    options: TcpServerSocketOptions,
    has_reuse_port: bool,
) -> Seq<ServerSocketStep> {
    let first = if options.reuse_address == Some(true) {
        seq![ServerSocketStep::ReuseAddress]
    } else {
        Seq::empty()
    };
    let second = if options.reuse_port == Some(true) && has_reuse_port {
        first.push(ServerSocketStep::ReusePort)
    } else {
        first
    };
    let third = match options.keep_alive {
        Some(enabled) => second.push(ServerSocketStep::KeepAlive(enabled)),
        None => second,
    };
    third.push(ServerSocketStep::Bind).push(ServerSocketStep::Listen(options.backlog))
}

/// What is done to each socket of a TCP server, in this order, until something raises.
pub fn build_tcp_server_sockets(options: TcpServerSocketOptions, has_reuse_port: bool) -> (steps: Vec<
    ServerSocketStep,
>)
    ensures
        steps@ == server_socket_plan(options, has_reuse_port),
{
    let mut steps: Vec<ServerSocketStep> = Vec::new();
    if let Some(true) = options.reuse_address {
        steps.push(ServerSocketStep::ReuseAddress);
    }
    if let Some(true) = options.reuse_port {
        if has_reuse_port {
            steps.push(ServerSocketStep::ReusePort);
        }
    }
    if let Some(enabled) = options.keep_alive {
        steps.push(ServerSocketStep::KeepAlive(enabled));
    }
    steps.push(ServerSocketStep::Bind);
    steps.push(ServerSocketStep::Listen(options.backlog));
    assert(steps@ =~= server_socket_plan(options, has_reuse_port));
    steps
}

/// What is done to the socket of a Unix server.
pub open spec fn unix_socket_plan(backlog: i32) -> Seq<ServerSocketStep> {
    seq![ServerSocketStep::RemoveStale, ServerSocketStep::Bind, ServerSocketStep::Listen(backlog)]
}

/// What is done to the socket of a Unix server, in this order, until something raises.
pub fn build_unix_server_socket(backlog: i32) -> (steps: Vec<ServerSocketStep>)
    ensures
        steps@ == unix_socket_plan(backlog),
{
    let mut steps: Vec<ServerSocketStep> = Vec::new();
    steps.push(ServerSocketStep::RemoveStale);
    steps.push(ServerSocketStep::Bind);
    steps.push(ServerSocketStep::Listen(backlog));
    assert(steps@ =~= unix_socket_plan(backlog));
    steps
}

/// A socket's descriptor in the type of the operating system.
pub fn socket_option_fd(fd: RawFd) -> (raw: Result<i32, ConnectError>)
    ensures
        match raw {
            Ok(raw) => raw == fd,
            Err(error) => !(i32::MIN <= fd <= i32::MAX) && error == ConnectError::SocketOutOfRange,
        },
{
    match crate::transport_start::raw_fd_for_std(fd) {
        Ok(raw) => Ok(raw),
        Err(_) => Err(ConnectError::SocketOutOfRange),
    }
}

/// The number for an option that is on or off.
pub open spec fn option_value(enabled: bool) -> int {
    if enabled {
        1
    } else {
        0
    }
}

/// The value of an option that is on or off.
pub fn socket_option_value(enabled: bool) -> (value: i32)
    ensures
        value == option_value(enabled),
{
    if enabled {
        1
    } else {
        0
    }
}

/// Every address that a server listens at is bound before it is listened at, and its options are
/// set before both.
pub proof fn law_sockets_are_set_up_before_they_listen(
    options: TcpServerSocketOptions,
    has_reuse_port: bool,
)
    ensures
        ({
            let plan = server_socket_plan(options, has_reuse_port);
            &&& plan.len() >= 2
            &&& plan.last() == ServerSocketStep::Listen(options.backlog)
            &&& plan[plan.len() - 2] == ServerSocketStep::Bind
            &&& forall|i: int|
                0 <= i < plan.len() - 2 ==> !(#[trigger] plan[i] is Bind) && !(plan[i] is Listen)
        }),
{
}

} // verus!
