use rsloop::connect::{
    build_tcp_server_sockets, build_unix_server_socket, check_tls_arguments, cleanup_path,
    connect_socket_to_address, is_already_connected_errno, is_connect_in_progress_errno,
    listener_sources_from_sockets, security_of, socket_option_fd, socket_option_value,
    socket_os_error, unix_path, AttemptAction, AttemptEvent, AttemptPhase, ConnectError,
    ConnectionAttempts, ListeningSocket, ResolvedStreamAddrinfo, Security, ServerSocketStep,
    SocketConnectAction, SocketConnectEvent, TcpServerSocketOptions, TlsArguments,
};
use rsloop::connection_flow::{ConnectionFlow, FlowAction, FlowEvent, SocketSource};
use rsloop::objects::{ignore_cancelled, ExceptionClass};
use rsloop::os_constants::{
    AF_INET, AF_INET6, AF_UNIX, EALREADY, EINPROGRESS, EISCONN, EWOULDBLOCK, WSAEISCONN,
};
use rsloop::server::ServerListener;
use rsloop::server_flow::{ServerAction, ServerEvent, ServerFlow, ServerSource};
use rsloop::sock_ops::{receive_step, SendAction, SendAll, SendEvent, SockAction, SockEvent};
use rsloop::text::{push_decimal, push_flag, push_signed_decimal, same_text};

const PLAIN: TlsArguments = TlsArguments {
    ssl: false,
    server_hostname: false,
    handshake_timeout: false,
    shutdown_timeout: false,
};

fn addrinfo(address: u64) -> ResolvedStreamAddrinfo {
    ResolvedStreamAddrinfo { family: AF_INET, sock_type: 1, proto: 6, address }
}

fn connection(source: SocketSource, given: TlsArguments, server_side: bool) -> ConnectionFlow {
    match ConnectionFlow::new(source, given, server_side) {
        Ok(flow) => flow,
        Err(error) => panic!("{}", error.message()),
    }
}

fn server(source: ServerSource, start_serving: bool) -> ServerFlow {
    match ServerFlow::new(source, PLAIN, start_serving) {
        Ok(flow) => flow,
        Err(error) => panic!("{}", error.message()),
    }
}

fn options() -> TcpServerSocketOptions {
    TcpServerSocketOptions {
        family: 0,
        flags: 1,
        backlog: 100,
        reuse_address: Some(true),
        reuse_port: Some(true),
        keep_alive: Some(false),
    }
}

#[test]
fn tls_arguments_need_tls() {
    assert_eq!(check_tls_arguments(PLAIN), Ok(()));
    let all = TlsArguments {
        ssl: true,
        server_hostname: true,
        handshake_timeout: true,
        shutdown_timeout: true,
    };
    assert_eq!(check_tls_arguments(all), Ok(()));
    let without = TlsArguments { ssl: false, ..all };
    assert_eq!(check_tls_arguments(without), Err(ConnectError::HostnameWithoutTls));
    let without = TlsArguments { server_hostname: false, ..without };
    assert_eq!(check_tls_arguments(without), Err(ConnectError::HandshakeTimeoutWithoutTls));
    let without = TlsArguments { handshake_timeout: false, ..without };
    assert_eq!(check_tls_arguments(without), Err(ConnectError::ShutdownTimeoutWithoutTls));
    assert!(matches!(
        ConnectionFlow::new(SocketSource::Given(1), without, false),
        Err(ConnectError::ShutdownTimeoutWithoutTls)
    ));
    assert!(matches!(
        ServerFlow::new(ServerSource::Given(1), without, false),
        Err(ConnectError::ShutdownTimeoutWithoutTls)
    ));
}

#[test]
fn connect_errors_have_messages_and_classes() {
    let expected = [
        (
            ConnectError::HostnameWithoutTls,
            "server_hostname is only meaningful with ssl",
            ExceptionClass::ValueError,
        ),
        (
            ConnectError::HandshakeTimeoutWithoutTls,
            "ssl_handshake_timeout is only meaningful with ssl",
            ExceptionClass::ValueError,
        ),
        (
            ConnectError::ShutdownTimeoutWithoutTls,
            "ssl_shutdown_timeout is only meaningful with ssl",
            ExceptionClass::ValueError,
        ),
        (
            ConnectError::PathRequired,
            "path is required when sock is not provided",
            ExceptionClass::RuntimeError,
        ),
        (
            ConnectError::NoAddress,
            "failed to connect socket",
            ExceptionClass::RuntimeError,
        ),
        (
            ConnectError::SocketOutOfRange,
            "socket file descriptor out of range",
            ExceptionClass::RuntimeError,
        ),
    ];
    for (error, message, class) in expected {
        assert_eq!(error.message(), message);
        assert_eq!(error.exception(), class);
    }
}

#[test]
fn security_follows_the_side() {
    assert_eq!(security_of(false, false), Security::Plain);
    assert_eq!(security_of(false, true), Security::Plain);
    assert_eq!(security_of(true, false), Security::ClientTls);
    assert_eq!(security_of(true, true), Security::ServerTls);
}

#[test]
fn error_numbers_are_those_of_the_system() {
    assert_eq!(EISCONN, libc::EISCONN);
    assert_eq!(EINPROGRESS, libc::EINPROGRESS);
    assert_eq!(EALREADY, libc::EALREADY);
    assert_eq!(EWOULDBLOCK, libc::EWOULDBLOCK);
    assert!(is_already_connected_errno(libc::EISCONN));
    assert!(is_already_connected_errno(WSAEISCONN));
    assert!(!is_already_connected_errno(libc::EINPROGRESS));
    assert!(is_connect_in_progress_errno(libc::EINPROGRESS));
    assert!(is_connect_in_progress_errno(libc::EALREADY));
    assert!(is_connect_in_progress_errno(libc::EWOULDBLOCK));
    assert!(!is_connect_in_progress_errno(libc::ECONNREFUSED));
}

#[test]
fn a_socket_connects_when_it_says_so() {
    let step = connect_socket_to_address;
    assert_eq!(step(SocketConnectEvent::Begin), SocketConnectAction::Connect);
    assert_eq!(step(SocketConnectEvent::Connected), SocketConnectAction::Done);
    let refused = |retryable, errno| {
        connect_socket_to_address(SocketConnectEvent::Refused { refusal: 9, retryable, errno })
    };
    assert_eq!(refused(true, Some(EINPROGRESS)), SocketConnectAction::WaitWritable);
    assert_eq!(refused(false, Some(EISCONN)), SocketConnectAction::Done);
    assert_eq!(refused(false, Some(111)), SocketConnectAction::Fail(9));
    assert_eq!(refused(false, None), SocketConnectAction::Fail(9));
    assert_eq!(step(SocketConnectEvent::Writable), SocketConnectAction::ReadSocketError);
    assert_eq!(step(SocketConnectEvent::SocketError(0)), SocketConnectAction::Done);
    assert_eq!(
        step(SocketConnectEvent::SocketError(EALREADY)),
        SocketConnectAction::WaitWritable
    );
    assert_eq!(step(SocketConnectEvent::SocketError(EISCONN)), SocketConnectAction::Done);
    assert_eq!(
        step(SocketConnectEvent::SocketError(111)),
        SocketConnectAction::FailWith(111)
    );
    assert_eq!(step(SocketConnectEvent::Raised(4)), SocketConnectAction::Fail(4));
    assert_eq!(socket_os_error(111), "socket connect failed: 111");
    assert_eq!(socket_os_error(-5), "socket connect failed: -5");
}

#[test]
fn the_first_address_that_connects_wins() {
    let mut attempts = ConnectionAttempts::new(vec![addrinfo(1), addrinfo(2), addrinfo(3)], true);
    assert_eq!(
        attempts.step(AttemptEvent::Begin),
        AttemptAction::Build { addrinfo: addrinfo(1), bind: true }
    );
    assert_eq!(
        attempts.step(AttemptEvent::Built(11)),
        AttemptAction::Connect { socket: 11, address: 1 }
    );
    assert_eq!(attempts.phase(), AttemptPhase::Connecting(11));
    assert_eq!(attempts.step(AttemptEvent::ConnectFailed(21)), AttemptAction::Close(11));
    assert_eq!(
        attempts.step(AttemptEvent::Closed),
        AttemptAction::Build { addrinfo: addrinfo(2), bind: true }
    );
    assert_eq!(
        attempts.step(AttemptEvent::Built(12)),
        AttemptAction::Connect { socket: 12, address: 2 }
    );
    assert_eq!(attempts.step(AttemptEvent::Connected), AttemptAction::Finish(12));
}

#[test]
fn the_last_refusal_comes_out() {
    let mut attempts = ConnectionAttempts::new(vec![addrinfo(1), addrinfo(2)], false);
    attempts.step(AttemptEvent::Begin);
    for (socket, refusal) in [(11, 21), (12, 22)] {
        attempts.step(AttemptEvent::Built(socket));
        assert_eq!(
            attempts.step(AttemptEvent::ConnectFailed(refusal)),
            AttemptAction::Close(socket)
        );
        let next = attempts.step(AttemptEvent::Closed);
        if socket == 12 {
            assert_eq!(next, AttemptAction::Fail(22));
        }
    }
    let mut none = ConnectionAttempts::new(vec![], false);
    assert_eq!(none.step(AttemptEvent::Begin), AttemptAction::FailWithoutCause);
    let mut broken = ConnectionAttempts::new(vec![addrinfo(1)], false);
    broken.step(AttemptEvent::Begin);
    assert_eq!(broken.step(AttemptEvent::BuildFailed(5)), AttemptAction::Fail(5));
}

#[test]
fn a_given_socket_becomes_the_transport() {
    let tls = TlsArguments { ssl: true, ..PLAIN };
    let mut flow = connection(SocketSource::Given(7), tls, true);
    assert_eq!(flow.step(FlowEvent::Begin), FlowAction::CallFactory);
    assert_eq!(flow.step(FlowEvent::Made(30)), FlowAction::SetNonblocking(7));
    assert_eq!(
        flow.step(FlowEvent::Done),
        FlowAction::MakeTransport { socket: 7, protocol: 30, security: Security::ServerTls }
    );
    assert_eq!(
        flow.step(FlowEvent::Made(31)),
        FlowAction::Finish { transport: 31, protocol: 30 }
    );
    let mut flow = connection(SocketSource::Given(7), PLAIN, false);
    flow.step(FlowEvent::Begin);
    flow.step(FlowEvent::Made(30));
    assert_eq!(flow.step(FlowEvent::Failed(4)), FlowAction::Fail(4));
}

#[test]
fn a_pipe_may_refuse_to_be_nonblocking() {
    let mut flow = connection(SocketSource::Pipe(7), PLAIN, false);
    flow.step(FlowEvent::Begin);
    assert_eq!(flow.step(FlowEvent::Made(30)), FlowAction::SetNonblocking(7));
    assert_eq!(
        flow.step(FlowEvent::Failed(4)),
        FlowAction::MakeTransport { socket: 7, protocol: 30, security: Security::Plain }
    );
}

#[test]
fn a_host_is_tried_address_by_address() {
    let mut flow = connection(SocketSource::Addresses { bind: false }, PLAIN, false);
    flow.step(FlowEvent::Begin);
    assert_eq!(flow.step(FlowEvent::Made(30)), FlowAction::Resolve);
    assert_eq!(
        flow.step(FlowEvent::Resolved(vec![addrinfo(1), addrinfo(2)])),
        FlowAction::Build { addrinfo: addrinfo(1), bind: false }
    );
    assert_eq!(
        flow.step(FlowEvent::Made(11)),
        FlowAction::Connect { socket: 11, address: 1 }
    );
    assert_eq!(flow.step(FlowEvent::Failed(21)), FlowAction::Close(11));
    assert_eq!(
        flow.step(FlowEvent::Done),
        FlowAction::Build { addrinfo: addrinfo(2), bind: false }
    );
    assert_eq!(
        flow.step(FlowEvent::Made(12)),
        FlowAction::Connect { socket: 12, address: 2 }
    );
    assert_eq!(
        flow.step(FlowEvent::Done),
        FlowAction::MakeTransport { socket: 12, protocol: 30, security: Security::Plain }
    );
    let mut flow = connection(SocketSource::Addresses { bind: false }, PLAIN, false);
    flow.step(FlowEvent::Begin);
    flow.step(FlowEvent::Made(30));
    assert_eq!(
        flow.step(FlowEvent::Resolved(vec![])),
        FlowAction::Refuse(ConnectError::NoAddress)
    );
}

#[test]
fn a_unix_connection_needs_a_path() {
    let mut flow = connection(SocketSource::UnixPath(Some(8)), PLAIN, false);
    flow.step(FlowEvent::Begin);
    assert_eq!(flow.step(FlowEvent::Made(30)), FlowAction::MakeUnixSocket);
    assert_eq!(
        flow.step(FlowEvent::Made(11)),
        FlowAction::Connect { socket: 11, address: 8 }
    );
    assert_eq!(
        flow.step(FlowEvent::Done),
        FlowAction::MakeTransport { socket: 11, protocol: 30, security: Security::Plain }
    );
    let mut flow = connection(SocketSource::UnixPath(None), PLAIN, false);
    flow.step(FlowEvent::Begin);
    flow.step(FlowEvent::Made(30));
    assert_eq!(
        flow.step(FlowEvent::Made(11)),
        FlowAction::Refuse(ConnectError::PathRequired)
    );
    assert_eq!(unix_path(Some(8)), Ok(8));
    assert_eq!(unix_path::<u64>(None), Err(ConnectError::PathRequired));
}

#[test]
fn only_a_text_path_is_cleaned_up() {
    assert_eq!(cleanup_path(true, Some("/tmp/s".to_owned())), Some("/tmp/s".to_owned()));
    assert_eq!(cleanup_path(true, None), None);
    assert_eq!(cleanup_path(false, Some("/tmp/s".to_owned())), None);
}

#[test]
fn listeners_follow_the_family() {
    assert_eq!((AF_UNIX, AF_INET, AF_INET6), (libc::AF_UNIX, libc::AF_INET, libc::AF_INET6));
    let sockets = vec![
        ListeningSocket { family: AF_UNIX, fd: 3 },
        ListeningSocket { family: AF_INET, fd: 4 },
        ListeningSocket { family: AF_INET6, fd: 5 },
    ];
    assert_eq!(
        listener_sources_from_sockets(&sockets),
        vec![ServerListener::Unix(3), ServerListener::Tcp(4), ServerListener::Tcp(5)]
    );
}

#[test]
fn server_sockets_are_set_up_before_they_listen() {
    assert_eq!(
        build_tcp_server_sockets(options(), true),
        vec![
            ServerSocketStep::ReuseAddress,
            ServerSocketStep::ReusePort,
            ServerSocketStep::KeepAlive(false),
            ServerSocketStep::Bind,
            ServerSocketStep::Listen(100),
        ]
    );
    let bare = TcpServerSocketOptions {
        reuse_address: Some(false),
        keep_alive: None,
        ..options()
    };
    assert_eq!(
        build_tcp_server_sockets(bare, false),
        vec![ServerSocketStep::Bind, ServerSocketStep::Listen(100)]
    );
    assert_eq!(
        build_unix_server_socket(5),
        vec![
            ServerSocketStep::RemoveStale,
            ServerSocketStep::Bind,
            ServerSocketStep::Listen(5),
        ]
    );
}

#[test]
fn options_are_numbers_for_the_system() {
    assert_eq!(socket_option_fd(7), Ok(7));
    assert_eq!(socket_option_fd(1 << 40), Err(ConnectError::SocketOutOfRange));
    assert_eq!((socket_option_value(true), socket_option_value(false)), (1, 0));
}

#[test]
fn a_server_listens_at_every_address() {
    let plain = TcpServerSocketOptions {
        reuse_address: None,
        reuse_port: None,
        keep_alive: None,
        ..options()
    };
    let mut flow = server(ServerSource::Tcp { options: plain, has_reuse_port: true }, true);
    assert_eq!(flow.step(ServerEvent::Begin), ServerAction::Resolve);
    assert_eq!(
        flow.step(ServerEvent::Resolved(vec![addrinfo(1), addrinfo(2)])),
        ServerAction::Build(addrinfo(1))
    );
    for (socket, address) in [(11, 1), (12, 2)] {
        assert_eq!(
            flow.step(ServerEvent::Made(socket)),
            ServerAction::SetUp { socket, address, step: ServerSocketStep::Bind }
        );
        assert_eq!(
            flow.step(ServerEvent::Done),
            ServerAction::SetUp { socket, address, step: ServerSocketStep::Listen(100) }
        );
        let next = flow.step(ServerEvent::Done);
        if socket == 11 {
            assert_eq!(next, ServerAction::Build(addrinfo(2)));
        } else {
            assert_eq!(next, ServerAction::MakeServer);
        }
    }
    assert_eq!(*flow.sockets(), vec![11, 12]);
    assert_eq!(flow.step(ServerEvent::Made(40)), ServerAction::StartServing(40));
    assert_eq!(flow.step(ServerEvent::Done), ServerAction::Finish(40));
}

#[test]
fn a_unix_server_needs_a_path() {
    let mut flow = server(ServerSource::Unix { path: None, backlog: 5 }, true);
    assert_eq!(
        flow.step(ServerEvent::Begin),
        ServerAction::Refuse(ConnectError::PathRequired)
    );
    let mut flow = server(ServerSource::Unix { path: Some(8), backlog: 5 }, false);
    assert_eq!(flow.step(ServerEvent::Begin), ServerAction::MakeUnixSocket);
    assert_eq!(
        flow.step(ServerEvent::Made(11)),
        ServerAction::SetUp { socket: 11, address: 8, step: ServerSocketStep::RemoveStale }
    );
    assert_eq!(flow.step(ServerEvent::Failed(3)), ServerAction::Fail(3));
    let mut flow = server(ServerSource::Given(7), false);
    assert_eq!(flow.step(ServerEvent::Begin), ServerAction::SetNonblocking(7));
    assert_eq!(flow.step(ServerEvent::Done), ServerAction::MakeServer);
    assert_eq!(*flow.sockets(), vec![7]);
    assert_eq!(flow.step(ServerEvent::Made(40)), ServerAction::Finish(40));
}

#[test]
fn receiving_waits_where_the_socket_asks_for_it() {
    assert_eq!(receive_step(SockEvent::Begin), SockAction::Call);
    assert_eq!(
        receive_step(SockEvent::Refused { refusal: 3, retryable: true }),
        SockAction::WaitReadable
    );
    assert_eq!(receive_step(SockEvent::Ready), SockAction::Call);
    assert_eq!(receive_step(SockEvent::Returned(8)), SockAction::Return(8));
    assert_eq!(
        receive_step(SockEvent::Refused { refusal: 3, retryable: false }),
        SockAction::Fail(3)
    );
    assert_eq!(receive_step(SockEvent::Raised(4)), SockAction::Fail(4));
}

#[test]
fn sending_covers_all_of_the_data() {
    let mut sending = SendAll::new(10);
    assert_eq!(sending.step(SendEvent::Begin), SendAction::Send { from: 0, to: 10 });
    assert_eq!(sending.step(SendEvent::Sent(4)), SendAction::WaitWritable);
    assert_eq!(sending.step(SendEvent::Ready), SendAction::Send { from: 4, to: 10 });
    assert_eq!(
        sending.step(SendEvent::Refused { refusal: 3, retryable: true }),
        SendAction::WaitWritable
    );
    assert_eq!(sending.step(SendEvent::Ready), SendAction::Send { from: 4, to: 10 });
    assert_eq!(sending.step(SendEvent::Sent(6)), SendAction::Done);
    assert_eq!(SendAll::new(0).step(SendEvent::Begin), SendAction::Done);
    assert_eq!(
        SendAll::new(1).step(SendEvent::Refused { refusal: 3, retryable: false }),
        SendAction::Fail(3)
    );
    assert_eq!(SendAll::new(1).step(SendEvent::Raised(4)), SendAction::Fail(4));
}

#[test]
fn a_cancelled_future_refuses_without_harm() {
    assert_eq!(ignore_cancelled(1, Ok(true)), Ok(()));
    assert_eq!(ignore_cancelled(1, Ok(false)), Err(1));
    assert_eq!(ignore_cancelled(1, Err(2)), Err(2));
}

#[test]
fn numbers_and_flags_become_text() {
    let mut text = String::new();
    push_decimal(&mut text, 0);
    text.push(' ');
    push_decimal(&mut text, u64::MAX);
    text.push(' ');
    push_signed_decimal(&mut text, i64::MIN);
    text.push(' ');
    push_signed_decimal(&mut text, -10);
    text.push(' ');
    push_flag(&mut text, true);
    push_flag(&mut text, false);
    assert_eq!(text, "0 18446744073709551615 -9223372036854775808 -10 truefalse");
    assert!(same_text("abc", "abc") && !same_text("abc", "abd") && !same_text("ab", "abc"));
}
