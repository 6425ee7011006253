//! What holds of making connections and listening sockets.

use vstd::prelude::*;
use crate::connect::{
    attempt_step, fresh_attempts, listener_of, means_connected, means_in_progress, option_value,
    path_to_clean, required_path, security_for, server_socket_plan, socket_connect_step,
    tls_arguments_fit, unix_socket_plan, AttemptAction, AttemptEvent, AttemptPhase,
    AttemptsView, ConnectError, ListeningSocket, ResolvedStreamAddrinfo, ServerSocketStep,
    SocketConnectAction, SocketConnectEvent, TcpServerSocketOptions, TlsArguments,
};
use crate::os_constants::{AF_UNIX, EALREADY, EINPROGRESS, EISCONN, EWOULDBLOCK, WSAEISCONN};
use crate::server::ServerListener;

verus! {

/// With TLS every argument about it is in order. Without it none is, and of several the server's
/// name is named before the time of the handshake, and that before the time of the shutdown.
pub proof fn law_tls_arguments_need_tls(given: TlsArguments)
    ensures
        tls_arguments_fit(given) is Ok <==> given.ssl || !(given.server_hostname
            || given.handshake_timeout || given.shutdown_timeout),
        !given.ssl && given.server_hostname ==> tls_arguments_fit(given)->Err_0
            == ConnectError::HostnameWithoutTls,
        !given.ssl && !given.server_hostname && given.handshake_timeout ==> tls_arguments_fit(
            given,
        )->Err_0 == ConnectError::HandshakeTimeoutWithoutTls,
        !given.ssl && !given.server_hostname && !given.handshake_timeout && given.shutdown_timeout
            ==> tls_arguments_fit(given)->Err_0 == ConnectError::ShutdownTimeoutWithoutTls,
{
}

/// A connection is secured exactly where TLS was asked for, and on the side on which it is.
pub proof fn law_security_is_what_was_asked(ssl: bool, server_side: bool)
    ensures
        security_for(ssl, server_side) is Plain <==> !ssl,
        ssl && server_side <==> security_for(ssl, server_side) is ServerTls,
        ssl && !server_side <==> security_for(ssl, server_side) is ClientTls,
{
}

/// The numbers by which a system says that a socket is connected, or that it is on the way, are
/// different ones, and zero is none of them.
pub proof fn law_connect_numbers_are_told_apart(errno: i32)
    ensures
        means_connected(errno) ==> !means_in_progress(errno),
        !means_connected(0) && !means_in_progress(0),
        means_connected(EISCONN) && means_connected(WSAEISCONN),
        means_in_progress(EINPROGRESS) && means_in_progress(EALREADY) && means_in_progress(
            EWOULDBLOCK,
        ),
        means_connected(errno) ==> errno == EISCONN || errno == WSAEISCONN,
        means_in_progress(errno) ==> errno == EINPROGRESS || errno == EALREADY || errno
            == EWOULDBLOCK,
{
}

/// Connecting begins with the call. A socket that asks to be waited for is, until it can be written
/// to; then it is asked for its error. None, or that it is connected, is success; that it is on the
/// way is waited for again; any other number is the error. A refusal that is final comes out as it
/// was, unless it says that the socket is connected, and so does anything else that raises.
pub proof fn law_connecting_follows_the_socket(event: SocketConnectEvent)
    ensures
        event is Begin ==> socket_connect_step(event) is Connect,
        event is Connected ==> socket_connect_step(event) is Done,
        event is Writable ==> socket_connect_step(event) is ReadSocketError,
        event matches SocketConnectEvent::Raised(raised) ==> socket_connect_step(event)
            == SocketConnectAction::Fail(raised),
        event matches SocketConnectEvent::SocketError(errno) ==> {
            &&& errno == 0 ==> socket_connect_step(event) is Done
            &&& means_connected(errno) ==> socket_connect_step(event) is Done
            &&& means_in_progress(errno) ==> socket_connect_step(event) is WaitWritable
            &&& errno != 0 && !means_connected(errno) && !means_in_progress(errno)
                ==> socket_connect_step(event) == SocketConnectAction::FailWith(errno)
        },
        event matches SocketConnectEvent::Refused { refusal, retryable, errno } ==> {
            &&& retryable ==> socket_connect_step(event) is WaitWritable
            &&& !retryable && errno is Some && means_connected(errno.unwrap())
                ==> socket_connect_step(event) is Done
            &&& !retryable && (errno is None || !means_connected(errno.unwrap()))
                ==> socket_connect_step(event) == SocketConnectAction::Fail(refusal)
        },
{
}

/// Addresses are tried in their order, each once. A socket is made for the address whose turn it is,
/// bound where that was asked for, and connected to that address; one that does not connect is
/// closed, and what it raised is kept for the end; one that does is the result.
pub proof fn law_each_address_gets_its_own_socket(v: AttemptsView, event: AttemptEvent)
    ensures
        ({
            let (after, action) = attempt_step(v, event);
            &&& action matches AttemptAction::Build { addrinfo, bind } ==> v.left.len() > 0
                && addrinfo == v.left[0] && bind == v.bind && after.left == v.left.skip(1)
                && after.phase == AttemptPhase::Building(addrinfo)
            &&& !(action is Build) ==> after.left == v.left
            &&& action matches AttemptAction::Connect { socket, address } ==> event
                == AttemptEvent::Built(socket) && after.phase == AttemptPhase::Connecting(socket)
            &&& action is Connect ==> v.phase is Building && action->address
                == v.phase->Building_0.address
            &&& action matches AttemptAction::Close(socket) ==> v.phase == AttemptPhase::Connecting(
                socket,
            ) && event is ConnectFailed && after.last_error == Some(event->ConnectFailed_0)
                && after.phase is Next
            &&& !(action is Close) ==> after.last_error == v.last_error
            &&& action matches AttemptAction::Finish(socket) ==> v.phase
                == AttemptPhase::Connecting(socket) && event is Connected
            &&& v.phase is Building && event is Built ==> action is Connect
            &&& v.phase is Connecting && event is Connected ==> action is Finish
            &&& v.phase is Connecting && event is ConnectFailed ==> action is Close
            &&& v.phase is Building ==> (event matches AttemptEvent::BuildFailed(raised) ==> action
                == AttemptAction::Fail(raised))
            &&& v.phase is Next && (event is Begin || event is Closed) && v.left.len() > 0
                ==> action is Build
            &&& v.phase is Next && (event is Begin || event is Closed) && v.left.len() == 0
                ==> action == match v.last_error {
                Some(error) => AttemptAction::Fail(error),
                None => AttemptAction::FailWithoutCause,
            }
            &&& after.bind == v.bind
        }),
{
    assert(v.left.len() > 0 ==> v.left.drop_first() =~= v.left.skip(1));
}

/// Trying begins with all addresses, and with nothing gone wrong.
pub proof fn law_trying_begins_with_every_address(
    addrinfos: Seq<ResolvedStreamAddrinfo>,
    bind: bool,
)
    ensures
        fresh_attempts(addrinfos, bind).left == addrinfos,
        fresh_attempts(addrinfos, bind).bind == bind,
        fresh_attempts(addrinfos, bind).last_error is None,
        fresh_attempts(addrinfos, bind).phase is Next,
{
}

/// A listening socket is listened at by its own descriptor, as the family says.
pub proof fn law_listener_is_its_socket(socket: ListeningSocket)
    ensures
        socket.family == AF_UNIX ==> listener_of(socket) == ServerListener::Unix(socket.fd),
        socket.family != AF_UNIX ==> listener_of(socket) == ServerListener::Tcp(socket.fd),
{
}

/// An option of a listening socket is set exactly where it was asked for, and as it was asked for.
/// One that the machine does not have is left out.
pub proof fn law_options_are_set_as_asked(options: TcpServerSocketOptions, has_reuse_port: bool)
    ensures
        ({
            let plan = server_socket_plan(options, has_reuse_port);
            &&& plan.contains(ServerSocketStep::ReuseAddress) <==> options.reuse_address == Some(
                true,
            )
            &&& plan.contains(ServerSocketStep::ReusePort) <==> options.reuse_port == Some(true)
                && has_reuse_port
            &&& plan.contains(ServerSocketStep::KeepAlive(true)) <==> options.keep_alive == Some(
                true,
            )
            &&& plan.contains(ServerSocketStep::KeepAlive(false)) <==> options.keep_alive == Some(
                false,
            )
            &&& !plan.contains(ServerSocketStep::RemoveStale)
            &&& plan.contains(ServerSocketStep::Bind)
            &&& plan.contains(ServerSocketStep::Listen(options.backlog))
        }),
{
    let plan = server_socket_plan(options, has_reuse_port);
    let n = plan.len() as int;
    assert(plan[n - 1] == ServerSocketStep::Listen(options.backlog));
    assert(plan[n - 2] == ServerSocketStep::Bind);
    if let Some(enabled) = options.keep_alive {
        assert(plan[n - 3] == ServerSocketStep::KeepAlive(enabled));
    }
    if options.reuse_port == Some(true) && has_reuse_port {
        let i = if options.reuse_address == Some(true) {
            1int
        } else {
            0int
        };
        assert(plan[i] == ServerSocketStep::ReusePort);
    }
    if options.reuse_address == Some(true) {
        assert(plan[0] == ServerSocketStep::ReuseAddress);
    }
}

/// A Unix server removes what an earlier one left, then binds, then listens. What it leaves itself
/// is cleaned up exactly where that was asked for.
pub proof fn law_unix_server_clears_the_path_first(backlog: i32, path: Option<String>)
    ensures
        unix_socket_plan(backlog).len() == 3,
        unix_socket_plan(backlog)[0] == ServerSocketStep::RemoveStale,
        unix_socket_plan(backlog)[1] == ServerSocketStep::Bind,
        unix_socket_plan(backlog)[2] == ServerSocketStep::Listen(backlog),
        path_to_clean(true, path) == path,
        path_to_clean(false, path) is None,
{
}

/// The path of a Unix socket is taken as it is, and is missed where there is none.
pub proof fn law_given_path_is_taken<P>(path: P)
    ensures
        required_path(Some(path)) == Ok::<P, ConnectError>(path),
        required_path(None::<P>) == Err::<P, ConnectError>(ConnectError::PathRequired),
{
}

/// An option that is on has another number than one that is off, and off is zero.
pub proof fn law_options_are_numbers(enabled: bool)
    ensures
        option_value(enabled) == 0 <==> !enabled,
        option_value(enabled) == 1 <==> enabled,
{
}

} // verus!
