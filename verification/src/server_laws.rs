//! What holds of servers, and of the ways in which connections and servers are made.

use vstd::prelude::*;
use crate::connect::{
    server_socket_plan, tls_arguments_fit, unix_socket_plan, AttemptPhase, ConnectError,
    Security, TlsArguments,
};
use crate::connection_flow::{
    flow_step, fresh_flow, tls_refusal, FlowAction, FlowEvent, FlowPhase, FlowView, SocketSource,
};
use crate::loop_commands::{LoopCommand, LoopIoCommand, LoopTransportCommand, ReadyItem};
use crate::loop_core::{LoopCoreError, LoopView, Sent, ThreadView};
use crate::objects::ObjectId;
use crate::server::{
    accepted_context, accepting, fds_of, fresh_server, is_accept_route, is_accept_start,
    is_over, is_server_close, lost, opened, plain_params, serves, start_commands, stop_commands,
    with_accepting, AcceptPlan, AcceptRoute, ServerClosing, ServerCreateParams, ServerListener,
    ServerView,
};
use crate::server_flow::{
    fresh_server_flow, server_step, socket_steps, ServerAction, ServerEvent, ServerFlowView,
    ServerPhase, ServerSource,
};
use crate::stream_transport::TransportSpawnContext;

verus! {

/// A new server is what it was made from, serves nobody yet, and is not closed.
pub proof fn law_new_server_waits_to_serve(
    id: ObjectId,
    spawn_context: TransportSpawnContext,
    sockets: Vec<ObjectId>,
    listeners: Vec<ServerListener>,
    protocol: ObjectId,
)
    ensures
        ({
            let params = plain_params(spawn_context, sockets, listeners);
            let v = fresh_server(id, params);
            &&& v.id == id
            &&& !v.closed
            &&& !v.serving
            &&& !serves(v)
            &&& !is_over(v)
            &&& v.active_connections == 0
            &&& v.accept_fds.len() == 0
            &&& v.sockets == sockets@
            &&& v.listeners == listeners@
            &&& v.protocol_factory == spawn_context.protocol
            &&& v.tls is None
            &&& v.cleanup_path is None
            &&& accepted_context(v, protocol) == (TransportSpawnContext { protocol, ..spawn_context })
        }),
{
}

/// A server keeps its path, its TLS configuration and its factory from its parameters.
pub proof fn law_server_keeps_its_parameters(id: ObjectId, params: ServerCreateParams)
    ensures
        fresh_server(id, params).tls == params.tls,
        fresh_server(id, params).cleanup_path == params.cleanup_path,
        fresh_server(id, params).protocol_factory == params.protocol_factory,
        fresh_server(id, params).loop_obj == params.loop_obj,
        fresh_server(id, params).loop_core == params.loop_core,
        fresh_server(id, params).context == params.context,
        fresh_server(id, params).context_needs_run == params.context_needs_run,
        fresh_server(id, params).listeners == params.listeners@,
        fresh_server(id, params).sockets == params.sockets@,
{
}

/// Closing a server ends its serving and hands out every descriptor that it is accepted from. That
/// is done once: the second time there is nothing to do. Connections that are open stay open.
pub proof fn law_server_closes_once(
    v: ServerView,
    closing: Option<ServerClosing>,
    v_after: ServerView,
)
    requires
        is_server_close(v, closing, v_after),
    ensures
        v_after.closed,
        closing is Some <==> !v.closed,
        closing matches Some(closing) ==> closing.accept_fds@ == v.accept_fds,
        closing is Some ==> !serves(v_after) && v_after.accept_fds.len() == 0
            && v_after.listeners.len() == 0,
        closing is None ==> v_after == v,
        v_after.active_connections == v.active_connections,
        v_after.sockets == v.sockets,
        v_after.cleanup_path == v.cleanup_path,
        v_after.tls == v.tls,
        is_over(v_after) <==> v.active_connections == 0,
{
}

/// Waiting for the end of a server is over exactly when it is closed and has no connection left.
pub proof fn law_server_ends_with_its_last_connection(v: ServerView)
    ensures
        is_over(v) <==> v.closed && v.active_connections == 0,
        serves(v) <==> v.serving && !v.closed,
        is_over(v) ==> !serves(v),
{
}

/// Each connection counts once, from its opening to its loss.
pub proof fn law_connections_are_counted(n: usize)
    ensures
        n < usize::MAX ==> opened(n) == n + 1,
        n > 0 ==> lost(n) == n - 1,
        lost(opened(n)) == n,
        opened(lost(n)) == n,
{
}

/// A server begins to accept once, from every listener that it has, and not at all when it is
/// closed: in threads with TLS, by the runtime thread without.
pub proof fn law_server_begins_to_accept_once(v: ServerView, plan: AcceptPlan, v_after: ServerView)
    requires
        is_accept_start(v, plan, v_after),
    ensures
        plan is Nothing <==> v.closed || v.serving,
        plan is Nothing ==> v_after == v,
        !(plan is Nothing) ==> serves(v_after) && v_after.listeners.len() == 0,
        plan matches AcceptPlan::Threads(listeners) ==> v.tls is Some && listeners@ == v.listeners,
        plan matches AcceptPlan::Watch(listeners) ==> v.tls is None && listeners@ == v.listeners,
        v_after.accept_fds == v.accept_fds,
        v_after.closed == v.closed,
        v_after.active_connections == v.active_connections,
        accepting(v).serving,
{
}

/// The runtime thread accepts from each listener for this server, and the server remembers each
/// descriptor, so that closing it has the runtime thread leave exactly those.
pub proof fn law_every_listener_is_accepted_from(
    v: ServerView,
    listeners: Seq<ServerListener>,
    i: int,
)
    requires
        0 <= i < listeners.len(),
    ensures
        start_commands(v.id, listeners).len() == listeners.len(),
        start_commands(v.id, listeners)[i] == LoopCommand::Io(
            LoopIoCommand::StartServerAccept { fd: listeners[i].spec_fd(), server: v.id },
        ),
        with_accepting(v, listeners).accept_fds.len() == v.accept_fds.len() + listeners.len(),
        with_accepting(v, listeners).accept_fds.take(v.accept_fds.len() as int) == v.accept_fds,
        with_accepting(v, listeners).accept_fds[v.accept_fds.len() + i] == listeners[i].spec_fd(),
        stop_commands(with_accepting(v, listeners).accept_fds)[v.accept_fds.len() + i]
            == LoopCommand::Io(LoopIoCommand::StopServerAccept(listeners[i].spec_fd())),
        stop_commands(fds_of(listeners)).len() == listeners.len(),
        with_accepting(v, listeners).serving == v.serving,
        with_accepting(v, listeners).closed == v.closed,
        listeners[i] matches ServerListener::Tcp(fd) ==> listeners[i].spec_fd() == fd,
        listeners[i] matches ServerListener::Unix(fd) ==> listeners[i].spec_fd() == fd,
{
}

/// A connection that was accepted goes to the loop, for this server, and stays here exactly where
/// TLS needs a handshake first.
pub proof fn law_accepted_connection_goes_to_the_loop(
    v: ServerView,
    l: LoopView,
    t: ThreadView,
    stream: ObjectId,
    route: AcceptRoute,
    l_after: LoopView,
    t_after: ThreadView,
)
    requires
        is_accept_route(v, l, t, stream, route, l_after, t_after),
    ensures
        route is Here <==> v.tls is Some,
        route is Here ==> l_after == l && t_after == t,
        route matches AcceptRoute::Loop(Ok(Sent::Local)) ==> t_after.queue.unwrap()
            == t.queue.unwrap().push(ReadyItem::ServerAccepted { server: v.id, stream }),
        route matches AcceptRoute::Loop(Ok(Sent::Pending { .. }))
            ==> l_after.dispatch.unwrap().pending == l.dispatch.unwrap().pending.push(
            ReadyItem::ServerAccepted { server: v.id, stream },
        ),
        route matches AcceptRoute::Loop(Ok(Sent::Channel)) ==> l_after.sent == l.sent.push(
            LoopCommand::Transport(LoopTransportCommand::ServerAccepted { server: v.id, stream }),
        ),
        route matches AcceptRoute::Loop(Err(error)) ==> error == LoopCoreError::ChannelClosed,
{
}

/// A connection begins only where its arguments about TLS go together.
pub proof fn law_refused_tls_arguments_make_no_connection(given: TlsArguments)
    ensures
        tls_refusal(given) is None <==> tls_arguments_fit(given) is Ok,
        tls_refusal(given) matches Some(error) ==> tls_arguments_fit(given) == Result::<
            (),
            ConnectError,
        >::Err(error),
        tls_refusal(given) is None <==> given.ssl || !(given.server_hostname
            || given.handshake_timeout || given.shutdown_timeout),
{
}

/// The factory makes the protocol before there is a socket, and that protocol comes out with the
/// transport in the end. Then the socket comes from where it was said: the caller's socket or pipe
/// is made non-blocking, a host is resolved, a path gets a socket.
pub proof fn law_protocol_comes_before_the_socket(
    f: FlowView,
    event: FlowEvent,
    protocol: ObjectId,
)
    ensures
        f.phase is Ready && event is Begin ==> flow_step(f, event).1 is CallFactory && flow_step(
            f,
            event,
        ).0.phase is CallingFactory,
        f.phase is CallingFactory ==> {
            let (after, action) = flow_step(f, FlowEvent::Made(protocol));
            &&& after.protocol == protocol
            &&& f.source matches SocketSource::Given(socket) ==> action
                == FlowAction::SetNonblocking(socket)
            &&& f.source matches SocketSource::Pipe(pipe) ==> action == FlowAction::SetNonblocking(
                pipe,
            )
            &&& f.source is Addresses ==> action is Resolve
            &&& f.source is UnixPath ==> action is MakeUnixSocket
        },
        !(f.phase is CallingFactory && event is Made) ==> flow_step(f, event).0.protocol
            == f.protocol,
        flow_step(f, event).0.source == f.source,
        flow_step(f, event).0.security == f.security,
        flow_step(f, event).1 matches FlowAction::Finish { transport, protocol: out } ==> f.phase
            is MakingTransport && event == FlowEvent::Made(transport) && out == f.protocol,
        f.phase is MakingTransport ==> (event matches FlowEvent::Made(transport) ==> flow_step(
            f,
            event,
        ).1 == (FlowAction::Finish { transport, protocol: f.protocol })),
{
}

/// What raises ends the making of a connection and comes out as it was. Two things do not end it: a
/// pipe that cannot be made non-blocking, and an address that does not connect, whose socket is
/// closed.
pub proof fn law_failures_end_the_connection(f: FlowView, raised: ObjectId)
    ensures
        ({
            let (after, action) = flow_step(f, FlowEvent::Failed(raised));
            &&& !(f.phase is Trying) && !(f.phase is Preparing && f.source is Pipe) ==> action
                == FlowAction::Fail(raised) && after.phase is Over
            &&& f.source is Pipe ==> (f.phase matches FlowPhase::Preparing(pipe) ==> action == (
            FlowAction::MakeTransport { socket: pipe, protocol: f.protocol, security: f.security }))
            &&& f.phase is Trying && f.attempts.phase is Building ==> action == FlowAction::Fail(
                raised,
            )
            &&& f.phase is Trying ==> (f.attempts.phase matches AttemptPhase::Connecting(socket)
                ==> action == FlowAction::Close(socket) && after.attempts.last_error == Some(
                raised,
            ) && after.phase is Trying)
        }),
{
}

/// The addresses of a host are tried in their order until a socket connects, which becomes the
/// transport; after the last one what it raised comes out, and without any address that is said.
/// Sockets are bound where the caller gave a local address.
pub proof fn law_addresses_of_a_host_are_tried(f: FlowView, event: FlowEvent)
    ensures
        f.phase is Resolving ==> (event matches FlowEvent::Resolved(addrinfos) ==> {
            let (after, action) = flow_step(f, event);
            let bind = f.source == (SocketSource::Addresses { bind: true });
            &&& addrinfos@.len() == 0 ==> action == FlowAction::Refuse(ConnectError::NoAddress)
            &&& addrinfos@.len() > 0 ==> action == (FlowAction::Build {
                addrinfo: addrinfos@[0],
                bind,
            }) && after.phase is Trying && after.attempts.left == addrinfos@.skip(1)
                && after.attempts.last_error is None
        }),
        f.phase is Trying ==> (f.attempts.phase matches AttemptPhase::Building(addrinfo) ==> (event
            matches FlowEvent::Made(socket) ==> flow_step(f, event).1 == (FlowAction::Connect {
            socket,
            address: addrinfo.address,
        }))),
        f.phase is Trying ==> (f.attempts.phase matches AttemptPhase::Connecting(socket) ==> event
            is Done ==> flow_step(f, event).1 == (FlowAction::MakeTransport {
            socket,
            protocol: f.protocol,
            security: f.security,
        })),
        f.phase is Trying && f.attempts.phase is Next && f.attempts.left.len() > 0 ==> flow_step(
            f,
            event,
        ).1 == (FlowAction::Build { addrinfo: f.attempts.left[0], bind: f.attempts.bind }),
        f.phase is Trying && f.attempts.phase is Next && f.attempts.left.len() == 0 ==> (
        f.attempts.last_error matches Some(error) ==> flow_step(f, event).1 == FlowAction::Fail(
            error,
        )),
{
    if let FlowEvent::Resolved(addrinfos) = event {
        assert(addrinfos@.len() > 0 ==> addrinfos@.drop_first() =~= addrinfos@.skip(1));
    }
}

/// A Unix connection needs its path: without one it is refused, with one the socket is connected to
/// it, and then becomes the transport.
pub proof fn law_unix_connection_needs_a_path(f: FlowView, socket: ObjectId)
    requires
        f.phase is MakingUnixSocket,
    ensures
        f.source matches SocketSource::UnixPath(Some(path)) ==> {
            let (after, action) = flow_step(f, FlowEvent::Made(socket));
            &&& action == (FlowAction::Connect { socket, address: path })
            &&& flow_step(after, FlowEvent::Done).1 == (FlowAction::MakeTransport {
                socket,
                protocol: f.protocol,
                security: f.security,
            })
        },
        f.source == SocketSource::UnixPath(None) ==> flow_step(f, FlowEvent::Made(socket)).1
            == FlowAction::Refuse(ConnectError::PathRequired),
{
}

/// Making a connection begins with what was asked for and nothing done.
pub proof fn law_connection_begins_afresh(source: SocketSource, security: Security)
    ensures
        fresh_flow(source, security).source == source,
        fresh_flow(source, security).security == security,
        fresh_flow(source, security).phase is Ready,
        fresh_flow(source, security).attempts.left.len() == 0,
        fresh_flow(source, security).attempts.last_error is None,
{
}

/// Making a server begins with its socket, or with its addresses, or with its path, which has to be
/// there.
pub proof fn law_server_begins_with_its_source(source: ServerSource, start_serving: bool)
    ensures
        ({
            let (after, action) = server_step(
                fresh_server_flow(source, start_serving),
                ServerEvent::Begin,
            );
            &&& source matches ServerSource::Given(socket) ==> action
                == ServerAction::SetNonblocking(socket) && {
                let (ready, next) = server_step(after, ServerEvent::Done);
                next is MakeServer && ready.sockets == seq![socket]
            }
            &&& source is Tcp ==> action is Resolve
            &&& source matches ServerSource::Unix { path, .. } ==> (path is Some <==> action
                is MakeUnixSocket)
            &&& source matches ServerSource::Unix { path, .. } ==> (path is None <==> action
                == ServerAction::Refuse(ConnectError::PathRequired))
            &&& after.start_serving == start_serving
            &&& after.sockets.len() == 0
        }),
{
    if let ServerSource::Given(socket) = source {
        assert(Seq::<ObjectId>::empty().push(socket) =~= seq![socket]);
    }
}

/// A socket that was made is set up step by step, in the order of its plan, for its own address, and
/// joins the server's sockets when all is done.
pub proof fn law_sockets_are_set_up_in_order(f: ServerFlowView, event: ServerEvent)
    ensures
        f.phase matches ServerPhase::Building(address) ==> (event matches ServerEvent::Made(socket)
            ==> socket_steps(f.source).len() > 0 ==> {
            let (after, action) = server_step(f, event);
            &&& action == (ServerAction::SetUp { socket, address, step: socket_steps(f.source)[0] })
            &&& after.steps == socket_steps(f.source).skip(1)
            &&& after.sockets == f.sockets
        }),
        f.phase matches ServerPhase::Setting { socket, address } ==> event is Done ==> {
            let (after, action) = server_step(f, event);
            &&& f.steps.len() > 0 ==> action == (ServerAction::SetUp {
                socket,
                address,
                step: f.steps[0],
            }) && after.steps == f.steps.skip(1) && after.sockets == f.sockets
            &&& f.steps.len() == 0 ==> after.sockets == f.sockets.push(socket) && (f.left.len() == 0
                <==> action is MakeServer)
            &&& action is MakeServer ==> after.phase is MakingServer
            &&& f.steps.len() == 0 && f.left.len() > 0 ==> action == ServerAction::Build(f.left[0])
                && after.left == f.left.skip(1)
        },
        f.source matches ServerSource::Tcp { options, has_reuse_port } ==> socket_steps(f.source)
            == server_socket_plan(options, has_reuse_port),
        f.source matches ServerSource::Unix { path, backlog } ==> socket_steps(f.source)
            == unix_socket_plan(backlog),
{
    assert(f.steps.len() > 0 ==> f.steps.drop_first() =~= f.steps.skip(1));
    assert(f.left.len() > 0 ==> f.left.drop_first() =~= f.left.skip(1));
    let steps = socket_steps(f.source);
    assert(steps.len() > 0 ==> steps.drop_first() =~= steps.skip(1));
}

/// A server that is made starts to serve exactly where that was asked for, and then comes out.
/// What raises ends it and comes out as it was.
pub proof fn law_server_serves_where_asked(f: ServerFlowView, server: ObjectId, raised: ObjectId)
    ensures
        f.phase is MakingServer ==> {
            let (after, action) = server_step(f, ServerEvent::Made(server));
            &&& f.start_serving ==> action == ServerAction::StartServing(server) && server_step(
                after,
                ServerEvent::Done,
            ).1 == ServerAction::Finish(server)
            &&& !f.start_serving ==> action == ServerAction::Finish(server)
        },
        server_step(f, ServerEvent::Failed(raised)).1 == ServerAction::Fail(raised),
        server_step(f, ServerEvent::Failed(raised)).0.phase is Over,
{
}

} // verus!
