//! A server: its listeners, the connections that it accepted, and its end.

use vstd::prelude::*;
use crate::loop_commands::{
    ready_item_of, LoopCommand, LoopIoCommand, LoopTransportCommand, RawFd,
};
use crate::loop_core::{is_sent, LoopCore, LoopCoreError, LoopView, Sent, ThreadReady, ThreadView};
use crate::objects::ObjectId;
use crate::stream_transport::TransportSpawnContext;
use crate::text::{flag_text, push_flag};

verus! {

/// A socket that listens.
#[derive(Clone, Copy, PartialEq, Eq, Debug, Structural)]
pub enum ServerListener {
    Tcp(RawFd),
    Unix(RawFd),
}

/// A connection that was accepted.
#[derive(Clone, Copy, PartialEq, Eq, Debug, Structural)]
pub enum AcceptedStream {
    Tcp(ObjectId),
    Unix(ObjectId),
}

impl ServerListener {
    pub open spec fn spec_fd(self) -> RawFd {
        match self {
            ServerListener::Tcp(fd) => fd,
            ServerListener::Unix(fd) => fd,
        }
    }

    pub fn fd(&self) -> (fd: RawFd)
        ensures
            fd == self.spec_fd(),
    {
        match *self {
            ServerListener::Tcp(fd) => fd,
            ServerListener::Unix(fd) => fd,
        }
    }
}

pub fn tcp_server_listener(fd: RawFd) -> (listener: ServerListener)
    ensures
        listener == ServerListener::Tcp(fd),
{
    ServerListener::Tcp(fd)
}

pub fn unix_server_listener(fd: RawFd) -> (listener: ServerListener)
    ensures
        listener == ServerListener::Unix(fd),
{
    ServerListener::Unix(fd)
}

/// What a server is made from.
pub struct ServerCreateParams {
    pub loop_core: ObjectId,
    pub loop_obj: ObjectId,
    pub protocol_factory: ObjectId,
    pub context: ObjectId,
    pub context_needs_run: bool,
    pub sockets: Vec<ObjectId>,
    pub listeners: Vec<ServerListener>,
    pub cleanup_path: Option<String>,
    pub tls: Option<ObjectId>,
}

impl ServerCreateParams {
    /// The protocol of the spawn context is the factory of the server's protocols.
    pub fn new(
        spawn_context: TransportSpawnContext,
        sockets: Vec<ObjectId>,
        listeners: Vec<ServerListener>,
    ) -> (params: Self)
        ensures
            params == plain_params(spawn_context, sockets, listeners),
    {
        ServerCreateParams {
            loop_core: spawn_context.loop_core,
            loop_obj: spawn_context.loop_obj,
            protocol_factory: spawn_context.protocol,
            context: spawn_context.context,
            context_needs_run: spawn_context.context_needs_run,
            sockets,
            listeners,
            cleanup_path: None,
            tls: None,
        }
    }

    pub fn with_cleanup_path(self, cleanup_path: Option<String>) -> (params: Self)
        ensures
            params == (ServerCreateParams { cleanup_path, ..self }),
    {
        let mut params = self;
        params.cleanup_path = cleanup_path;
        params
    }

    pub fn with_tls(self, tls: Option<ObjectId>) -> (params: Self)
        ensures
            params == (ServerCreateParams { tls, ..self }),
    {
        let mut params = self;
        params.tls = tls;
        params
    }
}

/// The model of a server.
#[verifier::ext_equal]
pub struct ServerView {
    pub id: ObjectId,
    pub loop_core: ObjectId,
    pub loop_obj: ObjectId,
    pub protocol_factory: ObjectId,
    pub context: ObjectId,
    pub context_needs_run: bool,
    pub sockets: Seq<ObjectId>,
    pub closed: bool,
    pub serving: bool,
    pub listeners: Seq<ServerListener>,
    /// The descriptors that the runtime thread accepts from.
    pub accept_fds: Seq<RawFd>,
    pub active_connections: usize,
    pub cleanup_path: Option<String>,
    pub tls: Option<ObjectId>,
}

/// How accepting begins.
pub enum AcceptPlan {
    /// The server is closed, or serves already.
    Nothing,
    /// A thread for each listener: with TLS, accepting takes a handshake.
    Threads(Vec<ServerListener>),
    /// The runtime thread accepts. Hand the listeners to `watch_listeners`.
    Watch(Vec<ServerListener>),
}

/// What is left to do when a server was closed: close the sockets, end the accept threads, hand the
/// descriptors to `unwatch_listeners`, remove the path, wake those who wait.
pub struct ServerClosing {
    pub accept_fds: Vec<RawFd>,
}

/// What becomes of an accepted connection.
pub enum AcceptRoute {
    /// A transport is made here: with TLS that takes a handshake.
    Here,
    /// The loop makes it, unless it could not be told.
    Loop(Result<Sent, LoopCoreError>),
}

pub struct ServerCore {
    id: ObjectId,
    loop_core: ObjectId,
    loop_obj: ObjectId,
    protocol_factory: ObjectId,
    context: ObjectId,
    context_needs_run: bool,
    sockets: Vec<ObjectId>,
    closed: bool,
    serving: bool,
    listeners: Vec<ServerListener>,
    accept_fds: Vec<RawFd>,
    active_connections: usize,
    cleanup_path: Option<String>,
    tls: Option<ObjectId>,
}

impl View for ServerCore {
    type V = ServerView;

    closed spec fn view(&self) -> ServerView {
        ServerView {
            id: self.id,
            loop_core: self.loop_core,
            loop_obj: self.loop_obj,
            protocol_factory: self.protocol_factory,
            context: self.context,
            context_needs_run: self.context_needs_run,
            sockets: self.sockets@,
            closed: self.closed,
            serving: self.serving,
            listeners: self.listeners@,
            accept_fds: self.accept_fds@,
            active_connections: self.active_connections,
            cleanup_path: self.cleanup_path,
            tls: self.tls,
        }
    }
}

/// What a server without TLS is made from, whose path is not cleaned up.
pub open spec fn plain_params(
    spawn_context: TransportSpawnContext,
    sockets: Vec<ObjectId>,
    listeners: Vec<ServerListener>,
) -> ServerCreateParams {
    ServerCreateParams {
        loop_core: spawn_context.loop_core,
        loop_obj: spawn_context.loop_obj,
        protocol_factory: spawn_context.protocol,
        context: spawn_context.context,
        context_needs_run: spawn_context.context_needs_run,
        sockets,
        listeners,
        cleanup_path: None,
        tls: None,
    }
}

/// A server that neither serves nor is closed.
pub open spec fn fresh_server(id: ObjectId, params: ServerCreateParams) -> ServerView {
    ServerView {
        id,
        loop_core: params.loop_core,
        loop_obj: params.loop_obj,
        protocol_factory: params.protocol_factory,
        context: params.context,
        context_needs_run: params.context_needs_run,
        sockets: params.sockets@,
        closed: false,
        serving: false,
        listeners: params.listeners@,
        accept_fds: Seq::empty(),
        active_connections: 0,
        cleanup_path: params.cleanup_path,
        tls: params.tls,
    }
}

/// The server accepts connections.
pub open spec fn serves(v: ServerView) -> bool {
    v.serving && !v.closed
}

/// The server is closed, and so are its connections.
pub open spec fn is_over(v: ServerView) -> bool {
    v.closed && v.active_connections == 0
}

/// What closing a server comes to.
pub open spec fn is_server_close(
    v: ServerView,
    closing: Option<ServerClosing>,
    v_after: ServerView,
) -> bool {
    match closing {
        Some(closing) => !v.closed && closing.accept_fds@ == v.accept_fds && v_after
            == server_closed(v),
        None => v.closed && v_after == v,
    }
}

/// A server that gave its listeners away to be accepted from.
pub open spec fn accepting(v: ServerView) -> ServerView {
    ServerView { serving: true, listeners: Seq::empty(), ..v }
}

/// What beginning to accept comes to.
pub open spec fn is_accept_start(v: ServerView, plan: AcceptPlan, v_after: ServerView) -> bool {
    match plan {
        AcceptPlan::Nothing => (v.closed || v.serving) && v_after == v,
        AcceptPlan::Threads(listeners) => !v.closed && !v.serving && v.tls is Some && listeners@
            == v.listeners && v_after == accepting(v),
        AcceptPlan::Watch(listeners) => !v.closed && !v.serving && v.tls is None && listeners@
            == v.listeners && v_after == accepting(v),
    }
}

/// The runtime thread accepts from these listeners too.
pub open spec fn with_accepting(v: ServerView, listeners: Seq<ServerListener>) -> ServerView {
    ServerView { accept_fds: v.accept_fds + fds_of(listeners), ..v }
}

/// What becomes of an accepted connection.
pub open spec fn is_accept_route(
    v: ServerView,
    l: LoopView,
    t: ThreadView,
    stream: ObjectId,
    route: AcceptRoute,
    l_after: LoopView,
    t_after: ThreadView,
) -> bool {
    match route {
        AcceptRoute::Here => v.tls is Some && l_after == l && t_after == t,
        AcceptRoute::Loop(sent) => v.tls is None && is_sent(
            l,
            t,
            LoopCommand::Transport(LoopTransportCommand::ServerAccepted { server: v.id, stream }),
            sent,
            l_after,
            t_after,
        ),
    }
}

/// What the transport of an accepted connection is made from.
pub open spec fn accepted_context(v: ServerView, protocol: ObjectId) -> TransportSpawnContext {
    TransportSpawnContext {
        loop_core: v.loop_core,
        loop_obj: v.loop_obj,
        protocol,
        context: v.context,
        context_needs_run: v.context_needs_run,
    }
}

/// The server after its end.
pub open spec fn server_closed(v: ServerView) -> ServerView {
    ServerView {
        closed: true,
        serving: false,
        listeners: Seq::empty(),
        accept_fds: Seq::empty(),
        ..v
    }
}

impl ServerCore {
    pub fn is_closed(&self) -> (closed: bool)
        ensures
            closed == self@.closed,
    {
        self.closed
    }

    pub fn is_serving(&self) -> (serving: bool)
        ensures
            serving == serves(self@),
    {
        self.serving && !self.closed
    }

    pub fn has_tls(&self) -> (has: bool)
        ensures
            has == self@.tls is Some,
    {
        self.tls.is_some()
    }

    pub fn loop_obj(&self) -> (loop_obj: ObjectId)
        ensures
            loop_obj == self@.loop_obj,
    {
        self.loop_obj
    }

    pub fn sockets(&self) -> (sockets: &Vec<ObjectId>)
        ensures
            sockets@ == self@.sockets,
    {
        &self.sockets
    }

    pub fn cleanup_path(&self) -> (path: &Option<String>)
        ensures
            *path == self@.cleanup_path,
    {
        &self.cleanup_path
    }

    pub fn connection_opened(&mut self)
        ensures
            final(self)@ == (ServerView {
                active_connections: opened(old(self)@.active_connections),
                ..old(self)@
            }),
    {
        self.active_connections = self.active_connections.wrapping_add(1);
    }

    /// Those who wait for the end have to be woken.
    pub fn connection_lost(&mut self)
        ensures
            final(self)@ == (ServerView {
                active_connections: lost(old(self)@.active_connections),
                ..old(self)@
            }),
    {
        self.active_connections = self.active_connections.wrapping_sub(1);
    }

    /// Waiting for the end is over: the server is closed, and so are its connections.
    pub fn wait_closed(&self) -> (over: bool)
        ensures
            over == is_over(self@),
    {
        self.closed && self.active_connections == 0
    }

    /// Closes the server. One that was closed before is left alone.
    pub fn close(&mut self) -> (closing: Option<ServerClosing>)
        ensures
            is_server_close(old(self)@, closing, final(self)@),
    {
        if self.closed {
            return None;
        }
        self.closed = true;
        self.serving = false;
        self.listeners.clear();
        let mut accept_fds: Vec<RawFd> = Vec::new();
        core::mem::swap(&mut self.accept_fds, &mut accept_fds);
        Some(ServerClosing { accept_fds })
    }

    /// Begins to accept. That is done once.
    pub fn spawn_accept_tasks(&mut self) -> (plan: AcceptPlan)
        ensures
            is_accept_start(old(self)@, plan, final(self)@),
    {
        if self.closed || self.serving {
            return AcceptPlan::Nothing;
        }
        self.serving = true;
        let mut listeners: Vec<ServerListener> = Vec::new();
        core::mem::swap(&mut self.listeners, &mut listeners);
        if self.tls.is_some() {
            AcceptPlan::Threads(listeners)
        } else {
            AcceptPlan::Watch(listeners)
        }
    }

    /// Has the runtime thread accept from the listeners, and says what came of each command. A
    /// listener that it could not be told of stays in the list all the same.
    pub fn watch_listeners(
        &mut self,
        loop_core: &mut LoopCore,
        thread: &mut ThreadReady,
        listeners: &Vec<ServerListener>,
    ) -> (told: Vec<Result<Sent, LoopCoreError>>)
        ensures
            final(self)@ == with_accepting(old(self)@, listeners@),
            final(thread)@ == old(thread)@,
            all_sent(
                old(loop_core)@,
                old(thread)@,
                start_commands(old(self)@.id, listeners@),
                told@,
                final(loop_core)@,
            ),
    {
        let mut i: usize = 0;
        assert(listeners@.take(0) =~= Seq::empty());
        assert(self@ =~= (ServerView {
            accept_fds: old(self)@.accept_fds + fds_of(listeners@.take(0)),
            ..old(self)@
        }));
        assert(start_commands(self@.id, listeners@.take(0)) =~= Seq::empty());
        let mut told: Vec<Result<Sent, LoopCoreError>> = Vec::new();
        while i < listeners.len()
            invariant
                i <= listeners@.len(),
                self@ == (ServerView {
                    accept_fds: old(self)@.accept_fds + fds_of(listeners@.take(i as int)),
                    ..old(self)@
                }),
                thread@ == old(thread)@,
                all_sent(
                    old(loop_core)@,
                    old(thread)@,
                    start_commands(old(self)@.id, listeners@.take(i as int)),
                    told@,
                    loop_core@,
                ),
            decreases listeners@.len() - i,
        {
            let fd: RawFd = listeners[i].fd();
            let ghost mid = loop_core@;
            self.accept_fds.push(fd);
            let command = LoopCommand::Io(
                LoopIoCommand::StartServerAccept { fd, server: self.id },
            );
            let ghost answers = told@;
            let sent = loop_core.send_command(thread, command);
            told.push(sent);
            proof {
                let before = start_commands(old(self)@.id, listeners@.take(i as int));
                assert(listeners@.take(i + 1).drop_last() =~= listeners@.take(i as int));
                assert(start_commands(old(self)@.id, listeners@.take(i + 1)) =~= before.push(
                    command,
                ));
                lemma_one_more_sent(
                    old(loop_core)@,
                    old(thread)@,
                    before,
                    answers,
                    mid,
                    command,
                    sent,
                    loop_core@,
                );
                assert(fds_of(listeners@.take(i + 1)) =~= fds_of(listeners@.take(i as int)).push(
                    fd,
                ));
                assert(self@.accept_fds =~= old(self)@.accept_fds + fds_of(listeners@.take(i + 1)));
            }
            i += 1;
        }
        assert(listeners@.take(i as int) =~= listeners@);
        told
    }

    /// What becomes of a connection that was accepted.
    pub fn schedule_accepted_transport(
        &self,
        loop_core: &mut LoopCore,
        thread: &mut ThreadReady,
        stream: ObjectId,
    ) -> (route: AcceptRoute)
        ensures
            is_accept_route(
                self@,
                old(loop_core)@,
                old(thread)@,
                stream,
                route,
                final(loop_core)@,
                final(thread)@,
            ),
    {
        if self.tls.is_some() {
            return AcceptRoute::Here;
        }
        AcceptRoute::Loop(
            loop_core.send_command(
                thread,
                LoopCommand::Transport(
                    LoopTransportCommand::ServerAccepted { server: self.id, stream },
                ),
            ),
        )
    }

    /// What the transport of an accepted connection is made from.
    pub fn server_spawn_context(&self, protocol: ObjectId) -> (spawn_context: TransportSpawnContext)
        ensures
            spawn_context == accepted_context(self@, protocol),
    {
        TransportSpawnContext::new(
            self.loop_core,
            self.loop_obj,
            protocol,
            self.context,
            self.context_needs_run,
        )
    }
}

/// Has the runtime thread stop accepting, and says what came of each command. That it could not be
/// told is no error.
pub fn unwatch_listeners(loop_core: &mut LoopCore, thread: &mut ThreadReady, fds: &Vec<RawFd>) -> (told:
    Vec<Result<Sent, LoopCoreError>>)
    ensures
        final(thread)@ == old(thread)@,
        all_sent(old(loop_core)@, old(thread)@, stop_commands(fds@), told@, final(loop_core)@),
{
    let mut i: usize = 0;
    assert(stop_commands(fds@.take(0)) =~= Seq::empty());
    let mut told: Vec<Result<Sent, LoopCoreError>> = Vec::new();
    while i < fds.len()
        invariant
            i <= fds@.len(),
            thread@ == old(thread)@,
            all_sent(
                old(loop_core)@,
                old(thread)@,
                stop_commands(fds@.take(i as int)),
                told@,
                loop_core@,
            ),
        decreases fds@.len() - i,
    {
        let ghost mid = loop_core@;
        let command = LoopCommand::Io(LoopIoCommand::StopServerAccept(fds[i]));
        let ghost answers = told@;
        let sent = loop_core.send_command(thread, command);
        told.push(sent);
        proof {
            let before = stop_commands(fds@.take(i as int));
            assert(stop_commands(fds@.take(i + 1)) =~= before.push(command));
            lemma_one_more_sent(
                old(loop_core)@,
                old(thread)@,
                before,
                answers,
                mid,
                command,
                sent,
                loop_core@,
            );
        }
        i += 1;
    }
    assert(fds@.take(i as int) =~= fds@);
    told
}

/// The descriptors of the listeners.
pub open spec fn fds_of(listeners: Seq<ServerListener>) -> Seq<RawFd> {
    listeners.map_values(|listener: ServerListener| listener.spec_fd())
}

/// The commands that have the runtime thread accept.
pub open spec fn start_commands(server: ObjectId, listeners: Seq<ServerListener>) -> Seq<LoopCommand> {
    listeners.map_values(
        |listener: ServerListener|
            LoopCommand::Io(LoopIoCommand::StartServerAccept { fd: listener.spec_fd(), server }),
    )
}

/// The commands that have it stop.
pub open spec fn stop_commands(fds: Seq<RawFd>) -> Seq<LoopCommand> {
    fds.map_values(|fd: RawFd| LoopCommand::Io(LoopIoCommand::StopServerAccept(fd)))
}

/// The commands were sent one after the other, each with the answer in `told`, and a failure
/// stopped none of the later ones.
pub open spec fn all_sent(
    l: LoopView,
    t: ThreadView,
    commands: Seq<LoopCommand>,
    told: Seq<Result<Sent, LoopCoreError>>,
    l_after: LoopView,
) -> bool
    decreases commands.len(),
{
    &&& told.len() == commands.len()
    &&& if commands.len() == 0 {
        l_after == l
    } else {
        exists|mid: LoopView|
            all_sent(l, t, commands.drop_last(), told.drop_last(), mid) && #[trigger] is_sent(
                mid,
                t,
                commands.last(),
                told.last(),
                l_after,
                t,
            )
    }
}

proof fn lemma_one_more_sent(
    l: LoopView,
    t: ThreadView,
    commands: Seq<LoopCommand>,
    told: Seq<Result<Sent, LoopCoreError>>,
    mid: LoopView,
    command: LoopCommand,
    sent: Result<Sent, LoopCoreError>,
    l_after: LoopView,
)
    requires
        all_sent(l, t, commands, told, mid),
        is_sent(mid, t, command, sent, l_after, t),
    ensures
        all_sent(l, t, commands.push(command), told.push(sent), l_after),
{
    let more = commands.push(command);
    let answers = told.push(sent);
    assert(more.drop_last() =~= commands);
    assert(answers.drop_last() =~= told);
    assert(is_sent(mid, t, more.last(), answers.last(), l_after, t));
}

/// Commands for the runtime thread get through in order, up to the first that comes back: those
/// that were answered well are in the channel, and no later one is. Here `n` of them were.
pub proof fn law_commands_get_through_in_order(
    l: LoopView,
    t: ThreadView,
    commands: Seq<LoopCommand>,
    told: Seq<Result<Sent, LoopCoreError>>,
    l_after: LoopView,
) -> (n: int)
    requires
        all_sent(l, t, commands, told, l_after),
        forall|i: int| 0 <= i < commands.len() ==> ready_item_of(#[trigger] commands[i]) is None,
    ensures
        0 <= n <= commands.len(),
        forall|i: int| 0 <= i < told.len() ==> (#[trigger] told[i] is Ok <==> i < n),
        l_after.sent == l.sent + commands.take(n),
        n < commands.len() ==> l_after.unheard,
        n == commands.len() ==> l_after.unheard == l.unheard,
    decreases commands.len(),
{
    if commands.len() == 0 {
        assert(l_after.sent =~= l.sent + commands.take(0));
        0
    } else {
        let front = commands.drop_last();
        let answers = told.drop_last();
        let mid = choose|mid: LoopView|
            all_sent(l, t, front, answers, mid) && #[trigger] is_sent(
                mid,
                t,
                commands.last(),
                told.last(),
                l_after,
                t,
            );
        assert forall|i: int| 0 <= i < front.len() implies ready_item_of(#[trigger] front[i])
            is None by {
            assert(front[i] == commands[i]);
        }
        let n = law_commands_get_through_in_order(l, t, front, answers, mid);
        let last = commands.len() - 1;
        assert(ready_item_of(commands[last]) is None);
        assert forall|i: int| 0 <= i < last implies (#[trigger] told[i] is Ok <==> i < n) by {
            assert(answers[i] == told[i]);
        }
        if told[last] is Ok {
            assert(n == last);
            assert(l_after.sent =~= l.sent + commands.take(last + 1));
            last + 1
        } else {
            assert(l_after.sent =~= l.sent + commands.take(n));
            n
        }
    }
}

pub struct PyServer {
    pub core: ServerCore,
}

/// A server that neither serves nor is closed.
pub fn create_server(id: ObjectId, params: ServerCreateParams) -> (server: PyServer)
    ensures
        server.core@ == fresh_server(id, params),
{
    PyServer {
        core: ServerCore {
            id,
            loop_core: params.loop_core,
            loop_obj: params.loop_obj,
            protocol_factory: params.protocol_factory,
            context: params.context,
            context_needs_run: params.context_needs_run,
            sockets: params.sockets,
            closed: false,
            serving: false,
            listeners: params.listeners,
            accept_fds: Vec::new(),
            active_connections: 0,
            cleanup_path: params.cleanup_path,
            tls: params.tls,
        },
    }
}

impl PyServer {
    /// Serving forever is over when the server is closed.
    pub fn serve_forever(&self) -> (over: bool)
        ensures
            over == self.core@.closed,
    {
        self.core.is_closed()
    }

    pub fn repr(&self) -> (text: String)
        ensures
            text@ == "<Server serving="@ + flag_text(serves(self.core@))
                + " closed="@ + flag_text(self.core@.closed) + ">"@,
    {
        let mut text = "<Server serving=".to_owned();
        push_flag(&mut text, self.core.is_serving());
        text.append(" closed=");
        push_flag(&mut text, self.core.is_closed());
        text.append(">");
        text
    }
}

/// The number of connections after one more was opened. It begins again after the largest number.
pub open spec fn opened(n: usize) -> usize {
    if n == usize::MAX {
        0
    } else {
        (n + 1) as usize
    }
}

/// The number of connections after one was lost.
pub open spec fn lost(n: usize) -> usize {
    if n == 0 {
        usize::MAX
    } else {
        (n - 1) as usize
    }
}

/// The loss of a connection undoes its opening, so a closed server ends when every connection that
/// was opened is lost.
pub proof fn law_lost_undoes_opened(n: usize)
    ensures
        lost(opened(n)) == n,
{
}

/// A closed server serves no more, and holds nothing that could be accepted from.
pub proof fn law_closed_server_is_done(v: ServerView)
    ensures
        !(server_closed(v).serving),
        server_closed(v).listeners.len() == 0,
        server_closed(v).accept_fds.len() == 0,
        server_closed(server_closed(v)) == server_closed(v),
{
}

} // verus!
