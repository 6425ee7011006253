//! Making a server from its arguments, with its listening sockets.

use vstd::prelude::*;
use crate::connect::{
    build_tcp_server_sockets, build_unix_server_socket, check_tls_arguments, server_socket_plan,
    unix_socket_plan, ConnectError, ResolvedStreamAddrinfo, ServerSocketStep,
    TcpServerSocketOptions, TlsArguments,
};
use crate::connection_flow::tls_refusal;
use crate::objects::ObjectId;

verus! {

/// Where the sockets of a server come from.
#[derive(Clone, Copy, PartialEq, Eq, Debug, Structural)]
pub enum ServerSource {
    /// The caller has one. It is made non-blocking.
    Given(ObjectId),
    /// One socket for each address of a host. `has_reuse_port` says that this machine can share
    /// ports.
    Tcp { options: TcpServerSocketOptions, has_reuse_port: bool },
    /// A path in the file system, which has to be given.
    Unix { path: Option<ObjectId>, backlog: i32 },
}

/// Where making a server stands.
#[derive(Clone, Copy, PartialEq, Eq, Debug, Structural)]
pub enum ServerPhase {
    Ready,
    Preparing(ObjectId),
    Resolving,
    /// A socket for this address is being made.
    Building(ObjectId),
    /// This socket is being set up for this address.
    Setting { socket: ObjectId, address: ObjectId },
    MakingServer,
    Starting(ObjectId),
    Over,
}

/// What came of the action before.
pub enum ServerEvent {
    Begin,
    /// The action made this: a socket or the server.
    Made(ObjectId),
    Done,
    Resolved(Vec<ResolvedStreamAddrinfo>),
    Failed(ObjectId),
}

/// What making a server does next.
#[derive(Clone, Copy, PartialEq, Eq, Debug, Structural)]
pub enum ServerAction {
    SetNonblocking(ObjectId),
    Resolve,
    Build(ResolvedStreamAddrinfo),
    MakeUnixSocket,
    SetUp { socket: ObjectId, address: ObjectId, step: ServerSocketStep },
    /// Make the server of the sockets that are there.
    MakeServer,
    StartServing(ObjectId),
    Finish(ObjectId),
    Fail(ObjectId),
    Refuse(ConnectError),
    /// The event did not answer what was asked for.
    GiveUp,
}

/// The model of making a server.
#[verifier::ext_equal]
pub struct ServerFlowView {
    pub source: ServerSource,
    pub start_serving: bool,
    pub phase: ServerPhase,
    /// The addresses that have no socket yet.
    pub left: Seq<ResolvedStreamAddrinfo>,
    /// What is still to be done to the socket that is being set up.
    pub steps: Seq<ServerSocketStep>,
    /// The sockets that are there.
    pub sockets: Seq<ObjectId>,
}

/// What each socket of the server needs.
pub open spec fn socket_steps(source: ServerSource) -> Seq<ServerSocketStep> {
    match source {
        ServerSource::Given(_) => Seq::empty(),
        ServerSource::Tcp { options, has_reuse_port } => server_socket_plan(
            options,
            has_reuse_port,
        ),
        ServerSource::Unix { backlog, .. } => unix_socket_plan(backlog),
    }
}

/// The next address, or the server where every address has its socket.
pub open spec fn next_socket(f: ServerFlowView) -> (ServerFlowView, ServerAction) {
    if f.left.len() == 0 {
        (ServerFlowView { phase: ServerPhase::MakingServer, ..f }, ServerAction::MakeServer)
    } else {
        (
            ServerFlowView {
                left: f.left.drop_first(),
                phase: ServerPhase::Building(f.left[0].address),
                ..f
            },
            ServerAction::Build(f.left[0]),
        )
    }
}

/// The next thing to do to a socket, or the next socket where all is done.
pub open spec fn next_setting(f: ServerFlowView, socket: ObjectId, address: ObjectId) -> (
    ServerFlowView,
    ServerAction,
) {
    if f.steps.len() == 0 {
        next_socket(ServerFlowView { sockets: f.sockets.push(socket), ..f })
    } else {
        (
            ServerFlowView {
                steps: f.steps.drop_first(),
                phase: ServerPhase::Setting { socket, address },
                ..f
            },
            ServerAction::SetUp { socket, address, step: f.steps[0] },
        )
    }
}

/// One step of making a server. Whatever raises ends it.
pub open spec fn server_step(f: ServerFlowView, event: ServerEvent) -> (
    ServerFlowView,
    ServerAction,
) {
    let over = ServerFlowView { phase: ServerPhase::Over, ..f };
    match (f.phase, event) {
        (_, ServerEvent::Failed(raised)) => (over, ServerAction::Fail(raised)),
        (ServerPhase::Ready, ServerEvent::Begin) => match f.source {
            ServerSource::Given(socket) => (
                ServerFlowView { phase: ServerPhase::Preparing(socket), ..f },
                ServerAction::SetNonblocking(socket),
            ),
            ServerSource::Tcp { .. } => (
                ServerFlowView { phase: ServerPhase::Resolving, ..f },
                ServerAction::Resolve,
            ),
            ServerSource::Unix { path: Some(path), .. } => (
                ServerFlowView { phase: ServerPhase::Building(path), ..f },
                ServerAction::MakeUnixSocket,
            ),
            ServerSource::Unix { path: None, .. } => (
                over,
                ServerAction::Refuse(ConnectError::PathRequired),
            ),
        },
        (ServerPhase::Preparing(socket), ServerEvent::Done) => next_socket(
            ServerFlowView { sockets: f.sockets.push(socket), ..f },
        ),
        (ServerPhase::Resolving, ServerEvent::Resolved(addrinfos)) => next_socket(
            ServerFlowView { left: addrinfos@, ..f },
        ),
        (ServerPhase::Building(address), ServerEvent::Made(socket)) => next_setting(
            ServerFlowView { steps: socket_steps(f.source), ..f },
            socket,
            address,
        ),
        (ServerPhase::Setting { socket, address }, ServerEvent::Done) => next_setting(
            f,
            socket,
            address,
        ),
        (ServerPhase::MakingServer, ServerEvent::Made(server)) => if f.start_serving {
            (
                ServerFlowView { phase: ServerPhase::Starting(server), ..f },
                ServerAction::StartServing(server),
            )
        } else {
            (over, ServerAction::Finish(server))
        },
        (ServerPhase::Starting(server), ServerEvent::Done) => (over, ServerAction::Finish(server)),
        _ => (over, ServerAction::GiveUp),
    }
}

/// Makes a server.
pub struct ServerFlow {
    source: ServerSource,
    start_serving: bool,
    phase: ServerPhase,
    addrinfos: Vec<ResolvedStreamAddrinfo>,
    next_addrinfo: usize,
    steps: Vec<ServerSocketStep>,
    next_step: usize,
    sockets: Vec<ObjectId>,
}

impl View for ServerFlow {
    type V = ServerFlowView;

    closed spec fn view(&self) -> ServerFlowView {
        ServerFlowView {
            source: self.source,
            start_serving: self.start_serving,
            phase: self.phase,
            left: self.addrinfos@.skip(self.next_addrinfo as int),
            steps: self.steps@.skip(self.next_step as int),
            sockets: self.sockets@,
        }
    }
}

impl ServerFlow {
    pub closed spec fn wf(&self) -> bool {
        self.next_addrinfo <= self.addrinfos@.len() && self.next_step <= self.steps@.len()
    }

    /// A server, unless its arguments about TLS contradict each other.
    pub fn new(source: ServerSource, given: TlsArguments, start_serving: bool) -> (made: Result<
        Self,
        ConnectError,
    >)
        ensures
            match made {
                Ok(flow) => tls_refusal(given) is None && flow.wf() && flow@ == fresh_server_flow(
                    source,
                    start_serving,
                ),
                Err(error) => tls_refusal(given) == Some(error),
            },
    {
        if let Err(error) = check_tls_arguments(given) {
            return Err(error);
        }
        let flow = ServerFlow {
            source,
            start_serving,
            phase: ServerPhase::Ready,
            addrinfos: Vec::new(),
            next_addrinfo: 0,
            steps: Vec::new(),
            next_step: 0,
            sockets: Vec::new(),
        };
        assert(flow@ =~= fresh_server_flow(source, start_serving));
        Ok(flow)
    }

    /// The sockets that are there.
    pub fn sockets(&self) -> (sockets: &Vec<ObjectId>)
        ensures
            sockets@ == self@.sockets,
    {
        &self.sockets
    }

    fn next_socket(&mut self) -> (action: ServerAction)
        requires
            old(self).wf(),
        ensures
            final(self).wf(),
            (final(self)@, action) == next_socket(old(self)@),
    {
        if self.next_addrinfo >= self.addrinfos.len() {
            self.phase = ServerPhase::MakingServer;
            return ServerAction::MakeServer;
        }
        let addrinfo = self.addrinfos[self.next_addrinfo];
        self.next_addrinfo += 1;
        self.phase = ServerPhase::Building(addrinfo.address);
        assert(self@.left =~= old(self)@.left.drop_first());
        ServerAction::Build(addrinfo)
    }

    fn next_setting(&mut self, socket: ObjectId, address: ObjectId) -> (action: ServerAction)
        requires
            old(self).wf(),
        ensures
            final(self).wf(),
            (final(self)@, action) == next_setting(old(self)@, socket, address),
    {
        if self.next_step >= self.steps.len() {
            self.sockets.push(socket);
            return self.next_socket();
        }
        let step = self.steps[self.next_step];
        self.next_step += 1;
        self.phase = ServerPhase::Setting { socket, address };
        assert(self@.steps =~= old(self)@.steps.drop_first());
        ServerAction::SetUp { socket, address, step }
    }

    fn begin(&mut self) -> (action: ServerAction)
        requires
            old(self).wf(),
            old(self)@.phase is Ready,
        ensures
            final(self).wf(),
            (final(self)@, action) == server_step(old(self)@, ServerEvent::Begin),
    {
        match self.source {
            ServerSource::Given(socket) => {
                self.phase = ServerPhase::Preparing(socket);
                ServerAction::SetNonblocking(socket)
            },
            ServerSource::Tcp { .. } => {
                self.phase = ServerPhase::Resolving;
                ServerAction::Resolve
            },
            ServerSource::Unix { path: Some(path), .. } => {
                self.phase = ServerPhase::Building(path);
                ServerAction::MakeUnixSocket
            },
            ServerSource::Unix { path: None, .. } => {
                self.phase = ServerPhase::Over;
                ServerAction::Refuse(ConnectError::PathRequired)
            },
        }
    }

    fn set_up(&mut self, socket: ObjectId, address: ObjectId) -> (action: ServerAction)
        requires
            old(self).wf(),
        ensures
            final(self).wf(),
            (final(self)@, action) == next_setting(
                ServerFlowView { steps: socket_steps(old(self)@.source), ..old(self)@ },
                socket,
                address,
            ),
    {
        self.steps =
        match self.source {
            ServerSource::Given(_) => Vec::new(),
            ServerSource::Tcp { options, has_reuse_port } => build_tcp_server_sockets(
                options,
                has_reuse_port,
            ),
            ServerSource::Unix { backlog, .. } => build_unix_server_socket(backlog),
        };
        self.next_step = 0;
        assert(self@.steps =~= socket_steps(old(self)@.source));
        self.next_setting(socket, address)
    }

    /// Takes what came of the action before and says what to do next.
    pub fn step(&mut self, event: ServerEvent) -> (action: ServerAction)
        requires
            old(self).wf(),
        ensures
            final(self).wf(),
            (final(self)@, action) == server_step(old(self)@, event),
    {
        match (self.phase, event) {
            (_, ServerEvent::Failed(raised)) => {
                self.phase = ServerPhase::Over;
                ServerAction::Fail(raised)
            },
            (ServerPhase::Ready, ServerEvent::Begin) => self.begin(),
            (ServerPhase::Preparing(socket), ServerEvent::Done) => {
                self.sockets.push(socket);
                self.next_socket()
            },
            (ServerPhase::Resolving, ServerEvent::Resolved(addrinfos)) => {
                let ghost given = addrinfos@;
                self.addrinfos = addrinfos;
                self.next_addrinfo = 0;
                assert(self@.left =~= given);
                self.next_socket()
            },
            (ServerPhase::Building(address), ServerEvent::Made(socket)) => self.set_up(
                socket,
                address,
            ),
            (ServerPhase::Setting { socket, address }, ServerEvent::Done) => self.next_setting(
                socket,
                address,
            ),
            (ServerPhase::MakingServer, ServerEvent::Made(server)) => {
                if self.start_serving {
                    self.phase = ServerPhase::Starting(server);
                    ServerAction::StartServing(server)
                } else {
                    self.phase = ServerPhase::Over;
                    ServerAction::Finish(server)
                }
            },
            (ServerPhase::Starting(server), ServerEvent::Done) => {
                self.phase = ServerPhase::Over;
                ServerAction::Finish(server)
            },
            _ => {
                self.phase = ServerPhase::Over;
                ServerAction::GiveUp
            },
        }
    }
}

/// What was asked for, before anything was done.
pub open spec fn fresh_server_flow(source: ServerSource, start_serving: bool) -> ServerFlowView {
    ServerFlowView {
        source,
        start_serving,
        phase: ServerPhase::Ready,
        left: Seq::empty(),
        steps: Seq::empty(),
        sockets: Seq::empty(),
    }
}

/// A socket is being set up, and all that is asked for goes well: how making the server stands once
/// the socket is done.
pub open spec fn settled(f: ServerFlowView) -> ServerFlowView
    decreases f.steps.len(),
{
    if f.phase is Setting {
        let after = server_step(f, ServerEvent::Done).0;
        if f.steps.len() == 0 {
            after
        } else {
            settled(after)
        }
    } else {
        f
    }
}

/// A socket that is set up joins the others, and the next address is next.
proof fn lemma_settled(f: ServerFlowView)
    requires
        f.phase is Setting,
    ensures
        settled(f) == next_socket(
            ServerFlowView {
                sockets: f.sockets.push(f.phase->Setting_socket),
                steps: Seq::empty(),
                ..f
            },
        ).0,
    decreases f.steps.len(),
{
    if f.steps.len() == 0 {
        assert(f.steps =~= Seq::empty());
    } else {
        lemma_settled(server_step(f, ServerEvent::Done).0);
    }
}

/// Sockets are made as given, one after the other, and nothing raises: how making the server stands
/// in the end.
pub open spec fn with_sockets_made(f: ServerFlowView, made: Seq<ObjectId>) -> ServerFlowView
    decreases made.len(),
{
    if f.phase is Building && made.len() > 0 {
        with_sockets_made(
            settled(server_step(f, ServerEvent::Made(made[0])).0),
            made.drop_first(),
        )
    } else {
        f
    }
}

/// A server gets one socket for each of its addresses, in their order, and it is made when it has
/// them all.
pub proof fn law_server_listens_at_every_address(
    options: TcpServerSocketOptions,
    has_reuse_port: bool,
    start_serving: bool,
    addrinfos: Vec<ResolvedStreamAddrinfo>,
    made: Seq<ObjectId>,
)
    requires
        made.len() == addrinfos@.len(),
    ensures
        ({
            let source = ServerSource::Tcp { options, has_reuse_port };
            let resolving = server_step(
                fresh_server_flow(source, start_serving),
                ServerEvent::Begin,
            ).0;
            let first = server_step(resolving, ServerEvent::Resolved(addrinfos)).0;
            let end = with_sockets_made(first, made);
            end.phase is MakingServer && end.sockets == made
        }),
{
    let source = ServerSource::Tcp { options, has_reuse_port };
    let resolving = server_step(fresh_server_flow(source, start_serving), ServerEvent::Begin).0;
    let before = ServerFlowView { left: addrinfos@, ..resolving };
    lemma_one_socket_for_each_address(before, made);
    assert(before.sockets + made =~= made);
}

/// From wherever the addresses begin.
proof fn lemma_one_socket_for_each_address(before: ServerFlowView, made: Seq<ObjectId>)
    requires
        before.source is Tcp,
        made.len() == before.left.len(),
    ensures
        with_sockets_made(next_socket(before).0, made).phase is MakingServer,
        with_sockets_made(next_socket(before).0, made).sockets == before.sockets + made,
    decreases made.len(),
{
    let f = next_socket(before).0;
    if made.len() == 0 {
        assert(before.sockets + made =~= before.sockets);
    } else {
        let address = before.left[0].address;
        let setting = server_step(f, ServerEvent::Made(made[0])).0;
        assert(socket_steps(f.source).len() > 0);
        assert(setting.phase == (ServerPhase::Setting { socket: made[0], address }));
        lemma_settled(setting);
        let next = ServerFlowView {
            sockets: before.sockets.push(made[0]),
            steps: Seq::empty(),
            ..setting
        };
        lemma_one_socket_for_each_address(next, made.drop_first());
        assert(next.sockets + made.drop_first() =~= before.sockets + made);
    }
}

} // verus!
