//! The server side of a node: it listens, performs handshakes, and hands each client to the
//! server of its group. The server decides; whoever drives it binds, accepts, reads, writes and
//! waits, and reports each outcome as an event.

use vstd::prelude::*;

use crate::backoff::{delay_cap, law_attempts_are_limited, BackoffCounter, BackoffCounterView};
use crate::config::S2cOptions;
use crate::context::ContextView;
use crate::network::channel::{reply_halves, Reply};
use crate::network::client::{
    is_handshake_of, ClientState, ClientView, ConnectEvent, DrainInAction, DrainInEvent,
};
use crate::network::error::{ClientError, NetworkError};
use crate::proto::io::{Body, Handshake, NodeIdentity, S2cMessage};
use crate::registry::Registry;
use crate::text::{join, law_signed_decimal, signed_decimal, signed_decimal_text};
use tokio::sync::oneshot;

verus! {

/// How far a server has come.
#[derive(Debug, Clone, Copy, PartialEq, Eq, Structural)]
pub enum ServerState {
    NotBound,
    Binding,
    Ready,
    Closed,
}

/// The byte that stands for a state.
pub open spec fn server_state_byte(state: ServerState) -> u8 {
    match state {
        ServerState::NotBound => 0,
        ServerState::Binding => 1,
        ServerState::Ready => 2,
        ServerState::Closed => 3,
    }
}

/// The state that a byte stands for.
pub open spec fn server_state_of(byte: u8) -> ServerState {
    if byte == 0 {
        ServerState::NotBound
    } else if byte == 1 {
        ServerState::Binding
    } else if byte == 2 {
        ServerState::Ready
    } else {
        ServerState::Closed
    }
}

/// A cell that holds the state of a server in one byte. Tasks that share it keep it behind a
/// lock, so that each call is one indivisible step.
#[derive(Debug)]
pub struct AtomicServerState(u8);

impl View for AtomicServerState {
    type V = ServerState;

    closed spec fn view(&self) -> ServerState {
        server_state_of(self.0)
    }
}

impl AtomicServerState {
    /// The state of a new server.
    pub fn new() -> (cell: Self)
        ensures
            cell@ == ServerState::NotBound,
    {
        AtomicServerState(0)
    }

    /// The state in the cell.
    pub fn load(&self) -> (state: ServerState)
        ensures
            state == self@,
    {
        match self.0 {
            0 => ServerState::NotBound,
            1 => ServerState::Binding,
            2 => ServerState::Ready,
            _ => ServerState::Closed,
        }
    }

    /// Puts a state into the cell.
    pub fn store(&mut self, server_state: ServerState)
        ensures
            final(self)@ == server_state,
    {
        self.0 = match server_state {
            ServerState::NotBound => 0,
            ServerState::Binding => 1,
            ServerState::Ready => 2,
            ServerState::Closed => 3,
        };
    }

    /// Puts a state into the cell if it holds the expected one, and says whether it did.
    pub fn compare_and_exchange(&mut self, current: ServerState, new: ServerState) -> (exchanged: bool)
        ensures
            exchanged == (old(self)@ == current),
            final(self)@ == if exchanged {
                new
            } else {
                old(self)@
            },
    {
        if self.load() == current {
            self.store(new);
            true
        } else {
            false
        }
    }
}

/// The byte of a state stands for that state.
pub proof fn law_server_state_round_trip(state: ServerState)
    ensures
        server_state_of(server_state_byte(state)) == state,
{
}

/// The server of a node, with the servers of its groups.
pub struct S2cServer<'a, G> {
    s2c_options: &'a S2cOptions,
    group_servers: Registry<String, G>,
    server_state: AtomicServerState,
    node_identity: NodeIdentity,
}

/// The contents of an [`S2cServer`].
#[verifier::ext_equal]
#[verifier::reject_recursive_types(G)]
pub struct ServerView<G> {
    pub options: S2cOptions,
    pub groups: Map<Seq<char>, G>,
    pub state: ServerState,
    pub node_identity: NodeIdentity,
}

impl<'a, G> View for S2cServer<'a, G> {
    type V = ServerView<G>;

    closed spec fn view(&self) -> ServerView<G> {
        ServerView {
            options: *self.s2c_options,
            groups: self.group_servers@,
            state: self.server_state@,
            node_identity: self.node_identity,
        }
    }
}

/// What has happened to a server that is being started.
pub enum StartEvent {
    /// It is told to start.
    Requested,
    /// Its port is bound.
    Bound,
    /// Its port could not be bound.
    BindFailed,
}

/// What to do next to start a server.
pub enum StartAction {
    /// Bind the address.
    Bind { address: String },
    /// Start the task that serves, and stop without an error.
    Serve,
    /// Stop with the error of the last attempt to bind.
    Fail,
    /// Stop without an error: the server was started before.
    Finish,
}

/// What has happened to a server that is running.
pub enum ServeEvent {
    /// No more connections come in through the port.
    AcceptEnded,
    /// The port is to be bound again.
    RebindDue,
    /// The port is bound again.
    Rebound,
    /// The port could not be bound again.
    RebindFailed,
}

/// What to do next to keep a server running.
pub enum ServeAction {
    /// Accept connections.
    Accept,
    /// Go on to bind the port again.
    Rebind,
    /// Bind the address.
    Bind { address: String },
    /// Call the clients off, wait for them, and end.
    ShutDown,
    /// End.
    Stop,
}

/// What the accepting task has seen.
pub enum AcceptEvent {
    /// The task comes round.
    Turn,
    /// A connection came in, or accepting failed.
    Accepted(bool),
}

/// What the accepting task does next.
pub enum AcceptAction {
    /// Wait for a connection.
    Accept,
    /// Start a task for the connection, and come round again.
    Handle,
    /// End.
    Stop,
}

/// How an attempt to bind that failed is followed up.
pub enum BindAction {
    /// Wait for a random part of that many milliseconds, and try again.
    Retry { delay_cap_ms: u64 },
    /// Give up with the error.
    GiveUp,
}

/// What has happened to a connection whose handshake is awaited.
pub enum HandshakeEvent {
    /// The handshake begins.
    Wanted,
    /// A message was read, or could not be.
    Received(Result<S2cMessage, NetworkError>),
    /// No message came in time.
    TimedOut,
    /// The answer to a handshake was written, or could not be.
    Echoed(Handshake, bool),
}

/// What to do next with a connection whose handshake is awaited.
pub enum HandshakeAction {
    /// Read the next message.
    Read,
    /// Send the message back as the answer to the handshake.
    Echo(S2cMessage, Handshake),
    /// Stop: this is the handshake, if there was one.
    Finish(Option<Handshake>),
}

/// What becomes of a client after its handshake.
pub enum Admission<'g, G> {
    /// The client goes to the server of its group.
    HandOver(&'g G, NodeIdentity),
    /// There is no such group.
    UnknownGroup,
    /// The handshake names no node.
    MissingIdentity,
    /// There was no handshake.
    NoHandshake,
}

/// The address that a server listens at.
pub open spec fn listen_address(port: int) -> Seq<char> {
    "0.0.0.0:"@ + signed_decimal(port)
}

/// The next step of a handshake: the first handshake that comes in is sent back as it is, and
/// other messages are passed over.
pub open spec fn handshake_action(event: HandshakeEvent) -> HandshakeAction {
    match event {
        HandshakeEvent::Wanted => HandshakeAction::Read,
        HandshakeEvent::Received(Ok(message)) => match message.body {
            Some(Body::Handshake(handshake)) => HandshakeAction::Echo(message, handshake),
            _ => HandshakeAction::Read,
        },
        HandshakeEvent::Received(Err(_)) => HandshakeAction::Finish(None),
        HandshakeEvent::TimedOut => HandshakeAction::Finish(None),
        HandshakeEvent::Echoed(handshake, written) => HandshakeAction::Finish(
            if written {
                Some(handshake)
            } else {
                None
            },
        ),
    }
}

impl<G> ServerView<G> {
    /// A step of starting the server.
    pub open spec fn start(self, event: StartEvent, action: StartAction) -> bool {
        match event {
            StartEvent::Requested => if self.state == ServerState::NotBound {
                action matches StartAction::Bind { address } && address@ == listen_address(
                    self.node_identity.port as int,
                )
            } else {
                action == StartAction::Finish
            },
            StartEvent::Bound => action == StartAction::Serve,
            StartEvent::BindFailed => action == StartAction::Fail,
        }
    }

    /// The server after a step of starting it. One that could not bind its port stays binding.
    pub open spec fn after_start(self, event: StartEvent) -> ServerView<G> {
        match event {
            StartEvent::Requested => if self.state == ServerState::NotBound {
                ServerView { state: ServerState::Binding, ..self }
            } else {
                self
            },
            StartEvent::Bound => ServerView { state: ServerState::Ready, ..self },
            StartEvent::BindFailed => self,
        }
    }

    /// A step of keeping the server running.
    pub open spec fn serve(self, event: ServeEvent, action: ServeAction) -> bool {
        match event {
            ServeEvent::AcceptEnded => action == if self.state == ServerState::Ready {
                ServeAction::Rebind
            } else {
                ServeAction::Stop
            },
            ServeEvent::RebindDue => if self.state == ServerState::NotBound {
                action matches ServeAction::Bind { address } && address@ == listen_address(
                    self.node_identity.port as int,
                )
            } else {
                action == ServeAction::Stop
            },
            ServeEvent::Rebound => action == ServeAction::Accept,
            ServeEvent::RebindFailed => action == ServeAction::ShutDown,
        }
    }

    /// The server after a step of keeping it running.
    pub open spec fn after_serve(self, event: ServeEvent) -> ServerView<G> {
        match event {
            ServeEvent::AcceptEnded => if self.state == ServerState::Ready {
                ServerView { state: ServerState::NotBound, ..self }
            } else {
                self
            },
            ServeEvent::RebindDue => if self.state == ServerState::NotBound {
                ServerView { state: ServerState::Binding, ..self }
            } else {
                self
            },
            ServeEvent::Rebound => ServerView { state: ServerState::Ready, ..self },
            ServeEvent::RebindFailed => ServerView { state: ServerState::Closed, ..self },
        }
    }

    /// The counter of the attempts to bind the port, before the first one fails.
    pub open spec fn bind_backoff(self) -> BackoffCounterView {
        BackoffCounterView { name: "bind"@, current_attempt: 0, options: self.options.retry }
    }

    /// What the accepting task does next.
    pub open spec fn accept(self, event: AcceptEvent) -> AcceptAction {
        if self.state == ServerState::Closed {
            AcceptAction::Stop
        } else {
            match event {
                AcceptEvent::Turn => AcceptAction::Accept,
                AcceptEvent::Accepted(true) => AcceptAction::Handle,
                AcceptEvent::Accepted(false) => AcceptAction::Stop,
            }
        }
    }

    /// What becomes of a client after its handshake.
    pub open spec fn admission(self, handshake: Option<Handshake>) -> Admission<'static, G> {
        match handshake {
            Some(handshake) => if !self.groups.contains_key(handshake.group_id@) {
                Admission::UnknownGroup
            } else {
                match handshake.node_identity {
                    Some(node_identity) => Admission::HandOver(
                        &self.groups[handshake.group_id@],
                        node_identity,
                    ),
                    None => Admission::MissingIdentity,
                }
            },
            None => Admission::NoHandshake,
        }
    }
}

impl<'a, G> S2cServer<'a, G> {
    /// A server of a node, not started and without groups.
    pub fn new(s2c_options: &'a S2cOptions, node_identity: NodeIdentity) -> (server: Self)
        ensures
            server@ == (ServerView {
                options: *s2c_options,
                groups: Map::<Seq<char>, G>::empty(),
                state: ServerState::NotBound,
                node_identity,
            }),
    {
        S2cServer {
            s2c_options,
            group_servers: Registry::new(),
            server_state: AtomicServerState::new(),
            node_identity,
        }
    }

    /// How far the server has come.
    pub fn state(&self) -> (state: ServerState)
        ensures
            state == self@.state,
    {
        self.server_state.load()
    }

    /// How long each message of a handshake is waited for, in milliseconds.
    pub fn handshake_timeout_ms(&self) -> (ms: u64)
        ensures
            ms == self@.options.network.handshake_timeout_ms,
    {
        self.s2c_options.network.handshake_timeout_ms
    }

    /// The counter of the attempts to bind the port, for one round of them.
    pub fn bind_backoff(&self) -> (counter: BackoffCounter<'a>)
        ensures
            counter@ == self@.bind_backoff(),
    {
        BackoffCounter::new("bind".to_owned(), &self.s2c_options.retry)
    }

    /// Takes a step of starting the server.
    pub fn start(&mut self, event: StartEvent) -> (action: StartAction)
        ensures
            old(self)@.start(event, action),
            final(self)@ == old(self)@.after_start(event),
    {
        match event {
            StartEvent::Requested => {
                if self.server_state.compare_and_exchange(
                    ServerState::NotBound,
                    ServerState::Binding,
                ) {
                    StartAction::Bind { address: bind_address(self.node_identity.port) }
                } else {
                    StartAction::Finish
                }
            },
            StartEvent::Bound => {
                self.server_state.store(ServerState::Ready);
                StartAction::Serve
            },
            StartEvent::BindFailed => StartAction::Fail,
        }
    }

    /// Takes a step of keeping the server running.
    pub fn do_serve(&mut self, event: ServeEvent) -> (action: ServeAction)
        ensures
            old(self)@.serve(event, action),
            final(self)@ == old(self)@.after_serve(event),
    {
        match event {
            ServeEvent::AcceptEnded => {
                if !self.server_state.compare_and_exchange(
                    ServerState::Ready,
                    ServerState::NotBound,
                ) {
                    return ServeAction::Stop;
                }
                ServeAction::Rebind
            },
            ServeEvent::RebindDue => {
                if self.server_state.compare_and_exchange(
                    ServerState::NotBound,
                    ServerState::Binding,
                ) {
                    ServeAction::Bind { address: bind_address(self.node_identity.port) }
                } else {
                    ServeAction::Stop
                }
            },
            ServeEvent::Rebound => {
                self.server_state.store(ServerState::Ready);
                ServeAction::Accept
            },
            ServeEvent::RebindFailed => {
                self.server_state.store(ServerState::Closed);
                ServeAction::ShutDown
            },
        }
    }

    /// Takes a step of the accepting task.
    pub fn accept(&self, event: AcceptEvent) -> (action: AcceptAction)
        ensures
            action == self@.accept(event),
            self@.state != ServerState::Closed && event == AcceptEvent::Accepted(true) ==> action
                == AcceptAction::Handle,
    {
        if self.server_state.load() == ServerState::Closed {
            return AcceptAction::Stop;
        }
        match event {
            AcceptEvent::Turn => AcceptAction::Accept,
            AcceptEvent::Accepted(accepted) => {
                if accepted {
                    AcceptAction::Handle
                } else {
                    AcceptAction::Stop
                }
            },
        }
    }

    /// Puts a group under the care of the server; a server that the group had before is let go.
    pub fn register_group_server(&mut self, group_id: String, group_server: G)
        ensures
            final(self)@ == (ServerView {
                groups: old(self)@.groups.insert(group_id@, group_server),
                ..old(self)@
            }),
    {
        self.group_servers.insert(group_id, group_server);
    }

    /// What becomes of a client after its handshake.
    pub fn handle_client(&self, handshake: Option<Handshake>) -> (admission: Admission<'_, G>)
        ensures
            admission == self@.admission(handshake),
    {
        match handshake {
            Some(handshake) => match self.group_servers.get(&handshake.group_id) {
                Some(group_server) => match handshake.node_identity {
                    Some(node_identity) => Admission::HandOver(group_server, node_identity),
                    None => Admission::MissingIdentity,
                },
                None => Admission::UnknownGroup,
            },
            None => Admission::NoHandshake,
        }
    }

    /// Closes the server. Unless it was closed already, its tasks are to be called off and waited
    /// for.
    pub fn close(&mut self) -> (closed_now: bool)
        ensures
            closed_now == (old(self)@.state != ServerState::Closed),
            final(self)@ == (ServerView { state: ServerState::Closed, ..old(self)@ }),
    {
        if self.server_state.load() == ServerState::Closed {
            return false;
        }
        self.server_state.store(ServerState::Closed);
        true
    }
}

/// The address that a server listens at.
pub fn bind_address(port: i32) -> (address: String)
    ensures
        address@ == listen_address(port as int),
{
    join("0.0.0.0:", signed_decimal_text(port).as_str())
}

/// Follows up an attempt to bind that failed: as long as the retry policy allows it, the next
/// attempt is counted.
pub fn bind_failed(backoff: &mut BackoffCounter<'_>) -> (action: BindAction)
    requires
        old(backoff)@.current_attempt < u32::MAX,
    ensures
        final(backoff)@ == old(backoff)@.after_attempt(),
        match action {
            BindAction::Retry { delay_cap_ms } => old(backoff)@.can_attempt() && delay_cap_ms
                == delay_cap(old(backoff)@.options, final(backoff)@.current_attempt as nat),
            BindAction::GiveUp => !old(backoff)@.can_attempt(),
        },
{
    match backoff.await_attempt() {
        Some(delay_cap_ms) => BindAction::Retry { delay_cap_ms },
        None => BindAction::GiveUp,
    }
}

/// Takes a step of a handshake.
pub fn handshake(event: HandshakeEvent) -> (action: HandshakeAction)
    ensures
        action == handshake_action(event),
{
    match event {
        HandshakeEvent::Wanted => HandshakeAction::Read,
        HandshakeEvent::Received(Ok(message)) => {
            let received = match &message.body {
                Some(Body::Handshake(handshake)) => handshake.clone(),
                _ => {
                    return HandshakeAction::Read;
                },
            };
            HandshakeAction::Echo(message, received)
        },
        HandshakeEvent::Received(Err(_)) => HandshakeAction::Finish(None),
        HandshakeEvent::TimedOut => HandshakeAction::Finish(None),
        HandshakeEvent::Echoed(handshake, written) => {
            if written {
                HandshakeAction::Finish(Some(handshake))
            } else {
                HandshakeAction::Finish(None)
            }
        },
    }
}

/// A closed server accepts nobody, does not bind its port again, and does not start again.
pub proof fn law_closed_server_rests<G>(server: ServerView<G>)
    requires
        server.state == ServerState::Closed,
    ensures
        forall|event: AcceptEvent| #[trigger] server.accept(event) == AcceptAction::Stop,
        forall|action: ServeAction|
            #[trigger] server.serve(ServeEvent::AcceptEnded, action) ==> action
                == ServeAction::Stop,
        forall|action: ServeAction|
            #[trigger] server.serve(ServeEvent::RebindDue, action) ==> action == ServeAction::Stop,
        forall|action: StartAction|
            #[trigger] server.start(StartEvent::Requested, action) ==> action
                == StartAction::Finish,
        server.after_serve(ServeEvent::AcceptEnded) == server,
        server.after_serve(ServeEvent::RebindDue) == server,
        server.after_start(StartEvent::Requested) == server,
{
}

/// No step of starting or serving changes the node, its options or its groups.
pub proof fn law_server_keeps_its_setup<G>(server: ServerView<G>)
    ensures
        forall|event: StartEvent|
            {
                let after = #[trigger] server.after_start(event);
                after == ServerView { state: after.state, ..server }
            },
        forall|event: ServeEvent|
            {
                let after = #[trigger] server.after_serve(event);
                after == ServerView { state: after.state, ..server }
            },
{
}

/// The life of a server: it binds its port and gets ready; when no more connections come in, it
/// binds again and is as before; if that fails, it is closed.
pub proof fn law_server_life<G>(server: ServerView<G>)
    requires
        server.state == ServerState::NotBound,
    ensures
        ({
            let binding = server.after_start(StartEvent::Requested);
            let ready = binding.after_start(StartEvent::Bound);
            let ended = ready.after_serve(ServeEvent::AcceptEnded);
            let rebinding = ended.after_serve(ServeEvent::RebindDue);
            &&& binding.state == ServerState::Binding
            &&& ready == ServerView { state: ServerState::Ready, ..server }
            &&& ready.accept(AcceptEvent::Turn) == AcceptAction::Accept
            &&& ended == server
            &&& rebinding == binding
            &&& rebinding.after_serve(ServeEvent::Rebound) == ready
            &&& rebinding.after_serve(ServeEvent::RebindFailed).state == ServerState::Closed
        }),
{
}

/// A server binds its port for one start at a time: while one is under way or has succeeded, a
/// further one changes nothing.
pub proof fn law_server_starts_once<G>(server: ServerView<G>)
    ensures
        server.after_start(StartEvent::Requested).after_start(StartEvent::Requested)
            == server.after_start(StartEvent::Requested),
        forall|action: StartAction|
            #[trigger] server.after_start(StartEvent::Requested).start(
                StartEvent::Requested,
                action,
            ) ==> action == StartAction::Finish,
{
}

/// Binding that keeps failing is tried again as often as the options of the server say, and then
/// given up.
pub proof fn law_binding_is_given_up<G>(server: ServerView<G>, failures: nat)
    requires
        failures <= u32::MAX,
    ensures
        ({
            let counter = server.bind_backoff().after_attempts(failures);
            match server.options.retry.max_attempts {
                Some(max) => counter.can_attempt() <==> failures < max,
                None => counter.can_attempt(),
            }
        }),
{
    law_attempts_are_limited(server.bind_backoff(), failures);
}

/// Nothing but a handshake makes a connection, and messages before it are passed over.
pub proof fn law_connections_begin_with_a_handshake(message: S2cMessage)
    ensures
        !(message.body matches Some(Body::Handshake(_))) ==> handshake_action(
            HandshakeEvent::Received(Ok(message)),
        ) == HandshakeAction::Read,
        message.body matches Some(Body::Handshake(handshake)) ==> handshake_action(
            HandshakeEvent::Received(Ok(message)),
        ) == HandshakeAction::Echo(message, handshake),
{
}

/// A client that names a registered group and itself goes to the server that the group was
/// registered with last.
pub proof fn law_registered_group_gets_its_clients<G>(
    server: ServerView<G>,
    group_id: Seq<char>,
    group_server: G,
    handshake: Handshake,
    node_identity: NodeIdentity,
)
    requires
        handshake.group_id@ == group_id,
        handshake.node_identity == Some(node_identity),
    ensures
        (ServerView { groups: server.groups.insert(group_id, group_server), ..server }).admission(
            Some(handshake),
        ) == Admission::<'static, G>::HandOver(&group_server, node_identity),
        !server.groups.contains_key(group_id) ==> server.admission(Some(handshake)) == Admission::<
            'static,
            G,
        >::UnknownGroup,
{
}

/// A handshake between a client and a server that knows the client's group: the server sends the
/// client's message back and hands the client, by its own identity, to the server of the group;
/// the client takes the message as the reply it waits for, and is ready.
pub proof fn law_handshake_connects<G>(
    client: ClientView,
    message: S2cMessage,
    receiver: oneshot::Receiver<Reply>,
    waiting: ClientView,
    server: ServerView<G>,
    after: ClientView,
    action: DrainInAction,
)
    requires
        client.state == ClientState::Connected,
        is_handshake_of(message, client.context),
        client.after_request(message.correlation_id@, receiver, waiting),
        server.groups.contains_key(client.context.s2c_group_id),
        waiting.drain_in(DrainInEvent::Received(Ok(message)), after, action),
    ensures
        handshake_action(HandshakeEvent::Received(Ok(message))) matches HandshakeAction::Echo(
            echo,
            handshake,
        ) && echo == message && handshake_action(HandshakeEvent::Echoed(handshake, true))
            == HandshakeAction::Finish(Some(handshake)) && server.admission(Some(handshake))
            == Admission::<'static, G>::HandOver(
            &server.groups[client.context.s2c_group_id],
            client.context.node_identity,
        ),
        action matches DrainInAction::Deliver(delivery) && reply_halves(delivery.sender, receiver)
            && delivery.reply == Ok::<S2cMessage, ClientError>(message),
        after.after_connect(ConnectEvent::HandshakeDone).state == ClientState::Ready,
{
}

/// A server that is not closed takes every connection that comes in, whatever groups it has, and
/// waits for the next; accepting ends exactly when the server is closed or accepting failed.
pub proof fn law_connections_are_handled<G>(server: ServerView<G>)
    ensures
        server.state != ServerState::Closed ==> {
            &&& server.accept(AcceptEvent::Turn) == AcceptAction::Accept
            &&& server.accept(AcceptEvent::Accepted(true)) == AcceptAction::Handle
            &&& server.accept(AcceptEvent::Accepted(false)) == AcceptAction::Stop
        },
        forall|event: AcceptEvent|
            (#[trigger] server.accept(event)) == AcceptAction::Stop <==> (server.state
                == ServerState::Closed || event == AcceptEvent::Accepted(false)),
        forall|event: AcceptEvent|
            (#[trigger] server.accept(event)) == AcceptAction::Handle <==> (server.state
                != ServerState::Closed && event == AcceptEvent::Accepted(true)),
{
}

/// Accepting does not depend on the groups, the options or the node, but on the state alone.
pub proof fn law_accepting_is_by_state_alone<G>(
    server: ServerView<G>,
    other: ServerView<G>,
    event: AcceptEvent,
)
    requires
        server.state == other.state,
    ensures
        server.accept(event) == other.accept(event),
{
}

/// A server starts exactly where it is not bound, by binding the port of its node; whatever state
/// it is in when its port is bound, it is ready then, and serves. A failure to bind is reported,
/// and changes nothing.
pub proof fn law_start_binds_the_port_of_the_node<G>(
    server: ServerView<G>,
    requested: StartAction,
    bound: StartAction,
    failed: StartAction,
)
    requires
        server.start(StartEvent::Requested, requested),
        server.start(StartEvent::Bound, bound),
        server.start(StartEvent::BindFailed, failed),
    ensures
        server.state == ServerState::NotBound ==> (requested matches StartAction::Bind { address }
            && address@ == "0.0.0.0:"@ + signed_decimal(server.node_identity.port as int)),
        server.state == ServerState::NotBound ==> server.after_start(StartEvent::Requested).state
            == ServerState::Binding,
        server.state != ServerState::NotBound ==> requested == StartAction::Finish,
        server.state != ServerState::NotBound ==> server.after_start(StartEvent::Requested) == server,
        bound == StartAction::Serve,
        server.after_start(StartEvent::Bound).state == ServerState::Ready,
        failed == StartAction::Fail,
        server.after_start(StartEvent::BindFailed) == server,
{
}

/// When no more connections come in, a server that is ready binds the port of its node again, and
/// any other ends. Once it is bound again it accepts; where that fails it is closed and shut down.
pub proof fn law_server_binds_again<G>(
    server: ServerView<G>,
    ended: ServeAction,
    due: ServeAction,
    rebound: ServeAction,
    failed: ServeAction,
)
    requires
        server.serve(ServeEvent::AcceptEnded, ended),
        server.serve(ServeEvent::RebindDue, due),
        server.serve(ServeEvent::Rebound, rebound),
        server.serve(ServeEvent::RebindFailed, failed),
    ensures
        server.state == ServerState::Ready ==> ended == ServeAction::Rebind && server.after_serve(
            ServeEvent::AcceptEnded,
        ).state == ServerState::NotBound,
        server.state != ServerState::Ready ==> ended == ServeAction::Stop && server.after_serve(
            ServeEvent::AcceptEnded,
        ) == server,
        server.state == ServerState::NotBound ==> (due matches ServeAction::Bind { address }
            && address@ == "0.0.0.0:"@ + signed_decimal(server.node_identity.port as int)),
        server.state == ServerState::NotBound ==> server.after_serve(ServeEvent::RebindDue).state
            == ServerState::Binding,
        server.state != ServerState::NotBound ==> due == ServeAction::Stop && server.after_serve(
            ServeEvent::RebindDue,
        ) == server,
        rebound == ServeAction::Accept,
        server.after_serve(ServeEvent::Rebound).state == ServerState::Ready,
        failed == ServeAction::ShutDown,
        server.after_serve(ServeEvent::RebindFailed).state == ServerState::Closed,
{
}

/// A server listens at every address of its machine, and what follows the colon is its port.
pub proof fn law_listen_address_names_the_port(port: int)
    ensures
        listen_address(port).len() > 8,
        listen_address(port).take(8) == "0.0.0.0:"@,
        listen_address(port).skip(8) == signed_decimal(port),
{
    reveal_strlit("0.0.0.0:");
    law_signed_decimal(port);
    assert(listen_address(port).take(8) =~= "0.0.0.0:"@);
    assert(listen_address(port).skip(8) =~= signed_decimal(port));
}

/// The first handshake that comes in is sent back unchanged, and is what the handshake comes to,
/// if it could be sent; a failure to read, and a lapse of time, end the handshake with nothing.
pub proof fn law_handshake_comes_to_what_was_received(
    message: S2cMessage,
    opened: Handshake,
    err: NetworkError,
)
    ensures
        handshake_action(HandshakeEvent::Wanted) == HandshakeAction::Read,
        message.body == Some(Body::Handshake(opened)) ==> handshake_action(
            HandshakeEvent::Received(Ok(message)),
        ) == HandshakeAction::Echo(message, opened),
        !(message.body matches Some(Body::Handshake(_))) ==> handshake_action(
            HandshakeEvent::Received(Ok(message)),
        ) == HandshakeAction::Read,
        handshake_action(HandshakeEvent::Echoed(opened, true)) == HandshakeAction::Finish(
            Some(opened),
        ),
        handshake_action(HandshakeEvent::Echoed(opened, false)) == HandshakeAction::Finish(None),
        handshake_action(HandshakeEvent::Received(Err(err))) == HandshakeAction::Finish(None),
        handshake_action(HandshakeEvent::TimedOut) == HandshakeAction::Finish(None),
{
}

/// A client is handed over exactly where it named itself and a group that is registered: to the
/// server of that group, and by the identity that it gave. Otherwise it is told apart why not:
/// there was no handshake, no such group, or no identity. The state of the server plays no part.
pub proof fn law_clients_are_handed_to_their_group<G>(
    server: ServerView<G>,
    other: ServerView<G>,
    handshake: Handshake,
)
    requires
        other.groups == server.groups,
    ensures
        server.admission(None) == Admission::<'static, G>::NoHandshake,
        ({
            let known = server.groups.contains_key(handshake.group_id@);
            let admission = server.admission(Some(handshake));
            &&& !known ==> admission == Admission::<'static, G>::UnknownGroup
            &&& known && handshake.node_identity is None ==> admission == Admission::<
                'static,
                G,
            >::MissingIdentity
            &&& known && handshake.node_identity is Some ==> admission == Admission::<
                'static,
                G,
            >::HandOver(&server.groups[handshake.group_id@], handshake.node_identity->0)
            &&& other.admission(Some(handshake)) == admission
        }),
{
}

/// A round of attempts to bind begins without an attempt, under the retry options of the server.
pub proof fn law_binding_begins_anew<G>(server: ServerView<G>)
    ensures
        server.bind_backoff().name == "bind"@,
        server.bind_backoff().current_attempt == 0,
        server.bind_backoff().options == server.options.retry,
{
}

} // verus!
