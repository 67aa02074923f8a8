//! The client side of a connection. The client decides; whoever drives it dials, reads, writes
//! and waits, and reports each outcome as an event.

use vstd::prelude::*;

use crate::config::S2cOptions;
use crate::context::{Context, ContextView};
use crate::network::channel::{reply_halves, Reply};
use crate::network::correlation::{is_random_uuid, new_correlation_id};
use crate::network::error::{network_error_text, ClientError, NetworkError};
use crate::network::inflight::{
    fails_each, law_every_request_is_told, Delivery, InflightRequests, OpenRequests,
};
use crate::proto::io::{Body, Error, Handshake, NodeIdentity, S2cMessage};
use crate::text::{join, signed_decimal, signed_decimal_text};
use tokio::sync::oneshot;

verus! {

/// How far a client has come.
#[derive(Debug, Clone, Copy, PartialEq, Eq, Structural)]
pub enum ClientState {
    NotConnected,
    Connected,
    Ready,
    Closed,
}

/// The byte that stands for a state.
pub open spec fn client_state_byte(state: ClientState) -> u8 {
    match state {
        ClientState::NotConnected => 0,
        ClientState::Connected => 1,
        ClientState::Ready => 2,
        ClientState::Closed => 3,
    }
}

/// The state that a byte stands for.
pub open spec fn client_state_of(byte: u8) -> ClientState {
    if byte == 0 {
        ClientState::NotConnected
    } else if byte == 1 {
        ClientState::Connected
    } else if byte == 2 {
        ClientState::Ready
    } else {
        ClientState::Closed
    }
}

/// A cell that holds the state of a client in one byte. Tasks that share it keep it behind a
/// lock, so that each call is one indivisible step.
#[derive(Debug)]
pub struct AtomicClientState(u8);

impl View for AtomicClientState {
    type V = ClientState;

    closed spec fn view(&self) -> ClientState {
        client_state_of(self.0)
    }
}

impl AtomicClientState {
    /// The state of a new client.
    pub fn new() -> (cell: Self)
        ensures
            cell@ == ClientState::NotConnected,
    {
        AtomicClientState(0)
    }

    /// The state in the cell.
    pub fn load(&self) -> (state: ClientState)
        ensures
            state == self@,
    {
        match self.0 {
            0 => ClientState::NotConnected,
            1 => ClientState::Connected,
            2 => ClientState::Ready,
            _ => ClientState::Closed,
        }
    }

    /// Puts a state into the cell.
    pub fn store(&mut self, client_state: ClientState)
        ensures
            final(self)@ == client_state,
    {
        self.0 = match client_state {
            ClientState::NotConnected => 0,
            ClientState::Connected => 1,
            ClientState::Ready => 2,
            ClientState::Closed => 3,
        };
    }
}

/// The byte of a state stands for that state.
pub proof fn law_client_state_round_trip(state: ClientState)
    ensures
        client_state_of(client_state_byte(state)) == state,
{
}

/// A connection is up.
pub open spec fn is_running(state: ClientState) -> bool {
    state == ClientState::Ready || state == ClientState::Connected
}

/// Whether a connection is up.
pub fn running(s: &AtomicClientState) -> (up: bool)
    ensures
        up == is_running(s@),
{
    match s.load() {
        ClientState::Ready | ClientState::Connected => true,
        _ => false,
    }
}

/// A client of one server at a time.
pub struct S2cClient<'a> {
    s2c_options: &'a S2cOptions,
    context: &'a Context,
    inflight_requests: InflightRequests,
    throttle: bool,
    client_state: AtomicClientState,
}

/// The contents of an [`S2cClient`].
#[verifier::ext_equal]
pub struct ClientView {
    pub options: S2cOptions,
    pub context: ContextView,
    /// The requests that wait for a response.
    pub open: OpenRequests,
    /// The server asked for a pause.
    pub throttle: bool,
    pub state: ClientState,
}

impl<'a> View for S2cClient<'a> {
    type V = ClientView;

    closed spec fn view(&self) -> ClientView {
        ClientView {
            options: *self.s2c_options,
            context: self.context@,
            open: self.inflight_requests@,
            throttle: self.throttle,
            state: self.client_state@,
        }
    }
}

/// What has happened to a connection that is being set up.
pub enum ConnectEvent {
    /// No task that reads or writes for an earlier connection runs any more.
    TasksEnded { address: String },
    /// The server was reached.
    Dialed,
    /// The server was not reached in time.
    DialTimedOut,
    /// The server could not be reached, with the reason.
    DialFailed(String),
    /// The server answered the handshake.
    HandshakeDone,
    /// The handshake came to nothing.
    HandshakeFailed(ClientError),
}

/// What to do next to set up a connection.
pub enum ConnectAction {
    /// Wait until the tasks that read and write for an earlier connection have ended; the address
    /// is to be dialed then.
    AwaitTasks { address: String },
    /// Dial the address.
    Dial { address: String, timeout_ms: u64 },
    /// Start the tasks that read and write, and perform the handshake.
    Handshake { timeout_ms: u64 },
    /// Stop with this result.
    Finish(Result<(), ClientError>),
    /// Put an end mark into the queue of the writer, wait for the tasks, and stop with the error.
    ShutDown(ClientError),
}

/// How the wait for a response ended.
pub enum RequestOutcome {
    /// The request could not be queued.
    NotQueued,
    /// This is the reply.
    Replied(Reply),
    /// The request was given up without a reply.
    ReplyLost,
    /// There was no reply in time.
    TimedOut,
}

/// What the reading task has seen.
pub enum DrainInEvent {
    /// The task comes round.
    Turn,
    /// A message was read, or could not be.
    Received(Result<S2cMessage, NetworkError>),
    /// The end mark for the writer was queued.
    WriterSignalled,
}

/// What the reading task does next.
pub enum DrainInAction {
    /// Read the next message.
    Read,
    /// Come round again.
    Next,
    /// Hand a response over, and come round again.
    Deliver(Delivery),
    /// Hand the failures over, then put an end mark into the queue of the writer.
    SignalWriter(Vec<Delivery>),
    /// End.
    Stop,
}

/// What the writing task has seen.
pub enum DrainOutEvent {
    /// The task comes round.
    Turn,
    /// The pause is over.
    ThrottleElapsed,
    /// The queue gave a message, an end mark, or is at its end.
    Received(Option<Option<S2cMessage>>),
    /// A message was written, or could not be.
    Written(bool),
}

/// What the writing task does next.
pub enum DrainOutAction {
    /// Pause for that many milliseconds.
    Sleep(u64),
    /// Take the next message from the queue.
    Receive,
    /// Write a message.
    Write(S2cMessage),
    /// Come round again.
    Next,
    /// End.
    Stop,
}

/// The address to dial for a node.
pub open spec fn node_address(node: NodeIdentity) -> Seq<char> {
    node.address@ + ":"@ + signed_decimal(node.port as int)
}

impl ClientView {
    /// What the client does when it is told to connect to a server.
    pub open spec fn connect(self, server: NodeIdentity, action: ConnectAction) -> bool {
        if self.state == ClientState::NotConnected {
            action matches ConnectAction::AwaitTasks { address } && address@ == node_address(server)
        } else {
            action == ConnectAction::Finish(Ok(()))
        }
    }

    /// The next step of a connection that is being set up.
    pub open spec fn connect_action(self, event: ConnectEvent) -> ConnectAction {
        match event {
            ConnectEvent::TasksEnded { address } => ConnectAction::Dial {
                address,
                timeout_ms: self.options.network.connect_timeout_ms,
            },
            ConnectEvent::Dialed => ConnectAction::Handshake {
                timeout_ms: self.options.network.handshake_timeout_ms,
            },
            ConnectEvent::DialTimedOut => ConnectAction::Finish(Err(ClientError::ConnectTimeout)),
            ConnectEvent::DialFailed(err) => ConnectAction::Finish(Err(ClientError::Io(err))),
            ConnectEvent::HandshakeDone => ConnectAction::Finish(Ok(())),
            ConnectEvent::HandshakeFailed(err) => ConnectAction::ShutDown(err),
        }
    }

    /// The client after a step of a connection that is being set up.
    pub open spec fn after_connect(self, event: ConnectEvent) -> ClientView {
        match event {
            ConnectEvent::Dialed => ClientView { state: ClientState::Connected, ..self },
            ConnectEvent::HandshakeDone => ClientView { state: ClientState::Ready, ..self },
            ConnectEvent::HandshakeFailed(_) => ClientView {
                state: ClientState::NotConnected,
                ..self
            },
            _ => self,
        }
    }

    /// What the client says to a request.
    pub open spec fn send(self) -> Result<(), ClientError> {
        match self.state {
            ClientState::Closed => Err(ClientError::Closed),
            ClientState::NotConnected => Err(ClientError::NotConnected),
            _ => Ok(()),
        }
    }

    /// The client after a request was opened; its reply comes out of `receiver`.
    pub open spec fn after_request(
        self,
        correlation_id: Seq<char>,
        receiver: oneshot::Receiver<Reply>,
        after: ClientView,
    ) -> bool {
        &&& after == ClientView {
            open: self.open.insert(correlation_id, after.open[correlation_id]),
            ..self
        }
        &&& reply_halves(after.open[correlation_id], receiver)
    }

    /// What a request comes to.
    pub open spec fn request_result(self, outcome: RequestOutcome) -> Reply {
        match outcome {
            RequestOutcome::Replied(reply) => reply,
            RequestOutcome::TimedOut => Err(ClientError::Timeout),
            _ => Err(ClientError::NotConnected),
        }
    }

    /// The client after the wait for a response: a request that got none is given up, unless it
    /// was never queued.
    pub open spec fn after_outcome(self, correlation_id: Seq<char>, outcome: RequestOutcome) -> ClientView {
        match outcome {
            RequestOutcome::NotQueued | RequestOutcome::Replied(Ok(_)) => self,
            _ => ClientView { open: self.open.remove(correlation_id), ..self },
        }
    }

    /// A step of the reading task.
    pub open spec fn drain_in(self, event: DrainInEvent, after: ClientView, action: DrainInAction) -> bool {
        match event {
            DrainInEvent::Turn => after == self && action == if is_running(self.state) {
                DrainInAction::Read
            } else {
                DrainInAction::Stop
            },
            DrainInEvent::Received(Ok(message)) => if !is_running(self.state) {
                after == self && action == DrainInAction::Stop
            } else if message.error is Some {
                action == DrainInAction::Next && after == ClientView {
                    throttle: self.throttle || message.error->0 is SlowDownError,
                    ..self
                }
            } else {
                &&& after == ClientView { open: self.open.remove(message.correlation_id@), ..self }
                &&& action == if self.open.contains_key(message.correlation_id@) {
                    DrainInAction::Deliver(
                        Delivery {
                            sender: self.open[message.correlation_id@],
                            reply: Ok(message),
                        },
                    )
                } else {
                    DrainInAction::Next
                }
            },
            DrainInEvent::Received(Err(err)) => {
                &&& after == ClientView {
                    open: Map::<Seq<char>, oneshot::Sender<Reply>>::empty(),
                    ..self
                }
                &&& action matches DrainInAction::SignalWriter(deliveries)
                    && tells_of_read_failure(deliveries@, self.open, err)
            },
            DrainInEvent::WriterSignalled => action == DrainInAction::Stop && after == ClientView {
                state: ClientState::NotConnected,
                ..self
            },
        }
    }

    /// What the writing task does next.
    pub open spec fn drain_out_action(self, event: DrainOutEvent) -> DrainOutAction {
        match event {
            DrainOutEvent::Turn => if !is_running(self.state) {
                DrainOutAction::Stop
            } else if self.throttle {
                DrainOutAction::Sleep(self.options.network.throttle_delay_ms)
            } else {
                DrainOutAction::Receive
            },
            DrainOutEvent::ThrottleElapsed => DrainOutAction::Receive,
            DrainOutEvent::Received(Some(Some(message))) => if is_running(self.state) {
                DrainOutAction::Write(message)
            } else {
                DrainOutAction::Stop
            },
            DrainOutEvent::Received(_) => DrainOutAction::Stop,
            DrainOutEvent::Written(written) => if written {
                DrainOutAction::Next
            } else {
                DrainOutAction::Stop
            },
        }
    }

    /// The client after a step of the writing task.
    pub open spec fn after_drain_out(self, event: DrainOutEvent) -> ClientView {
        match event {
            DrainOutEvent::ThrottleElapsed => ClientView { throttle: false, ..self },
            DrainOutEvent::Written(false) => ClientView {
                state: ClientState::NotConnected,
                ..self
            },
            _ => self,
        }
    }
}

/// The error that open requests are told when reading fails.
pub open spec fn is_read_failure(told: ClientError, err: NetworkError) -> bool {
    told matches ClientError::Io(text) && text@ == network_error_text(err)
}

/// Every open request is told that reading failed.
pub open spec fn tells_of_read_failure(
    deliveries: Seq<Delivery>,
    open: OpenRequests,
    err: NetworkError,
) -> bool {
    exists|told: ClientError|
        #[trigger] is_read_failure(told, err) && fails_each(deliveries, open, told)
}

/// The error that open requests are told when reading fails.
pub fn read_failure(err: &NetworkError) -> (told: ClientError)
    ensures
        is_read_failure(told, *err),
{
    ClientError::Io(err.message())
}

/// The message is the handshake of a node.
pub open spec fn is_handshake_of(message: S2cMessage, context: ContextView) -> bool {
    &&& message.error is None
    &&& message.body matches Some(Body::Handshake(handshake))
    &&& handshake.group_id@ == context.s2c_group_id
    &&& handshake.node_identity == Some(context.node_identity)
}

impl<'a> S2cClient<'a> {
    /// A client that is not connected.
    pub fn new(
        s2c_options: &'a S2cOptions,
        context: &'a Context,
        inflight_requests: InflightRequests,
    ) -> (client: Self)
        ensures
            client@ == (ClientView {
                options: *s2c_options,
                context: context@,
                open: inflight_requests@,
                throttle: false,
                state: ClientState::NotConnected,
            }),
    {
        S2cClient {
            s2c_options,
            context,
            inflight_requests,
            throttle: false,
            client_state: AtomicClientState::new(),
        }
    }

    /// How far the client has come.
    pub fn state(&self) -> (state: ClientState)
        ensures
            state == self@.state,
    {
        self.client_state.load()
    }

    /// How many messages may wait in the queue of the writer.
    pub fn max_pending_requests(&self) -> (bound: usize)
        ensures
            bound == self@.options.network.max_pending_reqs_per_client,
    {
        self.s2c_options.network.max_pending_reqs_per_client
    }

    /// Starts to connect to a server; a client that is connected, or closed, stays as it is.
    pub fn connect(&self, server_node_id: &NodeIdentity) -> (action: ConnectAction)
        ensures
            self@.connect(*server_node_id, action),
    {
        if self.client_state.load() == ClientState::NotConnected {
            let mut address = join(server_node_id.address.as_str(), ":");
            address.append(signed_decimal_text(server_node_id.port).as_str());
            ConnectAction::AwaitTasks { address }
        } else {
            ConnectAction::Finish(Ok(()))
        }
    }

    /// Takes the next step of connecting.
    pub fn connect_step(&mut self, event: ConnectEvent) -> (action: ConnectAction)
        ensures
            action == old(self)@.connect_action(event),
            final(self)@ == old(self)@.after_connect(event),
    {
        match event {
            ConnectEvent::TasksEnded { address } => ConnectAction::Dial {
                address,
                timeout_ms: self.s2c_options.network.connect_timeout_ms,
            },
            ConnectEvent::Dialed => {
                self.client_state.store(ClientState::Connected);
                ConnectAction::Handshake {
                    timeout_ms: self.s2c_options.network.handshake_timeout_ms,
                }
            },
            ConnectEvent::DialTimedOut => ConnectAction::Finish(Err(ClientError::ConnectTimeout)),
            ConnectEvent::DialFailed(err) => ConnectAction::Finish(Err(ClientError::Io(err))),
            ConnectEvent::HandshakeDone => {
                self.client_state.store(ClientState::Ready);
                ConnectAction::Finish(Ok(()))
            },
            ConnectEvent::HandshakeFailed(err) => {
                self.client_state.store(ClientState::NotConnected);
                ConnectAction::ShutDown(err)
            },
        }
    }

    /// The handshake to send, under the given id.
    pub fn handshake_message(&self, correlation_id: String) -> (message: S2cMessage)
        ensures
            is_handshake_of(message, self@.context),
            message.correlation_id == correlation_id,
    {
        S2cMessage {
            correlation_id,
            body: Some(
                Body::Handshake(
                    Handshake {
                        group_id: self.context.s2c_group_id().to_owned(),
                        node_identity: Some(self.context.node_identity().clone()),
                    },
                ),
            ),
            error: None,
        }
    }

    /// The handshake to send, under a new random id.
    pub fn handshake(&self) -> (message: S2cMessage)
        ensures
            is_handshake_of(message, self@.context),
            is_random_uuid(message.correlation_id@),
    {
        self.handshake_message(new_correlation_id())
    }

    /// Whether a request can be sent, or why not.
    pub fn send(&self) -> (allowed: Result<(), ClientError>)
        ensures
            allowed == self@.send(),
    {
        let state = self.client_state.load();
        if state == ClientState::Closed {
            return Err(ClientError::Closed);
        }
        if state == ClientState::NotConnected {
            return Err(ClientError::NotConnected);
        }
        Ok(())
    }

    /// Opens the request that a message makes; the reply comes out of the channel that is
    /// returned.
    pub fn start_request(&mut self, message: &S2cMessage) -> (receiver: oneshot::Receiver<Reply>)
        ensures
            old(self)@.after_request(message.correlation_id@, receiver, final(self)@),
    {
        self.inflight_requests.add(message.correlation_id.clone())
    }

    /// What a request comes to, once the wait for its response has ended.
    pub fn finish_request(&mut self, correlation_id: String, outcome: RequestOutcome) -> (result: Reply)
        ensures
            result == old(self)@.request_result(outcome),
            outcome matches RequestOutcome::Replied(reply) ==> result == reply,
            final(self)@ == old(self)@.after_outcome(correlation_id@, outcome),
    {
        match outcome {
            RequestOutcome::NotQueued => Err(ClientError::NotConnected),
            RequestOutcome::Replied(Ok(response)) => Ok(response),
            RequestOutcome::Replied(Err(err)) => {
                self.inflight_requests.discard(correlation_id);
                Err(err)
            },
            RequestOutcome::ReplyLost => {
                self.inflight_requests.discard(correlation_id);
                Err(ClientError::NotConnected)
            },
            RequestOutcome::TimedOut => {
                self.inflight_requests.discard(correlation_id);
                Err(ClientError::Timeout)
            },
        }
    }

    /// Takes a step of the reading task.
    pub fn drain_in(&mut self, event: DrainInEvent) -> (action: DrainInAction)
        ensures
            old(self)@.drain_in(event, final(self)@, action),
    {
        match event {
            DrainInEvent::Turn => {
                if !running(&self.client_state) {
                    return DrainInAction::Stop;
                }
                DrainInAction::Read
            },
            DrainInEvent::Received(Ok(message)) => {
                if !running(&self.client_state) {
                    return DrainInAction::Stop;
                }
                match &message.error {
                    Some(error) => {
                        match error {
                            Error::SlowDownError(_) => {
                                self.throttle = true;
                            },
                            _ => {},
                        }
                        DrainInAction::Next
                    },
                    None => match self.inflight_requests.take_reply(message) {
                        Some(delivery) => DrainInAction::Deliver(delivery),
                        None => DrainInAction::Next,
                    },
                }
            },
            DrainInEvent::Received(Err(err)) => {
                let told = read_failure(&err);
                let deliveries = self.inflight_requests.take_failures(&told);
                assert(is_read_failure(told, err) && fails_each(
                    deliveries@,
                    old(self)@.open,
                    told,
                ));
                DrainInAction::SignalWriter(deliveries)
            },
            DrainInEvent::WriterSignalled => {
                self.client_state.store(ClientState::NotConnected);
                DrainInAction::Stop
            },
        }
    }

    /// Takes a step of the writing task.
    pub fn drain_out(&mut self, event: DrainOutEvent) -> (action: DrainOutAction)
        ensures
            action == old(self)@.drain_out_action(event),
            final(self)@ == old(self)@.after_drain_out(event),
    {
        match event {
            DrainOutEvent::Turn => {
                if !running(&self.client_state) {
                    return DrainOutAction::Stop;
                }
                if self.throttle {
                    return DrainOutAction::Sleep(self.s2c_options.network.throttle_delay_ms);
                }
                DrainOutAction::Receive
            },
            DrainOutEvent::ThrottleElapsed => {
                self.throttle = false;
                DrainOutAction::Receive
            },
            DrainOutEvent::Received(received) => match received {
                Some(Some(message)) => {
                    if !running(&self.client_state) {
                        return DrainOutAction::Stop;
                    }
                    DrainOutAction::Write(message)
                },
                _ => DrainOutAction::Stop,
            },
            DrainOutEvent::Written(written) => {
                if !written {
                    self.client_state.store(ClientState::NotConnected);
                    return DrainOutAction::Stop;
                }
                DrainOutAction::Next
            },
        }
    }

    /// Closes the client. Unless it was closed already, an end mark is to be put into the queue
    /// of the writer, and the tasks are to be waited for.
    pub fn close(&mut self) -> (closed_now: bool)
        ensures
            closed_now == (old(self)@.state != ClientState::Closed),
            final(self)@ == (ClientView { state: ClientState::Closed, ..old(self)@ }),
    {
        if self.client_state.load() != ClientState::Closed {
            self.client_state.store(ClientState::Closed);
            true
        } else {
            false
        }
    }
}

/// The handshake that a reply brings.
pub fn handshake_result(reply: Reply) -> (result: Result<Handshake, ClientError>)
    requires
        reply matches Ok(response) ==> response.body matches Some(Body::Handshake(_)),
    ensures
        match reply {
            Ok(response) => response.body == Some(Body::Handshake(result->Ok_0)) && result is Ok,
            Err(err) => result == Err::<Handshake, ClientError>(err),
        },
{
    match reply {
        Ok(response) => match response.body {
            Some(Body::Handshake(handshake)) => Ok(handshake),
            _ => vstd::pervasive::unreached(),
        },
        Err(err) => Err(err),
    }
}

/// A closed client refuses every request, does not start to connect, and lets its tasks end. It
/// stays closed whatever its tasks see, but for a failure to read or write that comes in late;
/// and of a connection that was being set up when it was closed, only reaching the server and the
/// end of the handshake change it.
pub proof fn law_closed_client_rests(client: ClientView)
    requires
        client.state == ClientState::Closed,
    ensures
        client.send() == Err::<(), ClientError>(ClientError::Closed),
        forall|server: NodeIdentity, action: ConnectAction|
            #[trigger] client.connect(server, action) ==> action == ConnectAction::Finish(Ok(())),
        forall|event: ConnectEvent|
            event !is Dialed && event !is HandshakeDone && event !is HandshakeFailed ==> (
            #[trigger] client.after_connect(event)) == client,
        forall|after: ClientView, action: DrainInAction|
            #[trigger] client.drain_in(DrainInEvent::Turn, after, action) ==> after == client
                && action == DrainInAction::Stop,
        forall|message: S2cMessage, after: ClientView, action: DrainInAction|
            #[trigger] client.drain_in(DrainInEvent::Received(Ok(message)), after, action)
                ==> after == client && action == DrainInAction::Stop,
        forall|event: DrainInEvent, after: ClientView, action: DrainInAction|
            #[trigger] client.drain_in(event, after, action) && event !is WriterSignalled
                ==> after.state == ClientState::Closed,
        client.drain_out_action(DrainOutEvent::Turn) == DrainOutAction::Stop,
        forall|message: Option<Option<S2cMessage>>| #[trigger]
            client.drain_out_action(DrainOutEvent::Received(message)) == DrainOutAction::Stop,
        forall|event: DrainOutEvent|
            event != DrainOutEvent::Written(false) ==> (
            #[trigger] client.after_drain_out(event)).state == ClientState::Closed,
{
}

/// Requests are let through exactly while a connection is up, and a client gets ready by a
/// handshake alone.
pub proof fn law_requests_need_a_connection(client: ClientView)
    ensures
        client.send() is Ok <==> is_running(client.state),
        client.state == ClientState::NotConnected ==> client.send() == Err::<(), ClientError>(
            ClientError::NotConnected,
        ),
        forall|event: ConnectEvent|
            (#[trigger] client.after_connect(event)).state == ClientState::Ready ==> event
                == ConnectEvent::HandshakeDone || client.state == ClientState::Ready,
        forall|event: DrainInEvent, after: ClientView, action: DrainInAction|
            #[trigger] client.drain_in(event, after, action) && after.state == ClientState::Ready
                ==> client.state == ClientState::Ready,
        forall|event: DrainOutEvent|
            (#[trigger] client.after_drain_out(event)).state == ClientState::Ready ==> client.state
                == ClientState::Ready,
{
}

/// No step changes what the client was set up with, and connecting and writing leave the open
/// requests alone.
pub proof fn law_client_keeps_its_setup(client: ClientView)
    ensures
        forall|event: ConnectEvent|
            {
                let after = #[trigger] client.after_connect(event);
                &&& after.options == client.options
                &&& after.context == client.context
                &&& after.open == client.open
            },
        forall|correlation_id: Seq<char>, outcome: RequestOutcome|
            {
                let after = #[trigger] client.after_outcome(correlation_id, outcome);
                &&& after.options == client.options
                &&& after.context == client.context
                &&& after.state == client.state
            },
        forall|event: DrainInEvent, after: ClientView, action: DrainInAction|
            #[trigger] client.drain_in(event, after, action) ==> after.options == client.options
                && after.context == client.context,
        forall|event: DrainOutEvent|
            {
                let after = #[trigger] client.after_drain_out(event);
                &&& after.options == client.options
                &&& after.context == client.context
                &&& after.open == client.open
            },
{
}

/// Tasks that read and write may run after these events of connecting, over any number of
/// connections: they are started once the server was reached, and run until they are found to
/// have ended.
pub open spec fn tasks_may_run(history: Seq<ConnectEvent>) -> bool
    decreases history.len(),
{
    if history.len() == 0 {
        false
    } else {
        match history.last() {
            ConnectEvent::Dialed => true,
            ConnectEvent::TasksEnded { .. } => false,
            _ => tasks_may_run(history.drop_last()),
        }
    }
}

/// No task of an earlier connection runs when a client dials, whatever came before: being told to
/// connect leads to waiting for the tasks, only their end leads to dialing, and only reaching the
/// server leads to tasks being started.
pub proof fn law_no_earlier_task_runs_when_dialing(
    client: ClientView,
    history: Seq<ConnectEvent>,
    event: ConnectEvent,
)
    ensures
        forall|server: NodeIdentity, action: ConnectAction|
            #[trigger] client.connect(server, action) ==> action !is Dial,
        client.connect_action(event) is Dial <==> event is TasksEnded,
        client.connect_action(event) is Handshake <==> event is Dialed,
        client.connect_action(event) is Dial ==> !tasks_may_run(history.push(event)),
        !tasks_may_run(history) && event !is Dialed ==> !tasks_may_run(history.push(event)),
{
    assert(history.push(event).drop_last() =~= history);
}

/// Setting up a connection: waiting for earlier tasks, dialing and the handshake take the client from not connected to
/// ready; where one of them fails, the client is not connected, and the caller is told why.
pub proof fn law_connecting(
    client: ClientView,
    server: NodeIdentity,
    begun: ConnectAction,
    err: ClientError,
    reason: String,
)
    requires
        client.state == ClientState::NotConnected,
        client.connect(server, begun),
    ensures
        ({
            &&& begun matches ConnectAction::AwaitTasks { address }
            &&& address@ == node_address(server)
            &&& client.after_connect(ConnectEvent::TasksEnded { address }) == client
            &&& client.connect_action(ConnectEvent::TasksEnded { address }) == ConnectAction::Dial {
                address,
                timeout_ms: client.options.network.connect_timeout_ms,
            }
        }),
        ({
            let dialed = client.after_connect(ConnectEvent::Dialed);
            &&& is_running(dialed.state)
            &&& dialed.after_connect(ConnectEvent::HandshakeDone) == ClientView {
                state: ClientState::Ready,
                ..client
            }
            &&& dialed.after_connect(ConnectEvent::HandshakeFailed(err)) == client
            &&& dialed.connect_action(ConnectEvent::HandshakeFailed(err)) == ConnectAction::ShutDown(
                err,
            )
            &&& client.after_connect(ConnectEvent::DialTimedOut) == client
            &&& client.after_connect(ConnectEvent::DialFailed(reason)) == client
            &&& client.connect_action(ConnectEvent::DialFailed(reason)) == ConnectAction::Finish(
                Err(ClientError::Io(reason)),
            )
        }),
{
}

/// The response to a request that was opened reaches whoever waits for it, and closes that
/// request and no other; a further response under the same id reaches nobody.
pub proof fn law_response_reaches_its_request(
    client: ClientView,
    request: S2cMessage,
    receiver: oneshot::Receiver<Reply>,
    waiting: ClientView,
    response: S2cMessage,
    after: ClientView,
    action: DrainInAction,
    again: S2cMessage,
    later: ClientView,
    last: DrainInAction,
)
    requires
        is_running(client.state),
        client.after_request(request.correlation_id@, receiver, waiting),
        response.correlation_id@ == request.correlation_id@,
        response.error is None,
        waiting.drain_in(DrainInEvent::Received(Ok(response)), after, action),
        again.correlation_id@ == request.correlation_id@,
        again.error is None,
        after.drain_in(DrainInEvent::Received(Ok(again)), later, last),
    ensures
        action matches DrainInAction::Deliver(delivery) && reply_halves(delivery.sender, receiver)
            && delivery.reply == Ok::<S2cMessage, ClientError>(response),
        after == (ClientView { open: client.open.remove(request.correlation_id@), ..client }),
        last == DrainInAction::Next,
        later == after,
{
    assert(after.open =~= client.open.remove(request.correlation_id@));
    assert(later.open =~= after.open);
}

/// A request that was opened under an id of its own, and got no response, leaves nothing behind.
pub proof fn law_unanswered_request_is_forgotten(
    client: ClientView,
    correlation_id: Seq<char>,
    receiver: oneshot::Receiver<Reply>,
    waiting: ClientView,
    err: ClientError,
)
    requires
        client.after_request(correlation_id, receiver, waiting),
        !client.open.contains_key(correlation_id),
    ensures
        waiting.after_outcome(correlation_id, RequestOutcome::TimedOut) == client,
        waiting.after_outcome(correlation_id, RequestOutcome::ReplyLost) == client,
        waiting.after_outcome(correlation_id, RequestOutcome::Replied(Err(err))) == client,
        waiting.request_result(RequestOutcome::TimedOut) == Err::<S2cMessage, ClientError>(
            ClientError::Timeout,
        ),
        waiting.request_result(RequestOutcome::ReplyLost) == Err::<S2cMessage, ClientError>(
            ClientError::NotConnected,
        ),
{
    assert(waiting.open.remove(correlation_id) =~= client.open);
}

/// When the server asks to slow down, no request is answered by that, and the next turn of the
/// writer is a pause, after which it goes on as before.
pub proof fn law_slow_down_pauses_the_writer(
    client: ClientView,
    message: S2cMessage,
    after: ClientView,
    action: DrainInAction,
)
    requires
        is_running(client.state),
        message.error matches Some(Error::SlowDownError(_)),
        client.drain_in(DrainInEvent::Received(Ok(message)), after, action),
    ensures
        action == DrainInAction::Next,
        after == (ClientView { throttle: true, ..client }),
        after.drain_out_action(DrainOutEvent::Turn) == DrainOutAction::Sleep(
            client.options.network.throttle_delay_ms,
        ),
        after.drain_out_action(DrainOutEvent::ThrottleElapsed) == DrainOutAction::Receive,
        after.after_drain_out(DrainOutEvent::ThrottleElapsed) == (ClientView {
            throttle: false,
            ..client
        }),
{
}

/// When reading fails, every open request is told, none stays open, and from then on requests
/// are refused until the client connects again.
pub proof fn law_lost_connection_fails_every_request(
    client: ClientView,
    err: NetworkError,
    failed: ClientView,
    action: DrainInAction,
    after: ClientView,
    last: DrainInAction,
)
    requires
        client.drain_in(DrainInEvent::Received(Err(err)), failed, action),
        failed.drain_in(DrainInEvent::WriterSignalled, after, last),
    ensures
        action matches DrainInAction::SignalWriter(deliveries) && tells_of_read_failure(
            deliveries@,
            client.open,
            err,
        ),
        after.open == Map::<Seq<char>, oneshot::Sender<Reply>>::empty(),
        last == DrainInAction::Stop,
        after.send() == Err::<(), ClientError>(ClientError::NotConnected),
        after.drain_out_action(DrainOutEvent::Turn) == DrainOutAction::Stop,
{
}

/// A request that was replied to comes to exactly its reply, a response or an error, in whatever
/// state the client is; one that was not comes to an error that says why.
pub proof fn law_replied_request_gets_its_reply(client: ClientView, reply: Reply)
    ensures
        client.request_result(RequestOutcome::Replied(reply)) == reply,
        client.request_result(RequestOutcome::TimedOut) == Err::<S2cMessage, ClientError>(
            ClientError::Timeout,
        ),
        client.request_result(RequestOutcome::ReplyLost) == Err::<S2cMessage, ClientError>(
            ClientError::NotConnected,
        ),
        client.request_result(RequestOutcome::NotQueued) == Err::<S2cMessage, ClientError>(
            ClientError::NotConnected,
        ),
{
}

/// The end of one request touches no other request, nor anything else of the client: a response,
/// or a request that was never queued, leaves the client as it is; every other end closes the
/// request.
pub proof fn law_end_of_a_request_touches_no_other(
    client: ClientView,
    correlation_id: Seq<char>,
    other: Seq<char>,
    outcome: RequestOutcome,
)
    requires
        other != correlation_id,
    ensures
        ({
            let after = client.after_outcome(correlation_id, outcome);
            let kept = outcome is NotQueued || (outcome is Replied && outcome->Replied_0 is Ok);
            &&& kept ==> after == client
            &&& !kept ==> !after.open.contains_key(correlation_id)
            &&& after.open.contains_key(other) == client.open.contains_key(other)
            &&& client.open.contains_key(other) ==> after.open[other] == client.open[other]
            &&& after.state == client.state
            &&& after.throttle == client.throttle
            &&& after.options == client.options
            &&& after.context == client.context
        }),
{
}

/// Opening a request touches no other request, nor anything else of the client, and ties the
/// request to the channel that its reply comes out of.
pub proof fn law_opened_request_has_its_channel(
    client: ClientView,
    correlation_id: Seq<char>,
    other: Seq<char>,
    receiver: oneshot::Receiver<Reply>,
    after: ClientView,
)
    requires
        other != correlation_id,
        client.after_request(correlation_id, receiver, after),
    ensures
        after.open.contains_key(correlation_id),
        reply_halves(after.open[correlation_id], receiver),
        after.open.contains_key(other) == client.open.contains_key(other),
        client.open.contains_key(other) ==> after.open[other] == client.open[other],
        after.state == client.state,
        after.throttle == client.throttle,
        after.options == client.options,
        after.context == client.context,
{
}

/// A message without an error that comes in over a connection is delivered, unchanged, through
/// the channel of the request with its correlation id, and closes that request alone; where there
/// is no such request, nothing happens.
pub proof fn law_message_is_delivered_to_its_request(
    client: ClientView,
    message: S2cMessage,
    after: ClientView,
    action: DrainInAction,
    other: Seq<char>,
)
    requires
        client.state == ClientState::Connected || client.state == ClientState::Ready,
        message.error is None,
        client.drain_in(DrainInEvent::Received(Ok(message)), after, action),
        other != message.correlation_id@,
    ensures
        client.open.contains_key(message.correlation_id@) ==> (action matches DrainInAction::Deliver(
            delivery,
        ) && delivery.sender == client.open[message.correlation_id@] && delivery.reply == Ok::<
            S2cMessage,
            ClientError,
        >(message)),
        !client.open.contains_key(message.correlation_id@) ==> action == DrainInAction::Next,
        !after.open.contains_key(message.correlation_id@),
        after.open.contains_key(other) == client.open.contains_key(other),
        client.open.contains_key(other) ==> after.open[other] == client.open[other],
        after.state == client.state,
        after.throttle == client.throttle,
{
}

/// A message with an error answers no request: every request stays open, and the client goes on.
/// It asks for a pause exactly where the error is that the server cannot keep up.
pub proof fn law_error_message_answers_nobody(
    client: ClientView,
    message: S2cMessage,
    after: ClientView,
    action: DrainInAction,
)
    requires
        client.state == ClientState::Connected || client.state == ClientState::Ready,
        message.error is Some,
        client.drain_in(DrainInEvent::Received(Ok(message)), after, action),
    ensures
        action == DrainInAction::Next,
        after.open == client.open,
        after.state == client.state,
        message.error matches Some(Error::SlowDownError(_)) ==> after.throttle,
        message.error matches Some(Error::Other(_)) ==> after.throttle == client.throttle,
{
}

/// The reading task reads exactly while a connection is up, and a message that comes in after
/// that changes nothing.
pub proof fn law_reader_reads_while_connected(
    client: ClientView,
    message: S2cMessage,
    after: ClientView,
    action: DrainInAction,
)
    ensures
        client.drain_in(DrainInEvent::Turn, after, action) ==> after == client && match client.state {
            ClientState::Connected => action == DrainInAction::Read,
            ClientState::Ready => action == DrainInAction::Read,
            ClientState::NotConnected => action == DrainInAction::Stop,
            ClientState::Closed => action == DrainInAction::Stop,
        },
        client.drain_in(DrainInEvent::Received(Ok(message)), after, action) && (client.state
            == ClientState::NotConnected || client.state == ClientState::Closed) ==> after == client
            && action == DrainInAction::Stop,
{
}

/// When reading fails, each open request is told so once, through its own channel and with the
/// text of the failure, and nobody else is; nothing but the open requests changes until the
/// writer was signalled, and then nothing but the state.
pub proof fn law_each_request_is_told_of_a_lost_connection(
    client: ClientView,
    err: NetworkError,
    failed: ClientView,
    action: DrainInAction,
    after: ClientView,
    last: DrainInAction,
)
    requires
        client.drain_in(DrainInEvent::Received(Err(err)), failed, action),
        failed.drain_in(DrainInEvent::WriterSignalled, after, last),
    ensures
        action matches DrainInAction::SignalWriter(deliveries) && {
            &&& deliveries@.len() == client.open.len()
            &&& forall|correlation_id: Seq<char>| #[trigger]
                client.open.contains_key(correlation_id) ==> exists|i: int|
                    0 <= i < deliveries@.len() && (#[trigger] deliveries@[i]).sender
                        == client.open[correlation_id]
            &&& forall|i: int|
                #![trigger deliveries@[i]]
                0 <= i < deliveries@.len() ==> {
                    &&& exists|correlation_id: Seq<char>| #[trigger]
                        client.open.contains_key(correlation_id) && client.open[correlation_id]
                            == deliveries@[i].sender
                    &&& deliveries@[i].reply matches Err(ClientError::Io(text)) && text@
                        == network_error_text(err)
                }
        },
        forall|correlation_id: Seq<char>| !failed.open.contains_key(correlation_id),
        failed.state == client.state,
        failed.throttle == client.throttle,
        last == DrainInAction::Stop,
        after.state == ClientState::NotConnected,
        after.open == failed.open,
        after.throttle == failed.throttle,
{
    let deliveries = action->SignalWriter_0@;
    let told = choose|told: ClientError|
        #[trigger] is_read_failure(told, err) && fails_each(deliveries, client.open, told);
    law_every_request_is_told(deliveries, client.open, told);
}

/// The writing task writes every message that its queue gives while a connection is up, as it is,
/// and ends at an end mark, at the end of the queue, or with the connection. It pauses exactly
/// when a pause was asked for, for as long as the options say. A failed write, and nothing else
/// that it does, loses the connection.
pub proof fn law_writer_writes_while_connected(client: ClientView, message: S2cMessage)
    ensures
        ({
            let up = client.state == ClientState::Connected || client.state == ClientState::Ready;
            let next = client.drain_out_action(DrainOutEvent::Turn);
            &&& !up ==> next == DrainOutAction::Stop
            &&& up && client.throttle ==> next == DrainOutAction::Sleep(
                client.options.network.throttle_delay_ms,
            )
            &&& up && !client.throttle ==> next == DrainOutAction::Receive
            &&& client.drain_out_action(DrainOutEvent::Received(Some(Some(message)))) == if up {
                DrainOutAction::Write(message)
            } else {
                DrainOutAction::Stop
            }
        }),
        client.drain_out_action(DrainOutEvent::ThrottleElapsed) == DrainOutAction::Receive,
        client.drain_out_action(DrainOutEvent::Received(Some(None))) == DrainOutAction::Stop,
        client.drain_out_action(DrainOutEvent::Received(None)) == DrainOutAction::Stop,
        client.drain_out_action(DrainOutEvent::Written(true)) == DrainOutAction::Next,
        client.drain_out_action(DrainOutEvent::Written(false)) == DrainOutAction::Stop,
        client.after_drain_out(DrainOutEvent::Turn) == client,
        forall|received: Option<Option<S2cMessage>>| #[trigger]
            client.after_drain_out(DrainOutEvent::Received(received)) == client,
        client.after_drain_out(DrainOutEvent::Written(true)) == client,
        ({
            let lost = client.after_drain_out(DrainOutEvent::Written(false));
            &&& lost.state == ClientState::NotConnected
            &&& lost.open == client.open
            &&& lost.throttle == client.throttle
        }),
        ({
            let resumed = client.after_drain_out(DrainOutEvent::ThrottleElapsed);
            &&& !resumed.throttle
            &&& resumed.state == client.state
            &&& resumed.open == client.open
        }),
{
}

/// Each step of connecting, in whatever state: the caller is told exactly what came of it, the
/// limits are those of the options, and the state follows the connection.
pub proof fn law_connection_steps(
    client: ClientView,
    address: String,
    reason: String,
    err: ClientError,
)
    ensures
        client.connect_action(ConnectEvent::TasksEnded { address }) matches ConnectAction::Dial {
            address: dialed,
            timeout_ms,
        } && dialed == address && timeout_ms == client.options.network.connect_timeout_ms,
        client.connect_action(ConnectEvent::Dialed) matches ConnectAction::Handshake { timeout_ms }
            && timeout_ms == client.options.network.handshake_timeout_ms,
        client.connect_action(ConnectEvent::DialTimedOut) == ConnectAction::Finish(
            Err(ClientError::ConnectTimeout),
        ),
        client.connect_action(ConnectEvent::DialFailed(reason)) == ConnectAction::Finish(
            Err(ClientError::Io(reason)),
        ),
        client.connect_action(ConnectEvent::HandshakeDone) == ConnectAction::Finish(Ok(())),
        client.connect_action(ConnectEvent::HandshakeFailed(err)) == ConnectAction::ShutDown(err),
        client.after_connect(ConnectEvent::TasksEnded { address }).state == client.state,
        client.after_connect(ConnectEvent::Dialed).state == ClientState::Connected,
        client.after_connect(ConnectEvent::DialTimedOut).state == client.state,
        client.after_connect(ConnectEvent::DialFailed(reason)).state == client.state,
        client.after_connect(ConnectEvent::HandshakeDone).state == ClientState::Ready,
        client.after_connect(ConnectEvent::HandshakeFailed(err)).state == ClientState::NotConnected,
        forall|event: ConnectEvent|
            (#[trigger] client.after_connect(event)).throttle == client.throttle,
{
}

/// A client starts to connect exactly where it is not connected, and to the server that it was
/// told; in every other state it is left alone, without an error. A request is refused exactly
/// where there is no connection, with the reason.
pub proof fn law_state_decides_on_connecting_and_sending(
    client: ClientView,
    server: NodeIdentity,
    action: ConnectAction,
)
    requires
        client.connect(server, action),
    ensures
        client.state == ClientState::NotConnected ==> (action matches ConnectAction::AwaitTasks {
            address,
        } && address@ == server.address@ + ":"@ + signed_decimal(server.port as int)),
        client.state != ClientState::NotConnected ==> action == ConnectAction::Finish(Ok(())),
        match client.state {
            ClientState::NotConnected => client.send() == Err::<(), ClientError>(
                ClientError::NotConnected,
            ),
            ClientState::Connected => client.send() == Ok::<(), ClientError>(()),
            ClientState::Ready => client.send() == Ok::<(), ClientError>(()),
            ClientState::Closed => client.send() == Err::<(), ClientError>(ClientError::Closed),
        },
        is_running(client.state) <==> client.send() is Ok,
{
}

/// The address of a node begins with the node's host, and what follows a colon is its port.
pub proof fn law_address_names_host_and_port(node: NodeIdentity)
    ensures
        ({
            let host = node.address@.len() as int;
            &&& node_address(node).len() > host
            &&& node_address(node).take(host) == node.address@
            &&& node_address(node)[host] == ':'
            &&& node_address(node).skip(host + 1) == signed_decimal(node.port as int)
        }),
{
    reveal_strlit(":");
    let host = node.address@.len() as int;
    assert(node_address(node).take(host) =~= node.address@);
    assert(node_address(node).skip(host + 1) =~= signed_decimal(node.port as int));
}

/// A handshake says who sends it, to which group, and reports no error.
pub proof fn law_handshake_names_group_and_node(message: S2cMessage, context: ContextView)
    requires
        is_handshake_of(message, context),
    ensures
        message.error is None,
        message.body is Some,
        message.body->0 is Handshake,
        message.body->0->Handshake_0.group_id@ == context.s2c_group_id,
        message.body->0->Handshake_0.node_identity == Some(context.node_identity),
{
}

/// What requests are told of a failed read is the text of the failure, and always the same text
/// for the same failure.
pub proof fn law_read_failure_carries_the_text(told: ClientError, again: ClientError, err: NetworkError)
    requires
        is_read_failure(told, err),
        is_read_failure(again, err),
    ensures
        told matches ClientError::Io(text) && text@ == network_error_text(err),
        told->Io_0@ == again->Io_0@,
{
}

} // verus!
