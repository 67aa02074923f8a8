//! The server side of one group: it passes the messages of its clients on, and brings messages
//! back to them. The server decides; whoever drives it reads, writes and waits, and reports each
//! outcome as an event.

use vstd::prelude::*;

use crate::network::channel::{
    queue_halves, queued, queued_in_bounds, send_unbounded, try_send, unbounded_queue, SendOutcome,
};
use crate::network::client::{
    is_running, law_slow_down_pauses_the_writer, ClientView, DrainInAction, DrainInEvent,
    DrainOutAction, DrainOutEvent,
};
use crate::network::correlation::{is_random_uuid, new_correlation_id};
use crate::network::envelope::S2cMessageEnvelope;
use crate::network::error::NetworkError;
use crate::proto::io::{Body, Error, NodeIdentity, NodeIdentityView, S2cMessage};
use crate::registry::{Key, Registry};
use std::sync::Arc;
use tokio::sync::mpsc;

verus! {

impl Key for Arc<NodeIdentity> {
    fn same_key(&self, other: &Self) -> (same: bool) {
        (**self).same_key(&**other)
    }
}

/// The way into a queue without a bound.
pub type QueueSender = Arc<mpsc::UnboundedSender<S2cMessageEnvelope>>;

/// The way into a queue with a bound.
pub type BoundedSender = Arc<mpsc::Sender<S2cMessageEnvelope>>;

/// The clients of a group by identity, each with the way into its queue.
pub type ClientSenders = Registry<Arc<NodeIdentity>, QueueSender>;

/// The contents of [`ClientSenders`].
pub type ClientMap = Map<NodeIdentityView, QueueSender>;

/// The server of one group.
pub struct GroupServer {
    group_id: String,
    follow_sender: QueueSender,
    state_request_sender: BoundedSender,
    synchronize_sender: QueueSender,
    running: bool,
    clients_senders: ClientSenders,
}

/// The contents of a [`GroupServer`].
#[verifier::ext_equal]
pub struct GroupServerView {
    pub group_id: Seq<char>,
    pub follow_sender: QueueSender,
    pub state_request_sender: BoundedSender,
    pub synchronize_sender: QueueSender,
    pub running: bool,
    pub clients: ClientMap,
}

impl View for GroupServer {
    type V = GroupServerView;

    closed spec fn view(&self) -> GroupServerView {
        GroupServerView {
            group_id: self.group_id@,
            follow_sender: self.follow_sender,
            state_request_sender: self.state_request_sender,
            synchronize_sender: self.synchronize_sender,
            running: self.running,
            clients: self.clients_senders@,
        }
    }
}

/// An envelope and the queue without a bound that it goes into.
pub struct Outgoing {
    pub sender: QueueSender,
    pub envelope: S2cMessageEnvelope,
}

impl Outgoing {
    /// Puts the envelope into the queue, which is never full; one that nobody reads any more
    /// gives it back.
    pub fn send(self) -> (outcome: SendOutcome)
        ensures
            queued(*self.sender, self.envelope, outcome),
            outcome !is Full,
            outcome matches SendOutcome::Closed(back) ==> back == self.envelope,
    {
        send_unbounded(&*self.sender, self.envelope)
    }
}

/// An envelope from a client and the queue that it goes into.
pub enum Forward {
    Follow(Outgoing),
    Synchronize(Outgoing),
    StateRequest { sender: BoundedSender, envelope: S2cMessageEnvelope },
}

impl Forward {
    /// The envelope.
    pub open spec fn envelope(self) -> S2cMessageEnvelope {
        match self {
            Forward::Follow(outgoing) | Forward::Synchronize(outgoing) => outgoing.envelope,
            Forward::StateRequest { envelope, .. } => envelope,
        }
    }

    /// Putting the envelope into its queue can end with `outcome`.
    pub open spec fn sent(self, outcome: SendOutcome) -> bool {
        match self {
            Forward::Follow(outgoing) | Forward::Synchronize(outgoing) => queued(
                *outgoing.sender,
                outgoing.envelope,
                outcome,
            ),
            Forward::StateRequest { sender, envelope } => queued_in_bounds(
                *sender,
                envelope,
                outcome,
            ),
        }
    }

    /// Puts the envelope into the queue. Only the queue of state requests can be full, and an
    /// envelope that a queue does not take comes back.
    pub fn send(self) -> (outcome: SendOutcome)
        ensures
            self.sent(outcome),
            outcome matches SendOutcome::Full(back) ==> self is StateRequest && back
                == self.envelope(),
            outcome matches SendOutcome::Closed(back) ==> back == self.envelope(),
    {
        match self {
            Forward::Follow(outgoing) => outgoing.send(),
            Forward::Synchronize(outgoing) => outgoing.send(),
            Forward::StateRequest { sender, envelope } => try_send(&*sender, envelope),
        }
    }
}

/// What the task that reads from a client has seen.
pub enum ReadLoopEvent {
    /// The task comes round.
    Turn,
    /// A message was read, or could not be.
    Received(Result<S2cMessage, NetworkError>),
    /// A message was put into a queue, or could not be.
    Forwarded(SendOutcome),
    /// The request to slow down was passed on, or could not be.
    SlowDownSent(bool),
}

/// What the task that reads from a client does next.
pub enum ReadLoopAction {
    /// Read the next message.
    Read,
    /// Come round again.
    Next,
    /// Put an envelope into a queue.
    Forward(Forward),
    /// Pass on an envelope that asks the client to slow down.
    SlowDown(S2cMessageEnvelope),
    /// Call all tasks of the group off, and end.
    Cancel,
    /// End.
    Stop,
}

/// What the task that writes to a client has seen.
pub enum WriteLoopEvent {
    /// The task comes round.
    Turn,
    /// The queue of the client gave an envelope, or is at its end.
    Received(Option<S2cMessageEnvelope>),
    /// A message was written, or could not be.
    Written(bool),
}

/// What the task that writes to a client does next.
pub enum WriteLoopAction {
    /// Take the next envelope from the queue of the client.
    Receive,
    /// Write a message.
    Write(S2cMessage),
    /// Come round again.
    Next,
    /// Call all tasks of the group off, and end.
    Cancel,
    /// End.
    Stop,
}

/// What the task that hands messages to the clients has seen.
pub enum InnerEvent {
    /// The task comes round.
    Turn,
    /// The queue of the group gave an envelope, or is at its end.
    Received(Option<S2cMessageEnvelope>),
}

/// What the task that hands messages to the clients does next.
pub enum InnerAction {
    /// Take the next envelope from the queue of the group.
    Receive,
    /// Put an envelope into the queue of its client, and come round again.
    Send(Outgoing),
    /// Come round again.
    Next,
    /// The envelope is for nobody known; come round again.
    UnknownClient,
    /// End.
    Stop,
}

/// The message asks its receiver to slow down.
pub open spec fn is_slow_down(message: S2cMessage) -> bool {
    &&& message.body is None
    &&& message.error matches Some(Error::SlowDownError(details))
    &&& details@ == Seq::<u8>::empty()
}

impl GroupServerView {
    /// The queue that an envelope goes into by the content of its message; other messages are
    /// ignored.
    pub open spec fn route(self, envelope: S2cMessageEnvelope) -> Option<Forward> {
        match envelope.s2c_message.body {
            Some(Body::Follow(_)) => Some(
                Forward::Follow(Outgoing { sender: self.follow_sender, envelope }),
            ),
            Some(Body::SynchronizeRequest(_)) => Some(
                Forward::Synchronize(Outgoing { sender: self.synchronize_sender, envelope }),
            ),
            Some(Body::StateRequest(_)) => Some(
                Forward::StateRequest { sender: self.state_request_sender, envelope },
            ),
            _ => None,
        }
    }

    /// A step of the task that reads from a client.
    pub open spec fn read_loop(
        self,
        node_identity: NodeIdentity,
        event: ReadLoopEvent,
        action: ReadLoopAction,
    ) -> bool {
        match event {
            ReadLoopEvent::Turn => action == if self.running {
                ReadLoopAction::Read
            } else {
                ReadLoopAction::Stop
            },
            ReadLoopEvent::Received(Ok(message)) => action == if !self.running {
                ReadLoopAction::Stop
            } else {
                match self.route(
                    S2cMessageEnvelope {
                        s2c_message: message,
                        node_identity: Arc::new(node_identity),
                    },
                ) {
                    Some(forward) => ReadLoopAction::Forward(forward),
                    None => ReadLoopAction::Next,
                }
            },
            ReadLoopEvent::Received(Err(_)) => action == ReadLoopAction::Cancel,
            ReadLoopEvent::Forwarded(SendOutcome::Full(_)) => {
                action matches ReadLoopAction::SlowDown(envelope) && is_slow_down(
                    envelope.s2c_message,
                ) && is_random_uuid(envelope.s2c_message.correlation_id@)
                    && *envelope.node_identity == node_identity
            },
            ReadLoopEvent::Forwarded(_) => action == ReadLoopAction::Next,
            ReadLoopEvent::SlowDownSent(sent) => action == if sent {
                ReadLoopAction::Next
            } else {
                ReadLoopAction::Stop
            },
        }
    }

    /// What the task that reads from a client does once a message was passed on. A message that
    /// is forwarded is put into its queue, and one outcome of that decides; only the queue of state
    /// requests can be full.
    pub open spec fn passes_on(
        self,
        node_identity: NodeIdentity,
        message: S2cMessage,
        action: ReadLoopAction,
    ) -> bool {
        if !self.running {
            action == ReadLoopAction::Stop
        } else {
            match self.route(
                S2cMessageEnvelope {
                    s2c_message: message,
                    node_identity: Arc::new(node_identity),
                },
            ) {
                Some(forward) => exists|outcome: SendOutcome|
                    {
                        &&& #[trigger] forward.sent(outcome)
                        &&& outcome is Full ==> forward is StateRequest
                        &&& self.read_loop(
                            node_identity,
                            ReadLoopEvent::Forwarded(outcome),
                            action,
                        )
                    },
                None => action == ReadLoopAction::Next,
            }
        }
    }

    /// What the task that writes to a client does next.
    pub open spec fn drain_out(self, event: WriteLoopEvent) -> WriteLoopAction {
        match event {
            WriteLoopEvent::Turn => if self.running {
                WriteLoopAction::Receive
            } else {
                WriteLoopAction::Stop
            },
            WriteLoopEvent::Received(Some(envelope)) => WriteLoopAction::Write(
                envelope.s2c_message,
            ),
            WriteLoopEvent::Received(None) => WriteLoopAction::Next,
            WriteLoopEvent::Written(written) => if written {
                WriteLoopAction::Next
            } else {
                WriteLoopAction::Cancel
            },
        }
    }

    /// What the task that hands messages to the clients does next. It sends to the clients that
    /// it has noted; the first envelope for any other client only makes it note that client.
    pub open spec fn inner_drain_out(self, noted: ClientMap, event: InnerEvent) -> InnerAction {
        match event {
            InnerEvent::Turn => if self.running {
                InnerAction::Receive
            } else {
                InnerAction::Stop
            },
            InnerEvent::Received(None) => InnerAction::Stop,
            InnerEvent::Received(Some(envelope)) => if noted.contains_key(envelope.node_identity@) {
                InnerAction::Send(Outgoing { sender: noted[envelope.node_identity@], envelope })
            } else if self.clients.contains_key(envelope.node_identity@) {
                InnerAction::Next
            } else {
                InnerAction::UnknownClient
            },
        }
    }

    /// The clients that the task has noted after a step.
    pub open spec fn noted_after(self, noted: ClientMap, event: InnerEvent) -> ClientMap {
        match event {
            InnerEvent::Received(Some(envelope)) => if !noted.contains_key(envelope.node_identity@)
                && self.clients.contains_key(envelope.node_identity@) {
                noted.insert(
                    envelope.node_identity@,
                    self.clients[envelope.node_identity@],
                )
            } else {
                noted
            },
            _ => noted,
        }
    }

    /// A client is taken in: while the group is served, and not a second time.
    pub open spec fn admits(self, node_identity: NodeIdentityView) -> bool {
        self.running && !self.clients.contains_key(node_identity)
    }

    /// The group after a client was taken in; what is sent to it comes out of `receiver`.
    pub open spec fn after_admission(
        self,
        node_identity: NodeIdentityView,
        receiver: mpsc::UnboundedReceiver<S2cMessageEnvelope>,
        after: GroupServerView,
    ) -> bool {
        &&& after == GroupServerView {
            clients: self.clients.insert(node_identity, after.clients[node_identity]),
            ..self
        }
        &&& queue_halves(*after.clients[node_identity], receiver)
    }
}

impl GroupServer {
    /// The server of a group, not started. Only the queue of state requests has a bound.
    pub fn new(
        group_id: String,
        follow_sender: mpsc::UnboundedSender<S2cMessageEnvelope>,
        state_request_sender: mpsc::Sender<S2cMessageEnvelope>,
        synchronize_sender: mpsc::UnboundedSender<S2cMessageEnvelope>,
    ) -> (server: Self)
        ensures
            server@ == (GroupServerView {
                group_id: group_id@,
                follow_sender: Arc::new(follow_sender),
                state_request_sender: Arc::new(state_request_sender),
                synchronize_sender: Arc::new(synchronize_sender),
                running: false,
                clients: Map::<NodeIdentityView, QueueSender>::empty(),
            }),
    {
        GroupServer {
            group_id,
            follow_sender: Arc::new(follow_sender),
            state_request_sender: Arc::new(state_request_sender),
            synchronize_sender: Arc::new(synchronize_sender),
            running: false,
            clients_senders: Registry::new(),
        }
    }

    /// The group.
    pub fn group_id(&self) -> (group_id: &str)
        ensures
            group_id@ == self@.group_id,
    {
        self.group_id.as_str()
    }

    /// Starts to serve the group, unless it is served already; then the task that hands messages
    /// to the clients is to be started.
    pub fn start(&mut self) -> (started_now: bool)
        ensures
            started_now == !old(self)@.running,
            final(self)@ == (GroupServerView { running: true, ..old(self)@ }),
    {
        if !self.running {
            self.running = true;
            true
        } else {
            false
        }
    }

    /// Takes a client in, and gives the end of its queue, for the tasks that read from it and
    /// write to it. A group that is not served takes nobody in, nor anybody twice.
    pub fn handle_client(&mut self, node_identity: Arc<NodeIdentity>) -> (receiver: Option<
        mpsc::UnboundedReceiver<S2cMessageEnvelope>,
    >)
        ensures
            match receiver {
                Some(receiver) => old(self)@.admits(node_identity@) && old(self)@.after_admission(
                    node_identity@,
                    receiver,
                    final(self)@,
                ),
                None => !old(self)@.admits(node_identity@) && final(self)@ == old(self)@,
            },
    {
        if !self.running {
            return None;
        }
        if self.clients_senders.contains_key(&node_identity) {
            return None;
        }
        let (sender, receiver) = unbounded_queue();
        self.clients_senders.insert(node_identity, Arc::new(sender));
        proof {
            let identity = node_identity@;
            assert(self@.clients =~= old(self)@.clients.insert(identity, self@.clients[identity]));
        }
        Some(receiver)
    }

    /// Takes a step of the task that reads from a client.
    pub fn read_loop(&self, node_identity: &Arc<NodeIdentity>, event: ReadLoopEvent) -> (action:
        ReadLoopAction)
        ensures
            self@.read_loop(**node_identity, event, action),
    {
        match event {
            ReadLoopEvent::Turn => {
                if self.running {
                    ReadLoopAction::Read
                } else {
                    ReadLoopAction::Stop
                }
            },
            ReadLoopEvent::Received(Ok(message)) => {
                if !self.running {
                    return ReadLoopAction::Stop;
                }
                let envelope = S2cMessageEnvelope {
                    s2c_message: message,
                    node_identity: node_identity.clone(),
                };
                match self.route(envelope) {
                    Some(forward) => ReadLoopAction::Forward(forward),
                    None => ReadLoopAction::Next,
                }
            },
            ReadLoopEvent::Received(Err(_)) => ReadLoopAction::Cancel,
            ReadLoopEvent::Forwarded(outcome) => match outcome {
                SendOutcome::Full(_) => ReadLoopAction::SlowDown(
                    S2cMessageEnvelope {
                        s2c_message: slow_down_message(new_correlation_id()),
                        node_identity: node_identity.clone(),
                    },
                ),
                _ => ReadLoopAction::Next,
            },
            ReadLoopEvent::SlowDownSent(sent) => {
                if sent {
                    ReadLoopAction::Next
                } else {
                    ReadLoopAction::Stop
                }
            },
        }
    }

    /// Passes on a message that came in from a client: it goes into the queue for its kind, and
    /// the outcome of that decides what the task that reads from the client does next.
    pub fn pass_on(&self, node_identity: &Arc<NodeIdentity>, message: S2cMessage) -> (action:
        ReadLoopAction)
        ensures
            self@.passes_on(**node_identity, message, action),
    {
        match self.read_loop(node_identity, ReadLoopEvent::Received(Ok(message))) {
            ReadLoopAction::Forward(forward) => {
                let outcome = forward.send();
                let action = self.read_loop(node_identity, ReadLoopEvent::Forwarded(outcome));
                assert(forward.sent(outcome));
                action
            },
            other => other,
        }
    }

    /// The queue that an envelope goes into by the content of its message.
    pub fn route(&self, envelope: S2cMessageEnvelope) -> (forward: Option<Forward>)
        ensures
            forward == self@.route(envelope),
            forward matches Some(forward) ==> forward.envelope() == envelope,
            forward matches Some(Forward::Follow(outgoing)) ==> outgoing.sender
                == self@.follow_sender,
            forward matches Some(Forward::Synchronize(outgoing)) ==> outgoing.sender
                == self@.synchronize_sender,
            forward matches Some(Forward::StateRequest { sender, .. }) ==> sender
                == self@.state_request_sender,
    {
        match &envelope.s2c_message.body {
            Some(Body::Follow(_)) => Some(
                Forward::Follow(Outgoing { sender: self.follow_sender.clone(), envelope }),
            ),
            Some(Body::SynchronizeRequest(_)) => Some(
                Forward::Synchronize(Outgoing { sender: self.synchronize_sender.clone(), envelope }),
            ),
            Some(Body::StateRequest(_)) => Some(
                Forward::StateRequest { sender: self.state_request_sender.clone(), envelope },
            ),
            _ => None,
        }
    }

    /// Takes a step of the task that writes to a client.
    pub fn drain_out(&self, event: WriteLoopEvent) -> (action: WriteLoopAction)
        ensures
            action == self@.drain_out(event),
            event matches WriteLoopEvent::Received(Some(envelope)) ==> action
                == WriteLoopAction::Write(envelope.s2c_message),
    {
        match event {
            WriteLoopEvent::Turn => {
                if self.running {
                    WriteLoopAction::Receive
                } else {
                    WriteLoopAction::Stop
                }
            },
            WriteLoopEvent::Received(received) => match received {
                Some(envelope) => WriteLoopAction::Write(envelope.s2c_message),
                None => WriteLoopAction::Next,
            },
            WriteLoopEvent::Written(written) => {
                if written {
                    WriteLoopAction::Next
                } else {
                    WriteLoopAction::Cancel
                }
            },
        }
    }

    /// Takes a step of the task that hands messages to the clients; `noted` holds the clients
    /// that the task has looked up before.
    pub fn inner_drain_out(&self, noted: &mut ClientSenders, event: InnerEvent) -> (action:
        InnerAction)
        ensures
            action == self@.inner_drain_out(old(noted)@, event),
            final(noted)@ == self@.noted_after(old(noted)@, event),
    {
        match event {
            InnerEvent::Turn => {
                if self.running {
                    InnerAction::Receive
                } else {
                    InnerAction::Stop
                }
            },
            InnerEvent::Received(None) => InnerAction::Stop,
            InnerEvent::Received(Some(envelope)) => {
                match noted.get(&envelope.node_identity) {
                    Some(sender) => {
                        return InnerAction::Send(Outgoing { sender: sender.clone(), envelope });
                    },
                    None => {},
                }
                match self.clients_senders.get(&envelope.node_identity) {
                    Some(sender) => {
                        noted.insert(envelope.node_identity, sender.clone());
                        InnerAction::Next
                    },
                    None => InnerAction::UnknownClient,
                }
            },
        }
    }

    /// Stops to serve the group; if it was served, all its tasks are to be called off and waited
    /// for.
    pub fn close(&mut self) -> (closed_now: bool)
        ensures
            closed_now == old(self)@.running,
            final(self)@ == (GroupServerView { running: false, ..old(self)@ }),
    {
        if self.running {
            self.running = false;
            true
        } else {
            false
        }
    }
}

/// The message that asks its receiver to slow down, under the given id.
pub fn slow_down_message(correlation_id: String) -> (message: S2cMessage)
    ensures
        is_slow_down(message),
        message.correlation_id == correlation_id,
{
    S2cMessage { correlation_id, body: None, error: Some(Error::SlowDownError(Vec::new())) }
}

/// A group that is not served reads nothing, forwards no message of a client, and takes nobody
/// in; its tasks end when they come round. An envelope for a client that a task had already taken
/// from its queue still goes its way, as in a group that is served.
pub proof fn law_closed_group_rests(
    group: GroupServerView,
    node_identity: NodeIdentity,
    message: S2cMessage,
    noted: ClientMap,
)
    requires
        !group.running,
    ensures
        forall|action: ReadLoopAction|
            #[trigger] group.read_loop(node_identity, ReadLoopEvent::Turn, action) ==> action
                == ReadLoopAction::Stop,
        forall|action: ReadLoopAction|
            #[trigger] group.read_loop(node_identity, ReadLoopEvent::Received(Ok(message)), action)
                ==> action == ReadLoopAction::Stop,
        forall|action: ReadLoopAction|
            #[trigger] group.passes_on(node_identity, message, action) ==> action
                == ReadLoopAction::Stop,
        group.drain_out(WriteLoopEvent::Turn) == WriteLoopAction::Stop,
        group.inner_drain_out(noted, InnerEvent::Turn) == InnerAction::Stop,
        !group.admits(node_identity@),
        forall|envelope: S2cMessageEnvelope| #[trigger]
            group.drain_out(WriteLoopEvent::Received(Some(envelope))) == WriteLoopAction::Write(
                envelope.s2c_message,
            ),
        forall|envelope: S2cMessageEnvelope| #[trigger]
            group.inner_drain_out(noted, InnerEvent::Received(Some(envelope))) == (
            GroupServerView { running: true, ..group }).inner_drain_out(
                noted,
                InnerEvent::Received(Some(envelope)),
            ),
{
}

/// A message that a client sends is forwarded unchanged, with the client's identity, into the
/// queue for its kind that the group was made with, whichever clients have joined; a message of
/// any other kind goes into no queue.
pub proof fn law_messages_are_forwarded_unchanged(
    group: GroupServerView,
    node_identity: NodeIdentity,
    message: S2cMessage,
    action: ReadLoopAction,
)
    requires
        group.running,
        group.read_loop(node_identity, ReadLoopEvent::Received(Ok(message)), action),
    ensures
        action matches ReadLoopAction::Forward(forward) ==> forward.envelope().s2c_message == message
            && *forward.envelope().node_identity == node_identity,
        message.body matches Some(Body::Follow(_)) ==> (action matches ReadLoopAction::Forward(
            Forward::Follow(outgoing),
        ) && outgoing.sender == group.follow_sender && outgoing.envelope.s2c_message == message
            && *outgoing.envelope.node_identity == node_identity),
        message.body matches Some(Body::SynchronizeRequest(_)) ==> (action matches ReadLoopAction::Forward(
            Forward::Synchronize(outgoing),
        ) && outgoing.sender == group.synchronize_sender && outgoing.envelope.s2c_message == message
            && *outgoing.envelope.node_identity == node_identity),
        message.body matches Some(Body::StateRequest(_)) ==> (action matches ReadLoopAction::Forward(
            Forward::StateRequest { sender, envelope },
        ) && sender == group.state_request_sender && envelope.s2c_message == message
            && *envelope.node_identity == node_identity),
        action !is Forward <==> action == ReadLoopAction::Next,
        action matches ReadLoopAction::Forward(Forward::Follow(_)) <==> message.body matches Some(
            Body::Follow(_),
        ),
        action matches ReadLoopAction::Forward(Forward::Synchronize(_)) <==> message.body matches Some(
            Body::SynchronizeRequest(_),
        ),
        action matches ReadLoopAction::Forward(Forward::StateRequest { .. })
            <==> message.body matches Some(Body::StateRequest(_)),
        message.body is None ==> action == ReadLoopAction::Next,
        message.body matches Some(Body::Handshake(_)) ==> action == ReadLoopAction::Next,
        message.body matches Some(Body::Other(_)) ==> action == ReadLoopAction::Next,
{
}

/// The queue that an envelope goes into depends on the kind of its message and on the queues that
/// the group was made with, and on nothing else: neither on who sent it, nor on who has joined,
/// nor on whether the group is served.
pub proof fn law_route_is_by_kind_alone(
    group: GroupServerView,
    other: GroupServerView,
    envelope: S2cMessageEnvelope,
)
    requires
        other.follow_sender == group.follow_sender,
        other.synchronize_sender == group.synchronize_sender,
        other.state_request_sender == group.state_request_sender,
    ensures
        group.route(envelope) == other.route(envelope),
        group.route(envelope) matches Some(forward) ==> forward.envelope() == envelope,
        envelope.s2c_message.body matches Some(Body::Follow(_)) ==> (group.route(envelope) matches Some(
            Forward::Follow(outgoing),
        ) && outgoing.sender == group.follow_sender && outgoing.envelope == envelope),
        envelope.s2c_message.body matches Some(Body::SynchronizeRequest(_)) ==> (group.route(
            envelope,
        ) matches Some(Forward::Synchronize(outgoing)) && outgoing.sender
            == group.synchronize_sender && outgoing.envelope == envelope),
        envelope.s2c_message.body matches Some(Body::StateRequest(_)) ==> (group.route(
            envelope,
        ) matches Some(Forward::StateRequest { sender, envelope: passed }) && sender
            == group.state_request_sender && passed == envelope),
        group.route(envelope) is None <==> (envelope.s2c_message.body is None
            || envelope.s2c_message.body->0 is Handshake || envelope.s2c_message.body->0 is Other),
{
}

/// Passing a message on is an attempt to put it, with the client's identity, into the queue for
/// its kind. Whatever comes of a follow or synchronize message, the task goes on; of a state
/// request, too, unless its queue is full: then the client is asked to slow down.
pub proof fn law_passing_on_puts_the_message_into_its_queue(
    group: GroupServerView,
    node_identity: NodeIdentity,
    message: S2cMessage,
    action: ReadLoopAction,
)
    requires
        group.running,
        group.passes_on(node_identity, message, action),
    ensures
        ({
            let envelope = S2cMessageEnvelope {
                s2c_message: message,
                node_identity: Arc::new(node_identity),
            };
            &&& message.body matches Some(Body::Follow(_)) ==> action == ReadLoopAction::Next
                && exists|outcome: SendOutcome| #[trigger]
                queued(*group.follow_sender, envelope, outcome)
            &&& message.body matches Some(Body::SynchronizeRequest(_)) ==> action
                == ReadLoopAction::Next && exists|outcome: SendOutcome| #[trigger]
                queued(*group.synchronize_sender, envelope, outcome)
            &&& message.body matches Some(Body::StateRequest(_)) ==> exists|outcome: SendOutcome|
                {
                    &&& #[trigger] queued_in_bounds(*group.state_request_sender, envelope, outcome)
                    &&& outcome is Full <==> action is SlowDown
                    &&& outcome !is Full <==> action == ReadLoopAction::Next
                }
            &&& message.body is None ==> action == ReadLoopAction::Next
            &&& message.body matches Some(Body::Handshake(_)) ==> action == ReadLoopAction::Next
            &&& message.body matches Some(Body::Other(_)) ==> action == ReadLoopAction::Next
            &&& action matches ReadLoopAction::SlowDown(asked) ==> *asked.node_identity
                == node_identity && asked.s2c_message.body is None && asked.s2c_message.error
                matches Some(Error::SlowDownError(_))
        }),
{
    let envelope = S2cMessageEnvelope {
        s2c_message: message,
        node_identity: Arc::new(node_identity),
    };
    if group.route(envelope) is Some {
        let forward = group.route(envelope)->0;
        let outcome = choose|outcome: SendOutcome|
            {
                &&& #[trigger] forward.sent(outcome)
                &&& outcome is Full ==> forward is StateRequest
                &&& group.read_loop(node_identity, ReadLoopEvent::Forwarded(outcome), action)
            };
        assert(forward.sent(outcome));
        assert(message.body matches Some(Body::Follow(_)) ==> queued(
            *group.follow_sender,
            envelope,
            outcome,
        ));
        assert(message.body matches Some(Body::SynchronizeRequest(_)) ==> queued(
            *group.synchronize_sender,
            envelope,
            outcome,
        ));
        assert(message.body matches Some(Body::StateRequest(_)) ==> queued_in_bounds(
            *group.state_request_sender,
            envelope,
            outcome,
        ));
    }
}

/// What was forwarded was an attempt to put its own envelope into its own queue.
pub proof fn law_forwarding_uses_its_own_queue(forward: Forward, outcome: SendOutcome)
    ensures
        forward matches Forward::Follow(outgoing) ==> forward.envelope() == outgoing.envelope && (
        forward.sent(outcome) <==> queued(*outgoing.sender, outgoing.envelope, outcome)),
        forward matches Forward::Synchronize(outgoing) ==> forward.envelope() == outgoing.envelope
            && (forward.sent(outcome) <==> queued(*outgoing.sender, outgoing.envelope, outcome)),
        forward matches Forward::StateRequest { sender, envelope } ==> forward.envelope() == envelope
            && (forward.sent(outcome) <==> queued_in_bounds(*sender, envelope, outcome)),
{
}

/// The task that reads from a client reads exactly while the group is served. A failed read calls
/// all tasks of the group off. Of the outcomes of forwarding, a full queue alone is followed up:
/// the client that sent the message is asked to slow down. Where that cannot be passed on, the
/// task ends.
pub proof fn law_reader_of_a_client(
    group: GroupServerView,
    node_identity: NodeIdentity,
    err: NetworkError,
    refused: S2cMessageEnvelope,
    action: ReadLoopAction,
)
    ensures
        group.read_loop(node_identity, ReadLoopEvent::Turn, action) ==> action == if group.running {
            ReadLoopAction::Read
        } else {
            ReadLoopAction::Stop
        },
        group.read_loop(node_identity, ReadLoopEvent::Received(Err(err)), action) ==> action
            == ReadLoopAction::Cancel,
        group.read_loop(node_identity, ReadLoopEvent::Forwarded(SendOutcome::Sent), action)
            ==> action == ReadLoopAction::Next,
        group.read_loop(
            node_identity,
            ReadLoopEvent::Forwarded(SendOutcome::Closed(refused)),
            action,
        ) ==> action == ReadLoopAction::Next,
        group.read_loop(
            node_identity,
            ReadLoopEvent::Forwarded(SendOutcome::Full(refused)),
            action,
        ) ==> (action matches ReadLoopAction::SlowDown(asked) && {
            &&& *asked.node_identity == node_identity
            &&& asked.s2c_message.body is None
            &&& asked.s2c_message.error matches Some(Error::SlowDownError(details))
            &&& details@.len() == 0
            &&& is_random_uuid(asked.s2c_message.correlation_id@)
        }),
        group.read_loop(node_identity, ReadLoopEvent::SlowDownSent(true), action) ==> action
            == ReadLoopAction::Next,
        group.read_loop(node_identity, ReadLoopEvent::SlowDownSent(false), action) ==> action
            == ReadLoopAction::Stop,
{
}

/// Whatever the queue of a client gives is written to the client, unchanged: every message, with
/// or without content or error, for any client, whether or not the group is still served. The
/// task that writes goes on after a message was written, calls all tasks of the group off where
/// one could not be, and takes the next envelope exactly while the group is served.
pub proof fn law_queued_messages_are_written(group: GroupServerView, envelope: S2cMessageEnvelope)
    ensures
        group.drain_out(WriteLoopEvent::Received(Some(envelope))) == WriteLoopAction::Write(
            envelope.s2c_message,
        ),
        group.drain_out(WriteLoopEvent::Received(None)) == WriteLoopAction::Next,
        group.drain_out(WriteLoopEvent::Written(true)) == WriteLoopAction::Next,
        group.drain_out(WriteLoopEvent::Written(false)) == WriteLoopAction::Cancel,
        group.drain_out(WriteLoopEvent::Turn) == if group.running {
            WriteLoopAction::Receive
        } else {
            WriteLoopAction::Stop
        },
{
}

/// What the group sends to a client that was noted is written to that client, unchanged: it goes
/// into the client's own queue, and what comes out of there is written.
pub proof fn law_sent_messages_reach_their_client(
    group: GroupServerView,
    noted: ClientMap,
    envelope: S2cMessageEnvelope,
)
    requires
        noted.contains_key(envelope.node_identity@),
    ensures
        group.inner_drain_out(noted, InnerEvent::Received(Some(envelope))) matches InnerAction::Send(
            outgoing,
        ) && outgoing.sender == noted[envelope.node_identity@] && outgoing.envelope == envelope
            && group.drain_out(WriteLoopEvent::Received(Some(outgoing.envelope)))
            == WriteLoopAction::Write(envelope.s2c_message),
        group.noted_after(noted, InnerEvent::Received(Some(envelope))) == noted,
{
}

/// An envelope for a client that was not noted makes the task note that client, with the way into
/// its queue, and no other; one for nobody that has joined is dropped, and nothing is noted.
pub proof fn law_clients_are_noted_one_by_one(
    group: GroupServerView,
    noted: ClientMap,
    envelope: S2cMessageEnvelope,
    other: NodeIdentityView,
)
    requires
        !noted.contains_key(envelope.node_identity@),
        other != envelope.node_identity@,
    ensures
        ({
            let event = InnerEvent::Received(Some(envelope));
            let after = group.noted_after(noted, event);
            let joined = group.clients.contains_key(envelope.node_identity@);
            &&& joined ==> group.inner_drain_out(noted, event) == InnerAction::Next
            &&& joined ==> after.contains_key(envelope.node_identity@)
                && after[envelope.node_identity@] == group.clients[envelope.node_identity@]
            &&& !joined ==> group.inner_drain_out(noted, event) == InnerAction::UnknownClient
            &&& !joined ==> after == noted
            &&& after.contains_key(other) == noted.contains_key(other)
            &&& noted.contains_key(other) ==> after[other] == noted[other]
        }),
        group.noted_after(noted, InnerEvent::Turn) == noted,
        group.noted_after(noted, InnerEvent::Received(None)) == noted,
        group.inner_drain_out(noted, InnerEvent::Received(None)) == InnerAction::Stop,
        group.inner_drain_out(noted, InnerEvent::Turn) == if group.running {
            InnerAction::Receive
        } else {
            InnerAction::Stop
        },
{
}

/// A client is taken in exactly while the group is served and where it has not joined before,
/// whoever else has.
pub proof fn law_group_takes_in_whoever_has_not_joined(
    group: GroupServerView,
    node_identity: NodeIdentityView,
)
    ensures
        group.admits(node_identity) <==> group.running && !group.clients.contains_key(node_identity),
{
}

/// A client that was taken in has a queue of its own, and nothing else of the group changes.
pub proof fn law_joining_adds_one_client(
    group: GroupServerView,
    node_identity: NodeIdentityView,
    other: NodeIdentityView,
    receiver: mpsc::UnboundedReceiver<S2cMessageEnvelope>,
    after: GroupServerView,
)
    requires
        other != node_identity,
        group.after_admission(node_identity, receiver, after),
    ensures
        after.clients.contains_key(node_identity),
        queue_halves(*after.clients[node_identity], receiver),
        after.clients.contains_key(other) == group.clients.contains_key(other),
        group.clients.contains_key(other) ==> after.clients[other] == group.clients[other],
        after.running == group.running,
        after.group_id == group.group_id,
        after.follow_sender == group.follow_sender,
        after.synchronize_sender == group.synchronize_sender,
        after.state_request_sender == group.state_request_sender,
{
}

/// A request to slow down has an empty error of that kind, and no content.
pub proof fn law_slow_down_has_no_content(message: S2cMessage)
    requires
        is_slow_down(message),
    ensures
        message.body is None,
        message.error matches Some(Error::SlowDownError(details)) && details@.len() == 0,
{
}

/// The clients that were noted are clients of the group, under the same way into their queues.
pub open spec fn notes_agree(noted: ClientMap, clients: ClientMap) -> bool {
    forall|k: NodeIdentityView| #[trigger]
        noted.contains_key(k) ==> clients.contains_key(k) && noted[k] == clients[k]
}

/// What the task that hands messages to the clients has noted stays true, whatever comes in and
/// whoever joins.
pub proof fn law_notes_stay_true(group: GroupServerView, noted: ClientMap)
    requires
        notes_agree(noted, group.clients),
    ensures
        forall|event: InnerEvent|
            notes_agree(#[trigger] group.noted_after(noted, event), group.clients),
        forall|
            node_identity: NodeIdentityView,
            receiver: mpsc::UnboundedReceiver<S2cMessageEnvelope>,
            after: GroupServerView,
        |
            group.admits(node_identity) && #[trigger] group.after_admission(
                node_identity,
                receiver,
                after,
            ) ==> notes_agree(noted, after.clients),
{
}

/// Once a client was noted, each envelope for it goes into its own queue; the first envelope for
/// a client that was not noted is spent on noting it.
pub proof fn law_noted_clients_get_their_envelopes(
    group: GroupServerView,
    noted: ClientMap,
    first: S2cMessageEnvelope,
    second: S2cMessageEnvelope,
)
    requires
        notes_agree(noted, group.clients),
        group.clients.contains_key(first.node_identity@),
        second.node_identity@ == first.node_identity@,
    ensures
        noted.contains_key(first.node_identity@) ==> group.inner_drain_out(
            noted,
            InnerEvent::Received(Some(first)),
        ) == InnerAction::Send(
            Outgoing { sender: group.clients[first.node_identity@], envelope: first },
        ),
        !noted.contains_key(first.node_identity@) ==> group.inner_drain_out(
            noted,
            InnerEvent::Received(Some(first)),
        ) == InnerAction::Next,
        group.inner_drain_out(
            group.noted_after(noted, InnerEvent::Received(Some(first))),
            InnerEvent::Received(Some(second)),
        ) == InnerAction::Send(
            Outgoing { sender: group.clients[first.node_identity@], envelope: second },
        ),
{
}

/// A client that was taken in stays taken in, and is not taken in again.
pub proof fn law_clients_join_once(
    group: GroupServerView,
    node_identity: NodeIdentityView,
    receiver: mpsc::UnboundedReceiver<S2cMessageEnvelope>,
    after: GroupServerView,
)
    requires
        group.admits(node_identity),
        group.after_admission(node_identity, receiver, after),
    ensures
        after.clients.contains_key(node_identity),
        !after.admits(node_identity),
        forall|other: NodeIdentityView| #[trigger]
            group.clients.contains_key(other) ==> after.clients.contains_key(other)
                && after.clients[other] == group.clients[other],
{
}

/// When the queue of state requests is full, the client that sent one too many is asked to slow
/// down. Once that client was noted, the request goes into its queue and is written to it as it
/// is; the client takes it so: its writer pauses, and none of its requests is answered by that.
pub proof fn law_full_queue_pauses_the_client(
    group: GroupServerView,
    node_identity: NodeIdentity,
    refused: S2cMessageEnvelope,
    action: ReadLoopAction,
    noted: ClientMap,
    client: ClientView,
    after: ClientView,
    taken: DrainInAction,
)
    requires
        group.read_loop(
            node_identity,
            ReadLoopEvent::Forwarded(SendOutcome::Full(refused)),
            action,
        ),
        notes_agree(noted, group.clients),
        noted.contains_key(node_identity@),
        is_running(client.state),
        client.drain_in(
            DrainInEvent::Received(Ok(action->SlowDown_0.s2c_message)),
            after,
            taken,
        ),
    ensures
        action matches ReadLoopAction::SlowDown(envelope) && *envelope.node_identity == node_identity
            && group.inner_drain_out(noted, InnerEvent::Received(Some(envelope)))
            == InnerAction::Send(Outgoing { sender: group.clients[node_identity@], envelope })
            && group.drain_out(WriteLoopEvent::Received(Some(envelope))) == WriteLoopAction::Write(
            envelope.s2c_message,
        ),
        taken == DrainInAction::Next,
        after == (ClientView { throttle: true, ..client }),
        after.drain_out_action(DrainOutEvent::Turn) == DrainOutAction::Sleep(
            client.options.network.throttle_delay_ms,
        ),
{
    law_slow_down_pauses_the_writer(client, action->SlowDown_0.s2c_message, after, taken);
}

} // verus!
