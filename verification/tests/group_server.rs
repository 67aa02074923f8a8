use s2c::network::channel::SendOutcome;
use s2c::network::envelope::S2cMessageEnvelope;
use s2c::network::error::NetworkError;
use s2c::network::group_server::{
    slow_down_message, ClientSenders, GroupServer, InnerAction, InnerEvent, ReadLoopAction,
    ReadLoopEvent, WriteLoopAction, WriteLoopEvent,
};
use s2c::proto::io::{Body, Error, Handshake, NodeIdentity, S2cMessage};
use s2c::registry::Registry;
use std::sync::Arc;
use tokio::sync::mpsc;

struct Queues {
    follow: mpsc::UnboundedReceiver<S2cMessageEnvelope>,
    state_request: mpsc::Receiver<S2cMessageEnvelope>,
    synchronize: mpsc::UnboundedReceiver<S2cMessageEnvelope>,
}

fn group() -> (GroupServer, Queues) {
    let (follow_sender, follow) = mpsc::unbounded_channel();
    let (state_request_sender, state_request) = mpsc::channel(1);
    let (synchronize_sender, synchronize) = mpsc::unbounded_channel();
    let server = GroupServer::new(
        "group".to_string(),
        follow_sender,
        state_request_sender,
        synchronize_sender,
    );
    (server, Queues { follow, state_request, synchronize })
}

fn node(id: &str) -> Arc<NodeIdentity> {
    Arc::new(NodeIdentity { id: id.to_string(), address: "host".to_string(), port: 7 })
}

fn message(body: Option<Body>) -> S2cMessage {
    S2cMessage { correlation_id: "1".to_string(), body, error: None }
}

fn envelope(id: &str, content: u8) -> S2cMessageEnvelope {
    S2cMessageEnvelope {
        s2c_message: message(Some(Body::Other(vec![content]))),
        node_identity: node(id),
    }
}

fn forwarded(server: &GroupServer, body: Body) -> SendOutcome {
    match server.read_loop(&node("a"), ReadLoopEvent::Received(Ok(message(Some(body))))) {
        ReadLoopAction::Forward(forward) => forward.send(),
        _ => panic!("not forwarded"),
    }
}

#[test]
fn group_is_started_and_closed_once() {
    let (mut server, _queues) = group();
    assert_eq!(server.group_id(), "group");
    assert!(!server.close());
    assert!(server.start());
    assert!(!server.start());
    assert!(server.close());
    assert!(!server.close());
}

#[test]
fn messages_go_into_the_queue_for_their_kind() {
    let (mut server, mut queues) = group();
    server.start();
    assert!(matches!(forwarded(&server, Body::Follow(vec![1])), SendOutcome::Sent));
    assert!(matches!(forwarded(&server, Body::SynchronizeRequest(vec![2])), SendOutcome::Sent));
    assert!(matches!(forwarded(&server, Body::StateRequest(vec![3])), SendOutcome::Sent));
    let follow = queues.follow.try_recv().unwrap();
    assert_eq!(follow.s2c_message, message(Some(Body::Follow(vec![1]))));
    assert_eq!(follow.node_identity, node("a"));
    let synchronize = queues.synchronize.try_recv().unwrap();
    assert_eq!(synchronize.s2c_message, message(Some(Body::SynchronizeRequest(vec![2]))));
    let state_request = queues.state_request.try_recv().unwrap();
    assert_eq!(state_request.s2c_message, message(Some(Body::StateRequest(vec![3]))));
    assert!(queues.follow.try_recv().is_err());
}

#[test]
fn other_messages_are_ignored() {
    let (mut server, _queues) = group();
    server.start();
    let handshake = Handshake { group_id: "group".to_string(), node_identity: None };
    let bodies = vec![None, Some(Body::Handshake(handshake)), Some(Body::Other(Vec::new()))];
    for body in bodies {
        let event = ReadLoopEvent::Received(Ok(message(body)));
        assert!(matches!(server.read_loop(&node("a"), event), ReadLoopAction::Next));
    }
}

#[test]
fn full_queue_asks_the_client_to_slow_down() {
    let (mut server, _queues) = group();
    server.start();
    assert!(matches!(forwarded(&server, Body::StateRequest(vec![1])), SendOutcome::Sent));
    let outcome = forwarded(&server, Body::StateRequest(vec![2]));
    match &outcome {
        SendOutcome::Full(back) => {
            assert_eq!(back.s2c_message, message(Some(Body::StateRequest(vec![2]))));
        }
        _ => panic!("not full"),
    }
    match server.read_loop(&node("a"), ReadLoopEvent::Forwarded(outcome)) {
        ReadLoopAction::SlowDown(envelope) => {
            assert_eq!(envelope.node_identity, node("a"));
            let id = envelope.s2c_message.correlation_id.clone();
            assert_eq!(id.len(), 36);
            assert_ne!(id, "1");
            assert_eq!(envelope.s2c_message, slow_down_message(id));
        }
        _ => panic!("no slow down"),
    }
    let sent = server.read_loop(&node("a"), ReadLoopEvent::SlowDownSent(true));
    assert!(matches!(sent, ReadLoopAction::Next));
    let lost = server.read_loop(&node("a"), ReadLoopEvent::SlowDownSent(false));
    assert!(matches!(lost, ReadLoopAction::Stop));
}

#[test]
fn slow_down_message_has_an_error_and_no_body() {
    let expected = S2cMessage {
        correlation_id: "5".to_string(),
        body: None,
        error: Some(Error::SlowDownError(Vec::new())),
    };
    assert_eq!(slow_down_message("5".to_string()), expected);
}

#[test]
fn queues_that_nobody_reads_give_the_envelope_back() {
    let (mut server, queues) = group();
    server.start();
    drop(queues);
    let bodies = vec![
        Body::Follow(vec![1]),
        Body::SynchronizeRequest(vec![1]),
        Body::StateRequest(vec![1]),
    ];
    for body in bodies {
        let outcome = forwarded(&server, body);
        match &outcome {
            SendOutcome::Closed(back) => assert_eq!(back.node_identity, node("a")),
            _ => panic!("not closed"),
        }
        let action = server.read_loop(&node("a"), ReadLoopEvent::Forwarded(outcome));
        assert!(matches!(action, ReadLoopAction::Next));
    }
}

#[test]
fn read_loop_follows_the_group() {
    let (mut server, _queues) = group();
    let err = || NetworkError::Io { err: "gone".to_string() };
    assert!(matches!(server.read_loop(&node("a"), ReadLoopEvent::Turn), ReadLoopAction::Stop));
    server.start();
    assert!(matches!(server.read_loop(&node("a"), ReadLoopEvent::Turn), ReadLoopAction::Read));
    let failed = ReadLoopEvent::Received(Err(err()));
    assert!(matches!(server.read_loop(&node("a"), failed), ReadLoopAction::Cancel));
    let sent = ReadLoopEvent::Forwarded(SendOutcome::Sent);
    assert!(matches!(server.read_loop(&node("a"), sent), ReadLoopAction::Next));
    server.close();
    let late = ReadLoopEvent::Received(Ok(message(Some(Body::Follow(Vec::new())))));
    assert!(matches!(server.read_loop(&node("a"), late), ReadLoopAction::Stop));
}

#[test]
fn write_loop_follows_the_group() {
    let (mut server, _queues) = group();
    assert!(matches!(server.drain_out(WriteLoopEvent::Turn), WriteLoopAction::Stop));
    server.start();
    assert!(matches!(server.drain_out(WriteLoopEvent::Turn), WriteLoopAction::Receive));
    match server.drain_out(WriteLoopEvent::Received(Some(envelope("a", 4)))) {
        WriteLoopAction::Write(written) => assert_eq!(written, envelope("a", 4).s2c_message),
        _ => panic!("nothing to write"),
    }
    assert!(matches!(server.drain_out(WriteLoopEvent::Received(None)), WriteLoopAction::Next));
    assert!(matches!(server.drain_out(WriteLoopEvent::Written(true)), WriteLoopAction::Next));
    assert!(matches!(server.drain_out(WriteLoopEvent::Written(false)), WriteLoopAction::Cancel));
}

#[test]
fn clients_join_once_while_the_group_is_served() {
    let (mut server, _queues) = group();
    assert!(server.handle_client(node("a")).is_none());
    server.start();
    assert!(server.handle_client(node("a")).is_some());
    assert!(server.handle_client(node("a")).is_none());
    assert!(server.handle_client(node("b")).is_some());
    let elsewhere =
        Arc::new(NodeIdentity { id: "a".to_string(), address: "host".to_string(), port: 8 });
    assert!(server.handle_client(elsewhere).is_some());
}

#[test]
fn envelopes_reach_the_queue_of_their_client_once_it_was_noted() {
    let (mut server, _queues) = group();
    server.start();
    let mut to_a = server.handle_client(node("a")).unwrap();
    let mut to_b = server.handle_client(node("b")).unwrap();
    let mut noted: ClientSenders = Registry::new();
    assert!(matches!(server.inner_drain_out(&mut noted, InnerEvent::Turn), InnerAction::Receive));
    let first = InnerEvent::Received(Some(envelope("a", 1)));
    assert!(matches!(server.inner_drain_out(&mut noted, first), InnerAction::Next));
    assert_eq!(noted.len(), 1);
    assert!(to_a.try_recv().is_err());
    match server.inner_drain_out(&mut noted, InnerEvent::Received(Some(envelope("a", 2)))) {
        InnerAction::Send(outgoing) => assert!(matches!(outgoing.send(), SendOutcome::Sent)),
        _ => panic!("not sent"),
    }
    assert_eq!(to_a.try_recv().unwrap(), envelope("a", 2));
    assert!(to_b.try_recv().is_err());
    let stranger = InnerEvent::Received(Some(envelope("c", 3)));
    assert!(matches!(server.inner_drain_out(&mut noted, stranger), InnerAction::UnknownClient));
    let end = InnerEvent::Received(None);
    assert!(matches!(server.inner_drain_out(&mut noted, end), InnerAction::Stop));
    server.close();
    assert!(matches!(server.inner_drain_out(&mut noted, InnerEvent::Turn), InnerAction::Stop));
}

#[test]
fn client_queue_that_nobody_reads_gives_the_envelope_back() {
    let (mut server, _queues) = group();
    server.start();
    drop(server.handle_client(node("a")));
    let mut noted: ClientSenders = Registry::new();
    server.inner_drain_out(&mut noted, InnerEvent::Received(Some(envelope("a", 1))));
    match server.inner_drain_out(&mut noted, InnerEvent::Received(Some(envelope("a", 2)))) {
        InnerAction::Send(outgoing) => match outgoing.send() {
            SendOutcome::Closed(back) => assert_eq!(back, envelope("a", 2)),
            _ => panic!("not closed"),
        },
        _ => panic!("not sent"),
    }
}

#[test]
fn request_to_slow_down_reaches_a_noted_client() {
    let (mut server, _queues) = group();
    server.start();
    let mut to_a = server.handle_client(node("a")).unwrap();
    let mut noted: ClientSenders = Registry::new();
    server.inner_drain_out(&mut noted, InnerEvent::Received(Some(envelope("a", 1))));
    forwarded(&server, Body::StateRequest(vec![1]));
    let full = forwarded(&server, Body::StateRequest(vec![2]));
    let asked = match server.read_loop(&node("a"), ReadLoopEvent::Forwarded(full)) {
        ReadLoopAction::SlowDown(asked) => asked,
        _ => panic!("no slow down"),
    };
    let id = asked.s2c_message.correlation_id.clone();
    match server.inner_drain_out(&mut noted, InnerEvent::Received(Some(asked))) {
        InnerAction::Send(outgoing) => assert!(matches!(outgoing.send(), SendOutcome::Sent)),
        _ => panic!("not sent"),
    }
    let received = WriteLoopEvent::Received(to_a.try_recv().ok());
    match server.drain_out(received) {
        WriteLoopAction::Write(written) => assert_eq!(written, slow_down_message(id)),
        _ => panic!("not written"),
    }
}

#[test]
fn messages_are_passed_on_in_one_step() {
    let (mut server, mut queues) = group();
    let follow = || message(Some(Body::Follow(vec![1])));
    let request = |n: u8| message(Some(Body::StateRequest(vec![n])));
    assert!(matches!(server.pass_on(&node("a"), follow()), ReadLoopAction::Stop));
    server.start();
    assert!(matches!(server.pass_on(&node("a"), follow()), ReadLoopAction::Next));
    let forwarded = queues.follow.try_recv().unwrap();
    assert_eq!(forwarded.s2c_message, follow());
    assert_eq!(forwarded.node_identity, node("a"));
    assert!(queues.follow.try_recv().is_err());
    assert!(matches!(server.pass_on(&node("a"), message(None)), ReadLoopAction::Next));
    assert!(matches!(server.pass_on(&node("a"), request(1)), ReadLoopAction::Next));
    match server.pass_on(&node("a"), request(2)) {
        ReadLoopAction::SlowDown(envelope) => assert_eq!(envelope.node_identity, node("a")),
        _ => panic!("no slow down"),
    }
    assert_eq!(queues.state_request.try_recv().unwrap().s2c_message, request(1));
    assert!(queues.state_request.try_recv().is_err());
    drop(queues);
    assert!(matches!(server.pass_on(&node("a"), request(3)), ReadLoopAction::Next));
}
