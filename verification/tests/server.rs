use s2c::config::S2cOptions;
use s2c::context::Context;
use s2c::network::client::{ConnectEvent, ClientState, DrainInAction, DrainInEvent, S2cClient};
use s2c::network::error::NetworkError;
use s2c::network::inflight::InflightRequests;
use s2c::network::server::{
    bind_address, bind_failed, handshake, AcceptAction, AcceptEvent, Admission, AtomicServerState,
    BindAction, HandshakeAction, HandshakeEvent, S2cServer, ServeAction, ServeEvent, ServerState, StartAction,
    StartEvent,
};
use s2c::proto::io::{Body, Handshake, NodeIdentity, S2cMessage};

fn node() -> NodeIdentity {
    NodeIdentity { id: "n".to_string(), address: "host".to_string(), port: 9000 }
}

fn hello(group_id: &str, node_identity: Option<NodeIdentity>) -> Handshake {
    Handshake { group_id: group_id.to_string(), node_identity }
}

fn message(body: Option<Body>) -> S2cMessage {
    S2cMessage { correlation_id: "1".to_string(), body, error: None }
}

fn ready(options: &S2cOptions) -> S2cServer<'_, u32> {
    let mut server = S2cServer::new(options, node());
    server.start(StartEvent::Requested);
    server.start(StartEvent::Bound);
    server
}

#[test]
fn state_cell_exchanges_the_expected_state_only() {
    let mut cell = AtomicServerState::new();
    assert_eq!(cell.load(), ServerState::NotBound);
    assert!(!cell.compare_and_exchange(ServerState::Ready, ServerState::Closed));
    assert_eq!(cell.load(), ServerState::NotBound);
    assert!(cell.compare_and_exchange(ServerState::NotBound, ServerState::Binding));
    assert_eq!(cell.load(), ServerState::Binding);
    let states =
        [ServerState::Ready, ServerState::Closed, ServerState::Binding, ServerState::NotBound];
    for state in states {
        cell.store(state);
        assert_eq!(cell.load(), state);
    }
}

#[test]
fn start_binds_the_port_once() {
    let options = S2cOptions::default();
    let mut server: S2cServer<'_, u32> = S2cServer::new(&options, node());
    match server.start(StartEvent::Requested) {
        StartAction::Bind { address } => assert_eq!(address, "0.0.0.0:9000"),
        _ => panic!("no bind"),
    }
    assert_eq!(server.state(), ServerState::Binding);
    assert!(matches!(server.start(StartEvent::Requested), StartAction::Finish));
    assert!(matches!(server.start(StartEvent::Bound), StartAction::Serve));
    assert_eq!(server.state(), ServerState::Ready);
    assert!(matches!(server.start(StartEvent::Requested), StartAction::Finish));
}

#[test]
fn failed_start_leaves_the_server_binding() {
    let options = S2cOptions::default();
    let mut server: S2cServer<'_, u32> = S2cServer::new(&options, node());
    server.start(StartEvent::Requested);
    assert!(matches!(server.start(StartEvent::BindFailed), StartAction::Fail));
    assert_eq!(server.state(), ServerState::Binding);
    assert!(matches!(server.start(StartEvent::Requested), StartAction::Finish));
}

#[test]
fn addresses_to_bind() {
    assert_eq!(bind_address(9000), "0.0.0.0:9000");
    assert_eq!(bind_address(0), "0.0.0.0:0");
    assert_eq!(bind_address(-1), "0.0.0.0:-1");
}

#[test]
fn server_binds_again_when_accepting_ends() {
    let options = S2cOptions::default();
    let mut server = ready(&options);
    assert!(matches!(server.do_serve(ServeEvent::AcceptEnded), ServeAction::Rebind));
    assert_eq!(server.state(), ServerState::NotBound);
    match server.do_serve(ServeEvent::RebindDue) {
        ServeAction::Bind { address } => assert_eq!(address, "0.0.0.0:9000"),
        _ => panic!("no bind"),
    }
    assert_eq!(server.state(), ServerState::Binding);
    assert!(matches!(server.do_serve(ServeEvent::Rebound), ServeAction::Accept));
    assert_eq!(server.state(), ServerState::Ready);
}

#[test]
fn server_that_cannot_bind_again_is_closed() {
    let options = S2cOptions::default();
    let mut server = ready(&options);
    server.do_serve(ServeEvent::AcceptEnded);
    server.do_serve(ServeEvent::RebindDue);
    assert!(matches!(server.do_serve(ServeEvent::RebindFailed), ServeAction::ShutDown));
    assert_eq!(server.state(), ServerState::Closed);
}

#[test]
fn server_does_not_bind_again_while_another_start_does() {
    let options = S2cOptions::default();
    let mut server = ready(&options);
    server.do_serve(ServeEvent::AcceptEnded);
    assert!(matches!(server.start(StartEvent::Requested), StartAction::Bind { .. }));
    assert!(matches!(server.do_serve(ServeEvent::RebindDue), ServeAction::Stop));
    assert_eq!(server.state(), ServerState::Binding);
}

#[test]
fn accepting_ends_with_a_failure_or_the_server() {
    let options = S2cOptions::default();
    let mut server = ready(&options);
    assert!(matches!(server.accept(AcceptEvent::Turn), AcceptAction::Accept));
    assert!(matches!(server.accept(AcceptEvent::Accepted(true)), AcceptAction::Handle));
    assert!(matches!(server.accept(AcceptEvent::Accepted(false)), AcceptAction::Stop));
    assert!(server.close());
    assert!(!server.close());
    assert!(matches!(server.accept(AcceptEvent::Turn), AcceptAction::Stop));
    assert!(matches!(server.accept(AcceptEvent::Accepted(true)), AcceptAction::Stop));
    assert!(matches!(server.do_serve(ServeEvent::AcceptEnded), ServeAction::Stop));
    assert_eq!(server.state(), ServerState::Closed);
}

#[test]
fn first_handshake_is_sent_back() {
    assert!(matches!(handshake(HandshakeEvent::Wanted), HandshakeAction::Read));
    let other = message(Some(Body::Follow(vec![1])));
    assert!(matches!(handshake(HandshakeEvent::Received(Ok(other))), HandshakeAction::Read));
    let empty = message(None);
    assert!(matches!(handshake(HandshakeEvent::Received(Ok(empty))), HandshakeAction::Read));
    let received = message(Some(Body::Handshake(hello("group", Some(node())))));
    let expected = message(Some(Body::Handshake(hello("group", Some(node())))));
    match handshake(HandshakeEvent::Received(Ok(received))) {
        HandshakeAction::Echo(echo, opened) => {
            assert_eq!(echo, expected);
            assert_eq!(opened, hello("group", Some(node())));
        }
        _ => panic!("no answer"),
    }
}

#[test]
fn handshakes_can_fail() {
    let err = NetworkError::Io { err: "gone".to_string() };
    assert!(matches!(
        handshake(HandshakeEvent::Received(Err(err))),
        HandshakeAction::Finish(None)
    ));
    assert!(matches!(handshake(HandshakeEvent::TimedOut), HandshakeAction::Finish(None)));
    let opened = || hello("group", None);
    assert!(matches!(
        handshake(HandshakeEvent::Echoed(opened(), false)),
        HandshakeAction::Finish(None)
    ));
    match handshake(HandshakeEvent::Echoed(opened(), true)) {
        HandshakeAction::Finish(Some(finished)) => assert_eq!(finished, opened()),
        _ => panic!("no handshake"),
    }
}

#[test]
fn clients_go_to_the_server_of_their_group() {
    let options = S2cOptions::default();
    let mut server = ready(&options);
    server.register_group_server("group".to_string(), 1);
    server.register_group_server("other".to_string(), 2);
    server.register_group_server("group".to_string(), 3);
    match server.handle_client(Some(hello("group", Some(node())))) {
        Admission::HandOver(group, client) => {
            assert_eq!(*group, 3);
            assert_eq!(client, node());
        }
        _ => panic!("not admitted"),
    }
    assert!(matches!(
        server.handle_client(Some(hello("group", None))),
        Admission::MissingIdentity
    ));
    assert!(matches!(server.handle_client(Some(hello("nobody", None))), Admission::UnknownGroup));
    assert!(matches!(server.handle_client(None), Admission::NoHandshake));
}

#[test]
fn handshake_connects_a_client_and_a_server() {
    let options = S2cOptions::default();
    let context = Context::new("group".to_string(), node(), false);
    let mut server = ready(&options);
    server.register_group_server("group".to_string(), 1);
    let mut client = S2cClient::new(&options, &context, InflightRequests::new());
    client.connect_step(ConnectEvent::Dialed);
    let request = client.handshake();
    let mut waiting = client.start_request(&request);
    let (echo, opened) = match handshake(HandshakeEvent::Received(Ok(request))) {
        HandshakeAction::Echo(echo, opened) => (echo, opened),
        _ => panic!("no answer"),
    };
    match server.handle_client(Some(opened)) {
        Admission::HandOver(group, joined) => {
            assert_eq!(*group, 1);
            assert_eq!(joined, node());
        }
        _ => panic!("not admitted"),
    }
    match client.drain_in(DrainInEvent::Received(Ok(echo))) {
        DrainInAction::Deliver(delivery) => assert_eq!(delivery.send(), Ok(())),
        _ => panic!("no delivery"),
    }
    assert!(waiting.try_recv().unwrap().is_ok());
    client.connect_step(ConnectEvent::HandshakeDone);
    assert_eq!(client.state(), ClientState::Ready);
}

#[test]
fn steps_keep_the_groups_and_the_port() {
    let options = S2cOptions::default();
    let mut server = ready(&options);
    server.register_group_server("g".to_string(), 5);
    server.do_serve(ServeEvent::AcceptEnded);
    match server.do_serve(ServeEvent::RebindDue) {
        ServeAction::Bind { address } => assert_eq!(address, "0.0.0.0:9000"),
        _ => panic!("no bind"),
    }
    server.do_serve(ServeEvent::Rebound);
    match server.handle_client(Some(hello("g", Some(node())))) {
        Admission::HandOver(group_server, _) => assert_eq!(*group_server, 5),
        _ => panic!("not handed over"),
    }
}

#[test]
fn options_of_the_server_bound_its_waits() {
    let mut options = S2cOptions::default();
    options.network.handshake_timeout_ms = 70;
    options.retry.base_delay_ms = 40;
    options.retry.max_attempts = Some(2);
    let server: S2cServer<'_, u32> = S2cServer::new(&options, node());
    assert_eq!(server.handshake_timeout_ms(), 70);
    let mut backoff = server.bind_backoff();
    assert_eq!(backoff.name(), "bind");
    assert_eq!(backoff.current_attempt(), 0);
    assert!(matches!(bind_failed(&mut backoff), BindAction::Retry { delay_cap_ms: 40 }));
    assert!(matches!(bind_failed(&mut backoff), BindAction::Retry { delay_cap_ms: 80 }));
    assert!(matches!(bind_failed(&mut backoff), BindAction::GiveUp));
}
