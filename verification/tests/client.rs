use s2c::config::S2cOptions;
use s2c::context::Context;
use s2c::network::client::{
    handshake_result, running, AtomicClientState, ClientState, ConnectAction, ConnectEvent,
    DrainInAction, DrainInEvent, DrainOutAction, DrainOutEvent, RequestOutcome, S2cClient,
};
use s2c::network::error::{ClientError, NetworkError};
use s2c::network::inflight::InflightRequests;
use s2c::proto::io::{Body, Error, Handshake, NodeIdentity, S2cMessage};
use tokio::sync::oneshot::error::TryRecvError;

fn node() -> NodeIdentity {
    NodeIdentity { id: "n".to_string(), address: "host".to_string(), port: 7 }
}

fn context() -> Context {
    Context::new("group".to_string(), node(), false)
}

fn message(correlation_id: &str) -> S2cMessage {
    S2cMessage {
        correlation_id: correlation_id.to_string(),
        body: Some(Body::Other(vec![9])),
        error: None,
    }
}

fn failing(correlation_id: &str, error: Error) -> S2cMessage {
    S2cMessage { correlation_id: correlation_id.to_string(), body: None, error: Some(error) }
}

fn connected<'a>(options: &'a S2cOptions, context: &'a Context) -> S2cClient<'a> {
    let mut client = S2cClient::new(options, context, InflightRequests::new());
    client.connect_step(ConnectEvent::Dialed);
    client
}

#[test]
fn state_cell_gives_back_what_was_stored() {
    let mut cell = AtomicClientState::new();
    assert_eq!(cell.load(), ClientState::NotConnected);
    assert!(!running(&cell));
    let states = [
        (ClientState::Connected, true),
        (ClientState::Ready, true),
        (ClientState::Closed, false),
        (ClientState::NotConnected, false),
    ];
    for (state, up) in states {
        cell.store(state);
        assert_eq!(cell.load(), state);
        assert_eq!(running(&cell), up);
    }
}

#[test]
fn connecting_dials_the_server() {
    let (options, context) = (S2cOptions::default(), context());
    let mut client = S2cClient::new(&options, &context, InflightRequests::new());
    assert_eq!(client.state(), ClientState::NotConnected);
    assert_eq!(client.max_pending_requests(), 1_000);
    let address = match client.connect(&node()) {
        ConnectAction::AwaitTasks { address } => address,
        _ => panic!("no wait"),
    };
    match client.connect_step(ConnectEvent::TasksEnded { address }) {
        ConnectAction::Dial { address, timeout_ms } => {
            assert_eq!(address, "host:7");
            assert_eq!(timeout_ms, 10_000);
        }
        _ => panic!("no dial"),
    }
}

#[test]
fn connecting_twice_changes_nothing() {
    let (options, context) = (S2cOptions::default(), context());
    let client = connected(&options, &context);
    assert!(matches!(client.connect(&node()), ConnectAction::Finish(Ok(()))));
}

#[test]
fn handshake_makes_the_client_ready() {
    let (options, context) = (S2cOptions::default(), context());
    let mut client = S2cClient::new(&options, &context, InflightRequests::new());
    let action = client.connect_step(ConnectEvent::Dialed);
    assert!(matches!(action, ConnectAction::Handshake { timeout_ms: 10_000 }));
    assert_eq!(client.state(), ClientState::Connected);
    let action = client.connect_step(ConnectEvent::HandshakeDone);
    assert!(matches!(action, ConnectAction::Finish(Ok(()))));
    assert_eq!(client.state(), ClientState::Ready);
}

#[test]
fn failed_connections_are_reported() {
    let (options, context) = (S2cOptions::default(), context());
    let mut client = S2cClient::new(&options, &context, InflightRequests::new());
    let action = client.connect_step(ConnectEvent::DialTimedOut);
    assert!(matches!(action, ConnectAction::Finish(Err(ClientError::ConnectTimeout))));
    match client.connect_step(ConnectEvent::DialFailed("refused".to_string())) {
        ConnectAction::Finish(Err(err)) => assert_eq!(err, ClientError::Io("refused".to_string())),
        _ => panic!("no error"),
    }
    assert_eq!(client.state(), ClientState::NotConnected);
    client.connect_step(ConnectEvent::Dialed);
    let action = client.connect_step(ConnectEvent::HandshakeFailed(ClientError::Timeout));
    assert!(matches!(action, ConnectAction::ShutDown(ClientError::Timeout)));
    assert_eq!(client.state(), ClientState::NotConnected);
}

#[test]
fn handshake_names_the_group_and_the_node() {
    let (options, context) = (S2cOptions::default(), context());
    let client = S2cClient::new(&options, &context, InflightRequests::new());
    let handshake = Handshake { group_id: "group".to_string(), node_identity: Some(node()) };
    let expected = S2cMessage {
        correlation_id: "7".to_string(),
        body: Some(Body::Handshake(handshake)),
        error: None,
    };
    assert_eq!(client.handshake_message("7".to_string()), expected);
}

#[test]
fn handshakes_have_random_ids() {
    let (options, context) = (S2cOptions::default(), context());
    let client = S2cClient::new(&options, &context, InflightRequests::new());
    let first = client.handshake();
    let second = client.handshake();
    assert_eq!(first.body, second.body);
    assert_ne!(first.correlation_id, second.correlation_id);
    let id: Vec<char> = first.correlation_id.chars().collect();
    assert_eq!(id.len(), 36);
    for (i, c) in id.iter().enumerate() {
        if i == 8 || i == 13 || i == 18 || i == 23 {
            assert_eq!(*c, '-');
        } else {
            assert!(c.is_ascii_digit() || ('a'..='f').contains(c));
        }
    }
    assert_eq!(id[14], '4');
    assert!(['8', '9', 'a', 'b'].contains(&id[19]));
}

#[test]
fn reply_to_a_handshake_is_a_handshake() {
    let (options, context) = (S2cOptions::default(), context());
    let client = S2cClient::new(&options, &context, InflightRequests::new());
    let handshake = Handshake { group_id: "group".to_string(), node_identity: Some(node()) };
    let reply = Ok(client.handshake_message("7".to_string()));
    assert_eq!(handshake_result(reply), Ok(handshake));
    assert_eq!(handshake_result(Err(ClientError::Timeout)), Err(ClientError::Timeout));
}

#[test]
fn requests_need_a_connection() {
    let (options, context) = (S2cOptions::default(), context());
    let mut client = S2cClient::new(&options, &context, InflightRequests::new());
    assert_eq!(client.send(), Err(ClientError::NotConnected));
    client.connect_step(ConnectEvent::Dialed);
    assert_eq!(client.send(), Ok(()));
    client.connect_step(ConnectEvent::HandshakeDone);
    assert_eq!(client.send(), Ok(()));
    assert!(client.close());
    assert_eq!(client.send(), Err(ClientError::Closed));
}

#[test]
fn response_reaches_its_request() {
    let (options, context) = (S2cOptions::default(), context());
    let mut client = connected(&options, &context);
    let mut first = client.start_request(&message("1"));
    let mut second = client.start_request(&message("2"));
    match client.drain_in(DrainInEvent::Received(Ok(message("2")))) {
        DrainInAction::Deliver(delivery) => assert_eq!(delivery.send(), Ok(())),
        _ => panic!("no delivery"),
    }
    assert_eq!(second.try_recv(), Ok(Ok(message("2"))));
    assert_eq!(first.try_recv(), Err(TryRecvError::Empty));
    let action = client.drain_in(DrainInEvent::Received(Ok(message("2"))));
    assert!(matches!(action, DrainInAction::Next));
}

#[test]
fn outcomes_of_requests() {
    let (options, context) = (S2cOptions::default(), context());
    let mut client = connected(&options, &context);
    let id = || "1".to_string();
    let _waiting = client.start_request(&message("1"));
    assert_eq!(
        client.finish_request(id(), RequestOutcome::Replied(Ok(message("1")))),
        Ok(message("1"))
    );
    assert_eq!(
        client.finish_request(id(), RequestOutcome::NotQueued),
        Err(ClientError::NotConnected)
    );
    // Neither of the two gave the request up.
    assert!(matches!(
        client.drain_in(DrainInEvent::Received(Ok(message("1")))),
        DrainInAction::Deliver(_)
    ));
    let outcomes = vec![
        (RequestOutcome::TimedOut, ClientError::Timeout),
        (RequestOutcome::ReplyLost, ClientError::NotConnected),
        (
            RequestOutcome::Replied(Err(ClientError::Io("x".to_string()))),
            ClientError::Io("x".to_string()),
        ),
    ];
    for (outcome, err) in outcomes {
        let _waiting = client.start_request(&message("1"));
        assert_eq!(client.finish_request(id(), outcome), Err(err));
        assert!(matches!(
            client.drain_in(DrainInEvent::Received(Ok(message("1")))),
            DrainInAction::Next
        ));
    }
}

#[test]
fn slow_down_pauses_the_writer() {
    let (options, context) = (S2cOptions::default(), context());
    let mut client = connected(&options, &context);
    let mut waiting = client.start_request(&message("1"));
    assert!(matches!(client.drain_out(DrainOutEvent::Turn), DrainOutAction::Receive));
    let slow_down = failing("1", Error::SlowDownError(Vec::new()));
    assert!(matches!(
        client.drain_in(DrainInEvent::Received(Ok(slow_down))),
        DrainInAction::Next
    ));
    assert_eq!(waiting.try_recv(), Err(TryRecvError::Empty));
    assert!(matches!(client.drain_out(DrainOutEvent::Turn), DrainOutAction::Sleep(10_000)));
    assert!(matches!(
        client.drain_out(DrainOutEvent::ThrottleElapsed),
        DrainOutAction::Receive
    ));
    assert!(matches!(client.drain_out(DrainOutEvent::Turn), DrainOutAction::Receive));
}

#[test]
fn other_errors_are_passed_over() {
    let (options, context) = (S2cOptions::default(), context());
    let mut client = connected(&options, &context);
    let mut waiting = client.start_request(&message("1"));
    let other = failing("1", Error::Other(Vec::new()));
    assert!(matches!(
        client.drain_in(DrainInEvent::Received(Ok(other))),
        DrainInAction::Next
    ));
    assert_eq!(waiting.try_recv(), Err(TryRecvError::Empty));
    assert!(matches!(client.drain_out(DrainOutEvent::Turn), DrainOutAction::Receive));
}

#[test]
fn lost_connection_fails_every_request() {
    let (options, context) = (S2cOptions::default(), context());
    let mut client = connected(&options, &context);
    let mut first = client.start_request(&message("1"));
    let mut second = client.start_request(&message("2"));
    assert!(matches!(client.drain_in(DrainInEvent::Turn), DrainInAction::Read));
    let err = NetworkError::Io { err: "gone".to_string() };
    match client.drain_in(DrainInEvent::Received(Err(err))) {
        DrainInAction::SignalWriter(deliveries) => {
            assert_eq!(deliveries.len(), 2);
            for delivery in deliveries {
                assert_eq!(delivery.send(), Ok(()));
            }
        }
        _ => panic!("no failures"),
    }
    let told = ClientError::Io("Io error: gone".to_string());
    assert_eq!(first.try_recv(), Ok(Err(told.clone())));
    assert_eq!(second.try_recv(), Ok(Err(told)));
    assert_eq!(client.state(), ClientState::Connected);
    assert!(matches!(client.drain_in(DrainInEvent::WriterSignalled), DrainInAction::Stop));
    assert_eq!(client.state(), ClientState::NotConnected);
    assert!(matches!(client.drain_in(DrainInEvent::Turn), DrainInAction::Stop));
}

#[test]
fn writer_writes_what_the_queue_gives() {
    let (options, context) = (S2cOptions::default(), context());
    let mut client = connected(&options, &context);
    match client.drain_out(DrainOutEvent::Received(Some(Some(message("1"))))) {
        DrainOutAction::Write(written) => assert_eq!(written, message("1")),
        _ => panic!("nothing to write"),
    }
    assert!(matches!(client.drain_out(DrainOutEvent::Written(true)), DrainOutAction::Next));
    assert!(matches!(
        client.drain_out(DrainOutEvent::Received(Some(None))),
        DrainOutAction::Stop
    ));
    assert!(matches!(client.drain_out(DrainOutEvent::Received(None)), DrainOutAction::Stop));
    assert_eq!(client.state(), ClientState::Connected);
    assert!(matches!(client.drain_out(DrainOutEvent::Written(false)), DrainOutAction::Stop));
    assert_eq!(client.state(), ClientState::NotConnected);
}

#[test]
fn closed_client_rests() {
    let (options, context) = (S2cOptions::default(), context());
    let mut client = connected(&options, &context);
    let _waiting = client.start_request(&message("1"));
    assert!(client.close());
    assert!(!client.close());
    assert_eq!(client.state(), ClientState::Closed);
    assert!(matches!(client.connect(&node()), ConnectAction::Finish(Ok(()))));
    assert!(matches!(client.drain_in(DrainInEvent::Turn), DrainInAction::Stop));
    assert!(matches!(
        client.drain_in(DrainInEvent::Received(Ok(message("1")))),
        DrainInAction::Stop
    ));
    assert!(matches!(client.drain_out(DrainOutEvent::Turn), DrainOutAction::Stop));
    assert!(matches!(
        client.drain_out(DrainOutEvent::Received(Some(Some(message("1"))))),
        DrainOutAction::Stop
    ));
}

#[test]
fn steps_keep_the_setup_and_the_open_requests() {
    let (options, context) = (S2cOptions::default(), context());
    let mut client = connected(&options, &context);
    let mut receiver = client.start_request(&message("1"));
    client.connect_step(ConnectEvent::HandshakeDone);
    client.drain_out(DrainOutEvent::Written(true));
    client.drain_out(DrainOutEvent::ThrottleElapsed);
    match client.drain_in(DrainInEvent::Received(Ok(message("1")))) {
        DrainInAction::Deliver(delivery) => assert_eq!(delivery.send(), Ok(())),
        _ => panic!("no delivery"),
    }
    assert_eq!(receiver.try_recv(), Ok(Ok(message("1"))));
    client.drain_out(DrainOutEvent::Written(false));
    let address = match client.connect(&node()) {
        ConnectAction::AwaitTasks { address } => address,
        _ => panic!("no wait"),
    };
    match client.connect_step(ConnectEvent::TasksEnded { address }) {
        ConnectAction::Dial { timeout_ms, .. } => assert_eq!(timeout_ms, 10_000),
        _ => panic!("no dial"),
    }
    let handshake = Handshake { group_id: "group".to_string(), node_identity: Some(node()) };
    let greeting = client.handshake_message("2".to_string());
    assert_eq!(greeting.body, Some(Body::Handshake(handshake)));
}

#[test]
fn client_waits_for_earlier_tasks_before_it_dials_again() {
    let (mut options, context) = (S2cOptions::default(), context());
    options.network.connect_timeout_ms = 20;
    let mut client = connected(&options, &context);
    client.drain_out(DrainOutEvent::Written(false));
    let address = match client.connect(&node()) {
        ConnectAction::AwaitTasks { address } => address,
        _ => panic!("no wait"),
    };
    assert_eq!(client.state(), ClientState::NotConnected);
    match client.connect_step(ConnectEvent::TasksEnded { address }) {
        ConnectAction::Dial { address, timeout_ms } => {
            assert_eq!(address, "host:7");
            assert_eq!(timeout_ms, 20);
        }
        _ => panic!("no dial"),
    }
    assert_eq!(client.state(), ClientState::NotConnected);
}
