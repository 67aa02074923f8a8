use s2c::network::channel::Reply;
use s2c::network::error::ClientError;
use s2c::network::inflight::InflightRequests;
use s2c::proto::io::{Body, S2cMessage};
use tokio::sync::oneshot::error::TryRecvError;

fn response(correlation_id: &str) -> S2cMessage {
    S2cMessage {
        correlation_id: correlation_id.to_string(),
        body: Some(Body::Other(vec![1, 2, 3])),
        error: None,
    }
}

#[test]
fn response_comes_out_of_the_channel_of_its_request() {
    let mut requests = InflightRequests::new();
    let mut first = requests.add("1".to_string());
    let mut second = requests.add("2".to_string());
    assert_eq!(requests.size(), 2);
    assert_eq!(requests.respond(response("2")), Some(Ok(())));
    assert_eq!(requests.size(), 1);
    assert_eq!(second.try_recv(), Ok(Ok(response("2"))));
    assert_eq!(first.try_recv(), Err(TryRecvError::Empty));
}

#[test]
fn request_is_answered_once() {
    let mut requests = InflightRequests::new();
    let mut receiver = requests.add("1".to_string());
    assert_eq!(requests.respond(response("1")), Some(Ok(())));
    assert_eq!(requests.respond(response("1")), None);
    assert_eq!(receiver.try_recv(), Ok(Ok(response("1"))));
}

#[test]
fn response_to_nobody_is_dropped() {
    let mut requests = InflightRequests::default();
    let mut receiver = requests.add("1".to_string());
    assert_eq!(requests.respond(response("other")), None);
    assert_eq!(requests.size(), 1);
    assert_eq!(receiver.try_recv(), Err(TryRecvError::Empty));
}

#[test]
fn response_that_nobody_waits_for_comes_back() {
    let mut requests = InflightRequests::new();
    drop(requests.add("1".to_string()));
    let back: Reply = Ok(response("1"));
    assert_eq!(requests.respond(response("1")), Some(Err(back)));
    assert_eq!(requests.size(), 0);
}

#[test]
fn request_under_the_same_id_replaces_the_earlier_one() {
    let mut requests = InflightRequests::new();
    let mut earlier = requests.add("1".to_string());
    let mut later = requests.add("1".to_string());
    assert_eq!(requests.size(), 1);
    assert_eq!(earlier.try_recv(), Err(TryRecvError::Closed));
    requests.respond(response("1"));
    assert_eq!(later.try_recv(), Ok(Ok(response("1"))));
}

#[test]
fn discarded_request_gets_no_reply() {
    let mut requests = InflightRequests::new();
    let mut receiver = requests.add("1".to_string());
    requests.discard("1".to_string());
    requests.discard("2".to_string());
    assert_eq!(requests.size(), 0);
    assert_eq!(requests.respond(response("1")), None);
    assert_eq!(receiver.try_recv(), Err(TryRecvError::Closed));
}

#[test]
fn every_request_is_told_of_a_failure() {
    let mut requests = InflightRequests::new();
    let mut first = requests.add("1".to_string());
    drop(requests.add("2".to_string()));
    let mut third = requests.add("3".to_string());
    let err = ClientError::Io("gone".to_string());
    let sent = requests.fail_all(&err);
    assert_eq!(sent.len(), 3);
    assert_eq!(sent.iter().filter(|one| one.is_ok()).count(), 2);
    assert_eq!(requests.size(), 0);
    assert_eq!(first.try_recv(), Ok(Err(err.clone())));
    assert_eq!(third.try_recv(), Ok(Err(err)));
}

#[test]
fn cleared_requests_are_given_up() {
    let mut requests = InflightRequests::new();
    let mut receiver = requests.add("1".to_string());
    requests.clear();
    assert_eq!(requests.size(), 0);
    assert_eq!(receiver.try_recv(), Err(TryRecvError::Closed));
}

#[test]
fn new_ids_are_counted() {
    let mut requests = InflightRequests::new();
    let _first = requests.add("1".to_string());
    assert_eq!(requests.size(), 1);
    let _second = requests.add("2".to_string());
    assert_eq!(requests.size(), 2);
    let _again = requests.add("1".to_string());
    assert_eq!(requests.size(), 2);
}
