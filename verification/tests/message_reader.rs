use s2c::network::error::NetworkError;
use s2c::network::frame::{encode_frame, frame_size, HEADER_SIZE};
use s2c::network::message_reader::{
    Failure, ReadAction, ReadEvent, S2CMessageReaderImpl, S2CMessageReaderTestWrapper,
    S2cMessageReader,
};
use s2c::proto::io::{Body, S2cMessage};
use std::cell::RefCell;
use std::collections::VecDeque;

/// Decodes a payload to a message that carries it.
fn decode(payload: &[u8]) -> Result<S2cMessage, String> {
    if payload.first() == Some(&0xff) {
        return Err("bad".to_string());
    }
    Ok(S2cMessage {
        correlation_id: "id".to_string(),
        body: Some(Body::Other(payload.to_vec())),
        error: None,
    })
}

/// Reads the next message off a stream of bytes.
fn read<R: S2cMessageReader>(reader: &mut R, stream: &mut Vec<u8>) -> Result<S2cMessage, NetworkError> {
    let mut event = ReadEvent::Wanted;
    loop {
        event = match reader.read_next_message(event) {
            ReadAction::ReadSize => {
                if stream.len() < HEADER_SIZE {
                    ReadEvent::Failed("eof".to_string())
                } else {
                    let header: Vec<u8> = stream.drain(..HEADER_SIZE).collect();
                    ReadEvent::SizeRead(frame_size(&header))
                }
            }
            ReadAction::Skip(size) => {
                let end = std::cmp::min(size as usize, stream.len());
                stream.drain(..end);
                ReadEvent::Skipped(size)
            }
            ReadAction::ReadBody(size) => {
                if stream.len() < size as usize {
                    ReadEvent::Failed("eof".to_string())
                } else {
                    let body: Vec<u8> = stream.drain(..size as usize).collect();
                    reader.buf_mut()[..size as usize].copy_from_slice(&body);
                    ReadEvent::BodyRead(size)
                }
            }
            ReadAction::Decode(size) => ReadEvent::Decoded(decode(&reader.buf()[..size as usize])),
            ReadAction::Return(result) => return result,
        };
    }
}

fn payload_of(message: S2cMessage) -> Vec<u8> {
    match message.body {
        Some(Body::Other(payload)) => payload,
        _ => panic!("not a payload"),
    }
}

fn sent(payloads: &[Vec<u8>]) -> Vec<u8> {
    let mut stream = Vec::new();
    for payload in payloads {
        stream.extend(encode_frame(payload).unwrap());
    }
    stream
}

#[test]
fn frame_is_the_length_and_the_payload() {
    assert_eq!(encode_frame(&[7, 8]), Some(vec![0, 0, 0, 2, 7, 8]));
    assert_eq!(encode_frame(&[]), Some(vec![0, 0, 0, 0]));
    assert_eq!(frame_size(&[0x12, 0x34, 0x56, 0x78]), 0x1234_5678);
    assert_eq!(frame_size(&[0xff, 0xff, 0xff, 0xff]), u32::MAX);
    let long = encode_frame(&vec![0u8; 0x1_0203]).unwrap();
    assert_eq!(long[..HEADER_SIZE], [0, 1, 2, 3]);
}

#[test]
fn new_reader_has_a_buffer_of_zeros() {
    let reader = S2CMessageReaderImpl::new(10);
    assert_eq!(reader.buf(), &vec![0u8; 1024]);
}

#[test]
fn messages_are_read_back_in_turn() {
    let mut reader = S2CMessageReaderImpl::new(5_000);
    let payloads = vec![vec![1, 2, 3], vec![], vec![4u8; 3_000], vec![5]];
    let mut stream = sent(&payloads);
    for payload in payloads {
        assert_eq!(payload_of(read(&mut reader, &mut stream).unwrap()), payload);
    }
    assert!(stream.is_empty());
    assert_eq!(reader.buf().len(), 3_000);
}

#[test]
fn long_message_is_skipped_and_the_next_one_read() {
    let mut reader = S2CMessageReaderImpl::new(3);
    let mut stream = sent(&[vec![1, 2, 3, 4], vec![5, 6, 7]]);
    assert_eq!(
        read(&mut reader, &mut stream),
        Err(NetworkError::MessageTooLarge { max: 3, size: 4 })
    );
    assert_eq!(payload_of(read(&mut reader, &mut stream).unwrap()), vec![5, 6, 7]);
    assert_eq!(reader.buf().len(), 1024);
}

#[test]
fn long_message_that_is_cut_off_is_refused_all_the_same() {
    let mut reader = S2CMessageReaderImpl::new(3);
    let mut stream = vec![0, 0, 0, 9, 1];
    assert_eq!(
        read(&mut reader, &mut stream),
        Err(NetworkError::MessageTooLarge { max: 3, size: 9 })
    );
}

#[test]
fn failed_reads_are_reported() {
    let mut reader = S2CMessageReaderImpl::new(10);
    let eof = Err(NetworkError::Io { err: "eof".to_string() });
    assert_eq!(read(&mut reader, &mut vec![0, 0]), eof);
    assert_eq!(read(&mut reader, &mut vec![0, 0, 0, 2, 1]), eof);
}

#[test]
fn messages_that_cannot_be_decoded_are_reported() {
    let mut reader = S2CMessageReaderImpl::new(10);
    let mut stream = sent(&[vec![0xff, 1]]);
    assert_eq!(
        read(&mut reader, &mut stream),
        Err(NetworkError::InvalidProtobuf { err: "bad".to_string() })
    );
}

#[test]
fn failures_come_in_turn() {
    let inspected = RefCell::new(Vec::new());
    let failures: VecDeque<Failure> = VecDeque::from(vec![Failure::Io, Failure::Drop]);
    let mut reader = S2CMessageReaderTestWrapper::new(
        S2CMessageReaderImpl::new(10),
        failures,
        || 2,
        |message: &S2cMessage| inspected.borrow_mut().push(message.body == Some(Body::Other(vec![3]))),
    );
    let payloads: Vec<Vec<u8>> = (1..=7u8).map(|n| vec![n]).collect();
    let mut stream = sent(&payloads);
    assert_eq!(payload_of(read(&mut reader, &mut stream).unwrap()), vec![1]);
    assert_eq!(read(&mut reader, &mut stream), Err(NetworkError::Io { err: "Error".to_string() }));
    assert_eq!(payload_of(read(&mut reader, &mut stream).unwrap()), vec![3]);
    // The fourth message is lost.
    assert_eq!(payload_of(read(&mut reader, &mut stream).unwrap()), vec![5]);
    assert_eq!(read(&mut reader, &mut stream), Err(NetworkError::Io { err: "Error".to_string() }));
    assert_eq!(payload_of(read(&mut reader, &mut stream).unwrap()), vec![7]);
    assert_eq!(*inspected.borrow(), vec![false, false, true, false, false, false, false]);
}

#[test]
fn nothing_fails_without_a_rate_or_without_failures() {
    let mut reader = S2CMessageReaderTestWrapper::new(
        S2CMessageReaderImpl::new(10),
        VecDeque::from(vec![Failure::Io]),
        || 0,
        |_: &S2cMessage| {},
    );
    let mut stream = sent(&[vec![1], vec![2]]);
    assert_eq!(payload_of(read(&mut reader, &mut stream).unwrap()), vec![1]);
    assert_eq!(payload_of(read(&mut reader, &mut stream).unwrap()), vec![2]);

    let mut reader = S2CMessageReaderTestWrapper::new(
        S2CMessageReaderImpl::new(10),
        VecDeque::new(),
        || 1,
        |_: &S2cMessage| {},
    );
    let mut stream = sent(&[vec![1], vec![2]]);
    assert_eq!(payload_of(read(&mut reader, &mut stream).unwrap()), vec![1]);
    assert_eq!(payload_of(read(&mut reader, &mut stream).unwrap()), vec![2]);
}

#[test]
fn rate_can_change_between_messages() {
    let mut rates = vec![1usize, 0, 3].into_iter();
    let mut reader = S2CMessageReaderTestWrapper::new(
        S2CMessageReaderImpl::new(10),
        VecDeque::from(vec![Failure::Io]),
        move || rates.next().unwrap_or(0),
        |_: &S2cMessage| {},
    );
    let mut stream = sent(&[vec![1], vec![2], vec![3], vec![4]]);
    assert!(read(&mut reader, &mut stream).is_err());
    assert!(read(&mut reader, &mut stream).is_ok());
    assert!(read(&mut reader, &mut stream).is_err());
    assert!(read(&mut reader, &mut stream).is_ok());
}

#[test]
fn errors_of_the_inner_reader_are_not_counted() {
    let mut reader = S2CMessageReaderTestWrapper::new(
        S2CMessageReaderImpl::new(2),
        VecDeque::from(vec![Failure::Io]),
        || 2,
        |_: &S2cMessage| {},
    );
    let mut stream = sent(&[vec![1, 1, 1], vec![2], vec![3]]);
    assert_eq!(
        read(&mut reader, &mut stream),
        Err(NetworkError::MessageTooLarge { max: 2, size: 3 })
    );
    assert!(read(&mut reader, &mut stream).is_ok());
    assert!(read(&mut reader, &mut stream).is_err());
}

#[test]
fn failures_are_kept_across_reads() {
    let mut reader = S2CMessageReaderTestWrapper::new(
        S2CMessageReaderImpl::new(1024),
        VecDeque::from(vec![Failure::Drop, Failure::Io]),
        || 2,
        |_: &S2cMessage| {},
    );
    let payloads: Vec<Vec<u8>> = (1..=7u8).map(|n| vec![n]).collect();
    let mut stream = sent(&payloads);
    assert_eq!(payload_of(read(&mut reader, &mut stream).unwrap()), vec![1]);
    // The second message is lost.
    assert_eq!(payload_of(read(&mut reader, &mut stream).unwrap()), vec![3]);
    assert_eq!(read(&mut reader, &mut stream), Err(NetworkError::Io { err: "Error".to_string() }));
    assert_eq!(payload_of(read(&mut reader, &mut stream).unwrap()), vec![5]);
    // The sixth message is lost.
    assert_eq!(payload_of(read(&mut reader, &mut stream).unwrap()), vec![7]);
}
