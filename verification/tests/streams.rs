use hbbft::crypto::SecretKey;
use hydrabadger::{
    decide, key_gen, Error, InAddr, Message, Poll, SignedWireMessage, SocketAddr, WireMessage,
    WireMessageKind, WireMessages,
};

type Wire = WireMessage<u8, u64>;
type Stream = WireMessages<u8, u64>;
type Polled = Poll<Option<Result<Vec<u8>, std::io::Error>>>;

fn ack() -> hbbft::sync_key_gen::Ack {
    bincode::deserialize(&bincode::serialize(&(11u64, Vec::<u8>::new())).unwrap()).unwrap()
}

fn consensus_message() -> Message<u64> {
    let sig = SecretKey::random().sign("vote");
    let bytes = bincode::serialize(&(1u32, 5u64, 1u32, ack(), sig)).unwrap();
    bincode::deserialize(&bytes).unwrap()
}

/// A small encoding of the messages that these tests send.
fn encode(msg: &Wire) -> Result<Vec<u8>, bincode::Error> {
    match msg.kind() {
        WireMessageKind::Goodbye => Ok(vec![0]),
        WireMessageKind::Transaction(_, txn) => Ok(vec![1, *txn]),
        WireMessageKind::KeyGen(..) => Ok(vec![2]),
        WireMessageKind::Message(_, msg) => {
            let mut bytes = vec![3];
            bytes.extend(bincode::serialize(msg)?);
            Ok(bytes)
        }
        _ => Err(Box::new(bincode::ErrorKind::SizeLimit)),
    }
}

fn decode(bytes: &[u8]) -> Result<Wire, bincode::Error> {
    match bytes.first() {
        Some(0) => Ok(Wire::from(WireMessageKind::Goodbye)),
        Some(1) => Ok(Wire::transaction(7, bytes[1])),
        Some(2) => Ok(Wire::key_gen_ack(key_gen::InstanceId::BuiltIn, ack())),
        Some(3) => Ok(Wire::message(7, bincode::deserialize(&bytes[1..])?)),
        _ => Err(Box::new(bincode::ErrorKind::InvalidTagEncoding(99))),
    }
}

fn key_gen_message() -> Wire {
    Wire::key_gen_ack(key_gen::InstanceId::BuiltIn, ack())
}

fn frame(bytes: Vec<u8>) -> Polled {
    Poll::Ready(Some(Ok(bytes)))
}

fn receive(stream: &Stream, bytes: Vec<u8>) -> Result<Wire, Error> {
    match stream.poll_next(frame(bytes), decode) {
        Poll::Ready(Some(result)) => result,
        _ => panic!("nothing received"),
    }
}

#[test]
fn sent_message_is_received() {
    let sender = Stream::new(SecretKey::random());
    let mut receiver = Stream::new(SecretKey::random());
    assert!(receiver.try_set_peer_public_key(sender.local_public_key()));

    let sent = sender.send_msg(Wire::transaction(7, 33), encode).unwrap();
    let kind = receive(&receiver, sent).unwrap().into_kind();
    assert!(matches!(kind, WireMessageKind::Transaction(7, 33)));

    let sent = sender.send_msg(key_gen_message(), encode).unwrap();
    let kind = receive(&receiver, sent).unwrap().into_kind();
    assert!(matches!(kind, WireMessageKind::KeyGen(key_gen::InstanceId::BuiltIn, _)));

    let consensus = consensus_message();
    let text = format!("{:?}", consensus);
    let sent = sender.send_msg(Wire::message(7, consensus), encode).unwrap();
    match receive(&receiver, sent).unwrap().into_kind() {
        WireMessageKind::Message(7, msg) => assert_eq!(format!("{:?}", msg), text),
        kind => panic!("{:?}", kind),
    }
}

#[test]
fn sent_frame_carries_the_signed_encoding() {
    let sk = SecretKey::random();
    let sender = Stream::new(sk.clone());
    let sent = sender.send_msg(Wire::transaction(7, 33), encode).unwrap();
    let mut expected: Vec<u8> = vec![2, 0, 0, 0, 0, 0, 0, 0, 1, 33];
    expected.extend_from_slice(&sk.sign(&[1, 33]).to_bytes()[..]);
    assert_eq!(sent, expected);
    assert_eq!(sender.seal(vec![1, 33]).unwrap(), expected);
}

#[test]
fn local_public_key_belongs_to_the_local_secret_key() {
    let sk = SecretKey::random();
    assert_eq!(Stream::new(sk.clone()).local_public_key(), sk.public_key());
}

#[test]
fn message_that_does_not_encode_is_not_sent() {
    let sender = Stream::new(SecretKey::random());
    match sender.send_msg(Wire::from(WireMessageKind::RequestNetworkState), encode) {
        Err(Error::Serde(err)) => assert!(matches!(*err, bincode::ErrorKind::SizeLimit)),
        result => panic!("{:?}", result),
    }
}

#[test]
fn checked_message_from_unknown_peer_is_refused() {
    let sender = Stream::new(SecretKey::random());
    let receiver = Stream::new(SecretKey::random());
    let sent = sender.send_msg(key_gen_message(), encode).unwrap();
    assert!(matches!(
        receive(&receiver, sent),
        Err(Error::VerificationMessageReceivedUnknownPeer)
    ));
    let sent = sender.send_msg(Wire::message(7, consensus_message()), encode).unwrap();
    assert!(matches!(
        receive(&receiver, sent),
        Err(Error::VerificationMessageReceivedUnknownPeer)
    ));
}

#[test]
fn checked_message_with_another_key_is_refused() {
    let sender = Stream::new(SecretKey::random());
    let mut receiver = Stream::new(SecretKey::random());
    receiver.set_peer_public_key(SecretKey::random().public_key());
    let sent = sender.send_msg(key_gen_message(), encode).unwrap();
    assert!(matches!(receive(&receiver, sent), Err(Error::InvalidSignature)));
    let sent = sender.send_msg(Wire::message(7, consensus_message()), encode).unwrap();
    assert!(matches!(receive(&receiver, sent), Err(Error::InvalidSignature)));
}

#[test]
fn tampered_checked_message_is_refused() {
    let sender = Stream::new(SecretKey::random());
    let mut receiver = Stream::new(SecretKey::random());
    receiver.set_peer_public_key(sender.local_public_key());
    let mut sent = sender.send_msg(Wire::transaction(7, 33), encode).unwrap();
    sent[8] = 2;
    assert!(matches!(receive(&receiver, sent), Err(Error::InvalidSignature)));
}

#[test]
fn unchecked_message_needs_no_key() {
    let sender = Stream::new(SecretKey::random());
    let sent = sender.send_msg(Wire::from(WireMessageKind::Goodbye), encode).unwrap();

    let unknown = Stream::new(SecretKey::random());
    let kind = receive(&unknown, sent.clone()).unwrap().into_kind();
    assert!(matches!(kind, WireMessageKind::Goodbye));

    let mut wrong = Stream::new(SecretKey::random());
    wrong.set_peer_public_key(SecretKey::random().public_key());
    let kind = receive(&wrong, sent).unwrap().into_kind();
    assert!(matches!(kind, WireMessageKind::Goodbye));
}

#[test]
fn bytes_that_are_no_frame_are_refused() {
    let receiver = Stream::new(SecretKey::random());
    assert!(matches!(receive(&receiver, Vec::new()), Err(Error::Serde(_))));
    assert!(matches!(receive(&receiver, vec![0; 104]), Err(Error::Serde(_))));
    match receive(&receiver, vec![0; 104]) {
        Err(Error::Serde(err)) => {
            assert_eq!(err.to_string(), "deserialized bytes don't encode a group element");
        }
        result => panic!("{:?}", result),
    }
}

#[test]
fn message_that_does_not_decode_is_refused() {
    let sender = Stream::new(SecretKey::random());
    let receiver = Stream::new(SecretKey::random());
    match receive(&receiver, sender.seal(vec![77]).unwrap()) {
        Err(Error::Serde(err)) => {
            assert!(matches!(*err, bincode::ErrorKind::InvalidTagEncoding(99)));
        }
        result => panic!("{:?}", result),
    }
}

#[test]
fn receive_decides_on_what_was_decoded() {
    let sk = SecretKey::random();
    let signed = SignedWireMessage::sign(vec![2], &sk);
    let mut receiver = Stream::new(SecretKey::random());
    assert!(matches!(
        receiver.receive(&signed, Ok(key_gen_message())),
        Err(Error::VerificationMessageReceivedUnknownPeer)
    ));
    assert!(receiver.receive(&signed, Ok(Wire::from(WireMessageKind::Goodbye))).is_ok());
    assert!(matches!(
        receiver.receive(&signed, Err(Box::new(bincode::ErrorKind::SizeLimit))),
        Err(Error::Serde(_))
    ));
    receiver.set_peer_public_key(sk.public_key());
    assert!(receiver.receive(&signed, Ok(key_gen_message())).is_ok());
    let other = SignedWireMessage::sign(vec![2], &SecretKey::random());
    assert!(matches!(
        receiver.receive(&other, Ok(key_gen_message())),
        Err(Error::InvalidSignature)
    ));
}

#[test]
fn connection_events_are_passed_on() {
    let stream = Stream::new(SecretKey::random());
    assert!(matches!(stream.poll_next(Poll::Pending, decode), Poll::Pending));
    assert!(matches!(stream.poll_next(Poll::Ready(None), decode), Poll::Ready(None)));
    let reset = std::io::Error::new(std::io::ErrorKind::ConnectionReset, "reset");
    match stream.poll_next(Poll::Ready(Some(Err(reset))), decode) {
        Poll::Ready(Some(Err(Error::Io(err)))) => {
            assert_eq!(err.kind(), std::io::ErrorKind::ConnectionReset);
        }
        _ => panic!("no error"),
    }
}

#[test]
fn io_error_becomes_an_error() {
    let err = std::io::Error::new(std::io::ErrorKind::TimedOut, "late");
    match Error::from(err) {
        Error::Io(err) => assert_eq!(err.kind(), std::io::ErrorKind::TimedOut),
        err => panic!("{:?}", err),
    }
}

#[test]
fn peer_key_never_changes() {
    let sender = Stream::new(SecretKey::random());
    let mut receiver = Stream::new(SecretKey::random());
    let pk = sender.local_public_key();
    assert!(receiver.try_set_peer_public_key(pk));
    assert!(receiver.try_set_peer_public_key(pk));
    assert!(!receiver.try_set_peer_public_key(SecretKey::random().public_key()));
    assert!(receiver.try_set_peer_public_key(sender.local_public_key()));
    receiver.set_peer_public_key(pk);

    let sent = sender.send_msg(key_gen_message(), encode).unwrap();
    assert!(receive(&receiver, sent).is_ok());
}

#[test]
fn kinds_that_need_verification() {
    assert!(key_gen_message().kind().needs_verification());
    assert!(Wire::message(7, consensus_message()).kind().needs_verification());
    assert!(!Wire::transaction(7, 33).kind().needs_verification());
    assert!(!Wire::from(WireMessageKind::Goodbye).kind().needs_verification());
    assert!(!Wire::from(WireMessageKind::RequestNetworkState).kind().needs_verification());
    let pk = SecretKey::random().public_key();
    let addr = InAddr(SocketAddr::V4 { octets: [1, 2, 3, 4], port: 5 });
    assert!(!Wire::hello_request_change_add(1, addr, pk).kind().needs_verification());
}

#[test]
fn decision_follows_the_verdict() {
    assert!(matches!(
        decide(key_gen_message(), None),
        Err(Error::VerificationMessageReceivedUnknownPeer)
    ));
    assert!(matches!(decide(key_gen_message(), Some(false)), Err(Error::InvalidSignature)));
    assert!(matches!(
        decide(key_gen_message(), Some(true)).unwrap().into_kind(),
        WireMessageKind::KeyGen(..)
    ));
    for verdict in vec![None, Some(false), Some(true)] {
        let kind = decide(Wire::transaction(7, 33), verdict).unwrap().into_kind();
        assert!(matches!(kind, WireMessageKind::Transaction(7, 33)));
    }
}
