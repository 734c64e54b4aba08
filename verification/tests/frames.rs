use hbbft::crypto::{SecretKey, Signature};
use hydrabadger::{Error, SignedWireMessage};

fn expected_frame(message: &[u8], sk: &SecretKey) -> Vec<u8> {
    let mut frame: Vec<u8> = (message.len() as u64).to_le_bytes().to_vec();
    frame.extend_from_slice(message);
    frame.extend_from_slice(&sk.sign(message).to_bytes()[..]);
    frame
}

fn is_serde_error(frame: &[u8]) -> bool {
    matches!(SignedWireMessage::from_frame(frame), Err(Error::Serde(_)))
}

#[test]
fn frame_has_length_message_and_signature() {
    let sk = SecretKey::random();
    let frame = SignedWireMessage::sign(vec![1, 2, 3], &sk).to_frame().unwrap();
    assert_eq!(frame.len(), 8 + 3 + 96);
    assert_eq!(&frame[..11], &[3, 0, 0, 0, 0, 0, 0, 0, 1, 2, 3][..]);
    assert_eq!(frame, expected_frame(&[1, 2, 3], &sk));
}

#[test]
fn frame_of_a_long_message_uses_the_second_length_byte() {
    let sk = SecretKey::random();
    let message: Vec<u8> = vec![7; 258];
    let frame = SignedWireMessage::sign(message.clone(), &sk).to_frame().unwrap();
    assert_eq!(&frame[..8], &[2, 1, 0, 0, 0, 0, 0, 0][..]);
    assert_eq!(frame, expected_frame(&message, &sk));
}

#[test]
fn frame_is_the_encoding_of_the_pair() {
    let sk = SecretKey::random();
    let message: Vec<u8> = vec![9, 8, 7];
    let sig = sk.sign(&message);
    let frame = SignedWireMessage::sign(message.clone(), &sk).to_frame().unwrap();
    assert_eq!(frame, bincode::serialize(&(message, sig)).unwrap());
}

#[test]
fn frame_gives_back_message_and_signature() {
    let sk = SecretKey::random();
    let frame = SignedWireMessage::sign(b"attack at dawn".to_vec(), &sk).to_frame().unwrap();
    let signed = SignedWireMessage::from_frame(&frame).unwrap();
    assert_eq!(signed.message_bytes(), &b"attack at dawn"[..]);
    assert!(signed.verify(&sk.public_key()));
    assert_eq!(signed.to_frame().unwrap(), frame);
}

#[test]
fn empty_message_can_be_framed() {
    let sk = SecretKey::random();
    let frame = SignedWireMessage::sign(Vec::new(), &sk).to_frame().unwrap();
    assert_eq!(frame.len(), 8 + 96);
    let signed = SignedWireMessage::from_frame(&frame).unwrap();
    assert!(signed.message_bytes().is_empty());
    assert!(signed.verify(&sk.public_key()));
}

#[test]
fn signing_with_the_zero_key_can_be_framed() {
    let sk = SecretKey::default();
    let frame = SignedWireMessage::sign(vec![1], &sk).to_frame().unwrap();
    let signed = SignedWireMessage::from_frame(&frame).unwrap();
    assert!(signed.verify(&sk.public_key()));
}

#[test]
fn frame_ignores_what_follows() {
    let sk = SecretKey::random();
    let mut frame = SignedWireMessage::sign(vec![5, 6], &sk).to_frame().unwrap();
    let len = frame.len();
    frame.extend_from_slice(&[1, 2, 3, 4]);
    let signed = SignedWireMessage::from_frame(&frame).unwrap();
    assert_eq!(signed.message_bytes(), &[5, 6][..]);
    assert_eq!(signed.to_frame().unwrap(), frame[..len].to_vec());
}

#[test]
fn frames_of_different_messages_differ() {
    let sk = SecretKey::random();
    let one = SignedWireMessage::sign(vec![1], &sk).to_frame().unwrap();
    let two = SignedWireMessage::sign(vec![2], &sk).to_frame().unwrap();
    assert_ne!(one, two);
}

#[test]
fn short_frames_are_refused() {
    let sk = SecretKey::random();
    let frame = SignedWireMessage::sign(vec![1, 2, 3], &sk).to_frame().unwrap();
    for len in 0..frame.len() {
        assert!(is_serde_error(&frame[..len]), "{} bytes", len);
    }
    assert!(!is_serde_error(&frame));
}

#[test]
fn frame_that_declares_too_much_is_refused() {
    let sk = SecretKey::random();
    let mut frame = SignedWireMessage::sign(vec![1, 2, 3], &sk).to_frame().unwrap();
    frame[0] = 4;
    assert!(is_serde_error(&frame));
    frame[7] = 0xff;
    assert!(is_serde_error(&frame));
}

#[test]
fn frame_without_a_signature_encoding_is_refused() {
    let mut frame: Vec<u8> = vec![1, 0, 0, 0, 0, 0, 0, 0, 42];
    frame.extend_from_slice(&[0; 96]);
    assert!(is_serde_error(&frame));
}

#[test]
fn each_damage_has_its_error() {
    let sk = SecretKey::random();
    let frame = SignedWireMessage::sign(vec![1, 2, 3], &sk).to_frame().unwrap();
    for len in vec![0, 7, 8, 10, 11, 50, frame.len() - 1] {
        match SignedWireMessage::from_frame(&frame[..len]) {
            Err(Error::Serde(err)) => match *err {
                bincode::ErrorKind::Io(err) => {
                    assert_eq!(err.kind(), std::io::ErrorKind::UnexpectedEof);
                }
                kind => panic!("{:?}", kind),
            },
            result => panic!("{:?}", result),
        }
    }
    let mut unsigned = frame[..11].to_vec();
    unsigned.extend_from_slice(&[0; 96]);
    match SignedWireMessage::from_frame(&unsigned) {
        Err(Error::Serde(err)) => {
            assert_eq!(err.to_string(), "deserialized bytes don't encode a group element");
        }
        result => panic!("{:?}", result),
    }
}

#[test]
fn damage_has_the_error_of_the_deserializer() {
    let damaged: Vec<Vec<u8>> = vec![Vec::new(), vec![0; 8], vec![255; 104], vec![0; 104], vec![1; 200]];
    for frame in damaged {
        let decoded: Result<(Vec<u8>, Signature), bincode::Error> = bincode::deserialize(&frame);
        match SignedWireMessage::from_frame(&frame) {
            Err(Error::Serde(err)) => {
                assert_eq!(format!("{:?}", err), format!("{:?}", decoded.unwrap_err()));
            }
            result => panic!("{:?}", result),
        }
    }
}

#[test]
fn signature_is_bound_to_key_and_message() {
    let sk = SecretKey::random();
    let other = SecretKey::random();
    let signed = SignedWireMessage::sign(b"Real news".to_vec(), &sk);
    assert!(signed.verify(&sk.public_key()));
    assert!(!signed.verify(&other.public_key()));

    let mut frame = signed.to_frame().unwrap();
    frame[8] = b'D';
    let forged = SignedWireMessage::from_frame(&frame).unwrap();
    assert_eq!(forged.message_bytes(), &b"Deal news"[..]);
    assert!(!forged.verify(&sk.public_key()));
}

#[test]
fn clone_of_a_signed_message_has_the_same_frame() {
    let sk = SecretKey::random();
    let signed = SignedWireMessage::sign(vec![1, 2], &sk);
    assert_eq!(signed.clone().to_frame().unwrap(), signed.to_frame().unwrap());
}
