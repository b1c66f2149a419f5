use qcomms::CommsError;
use qcomms::Identity;
use qcomms::MemStream;
use qcomms::Message;
use qcomms::SyncComms;
use qcomms::SyncObjComms;
use qcomms::SyncSteer;
use qcomms::Wire;
use qcomms::XorCipher;
use qcomms::keepalive_token;

fn shuttle(from: &mut MemStream, to: &mut MemStream) {
    let wire = from.take_output();
    to.feed(&wire);
}

#[test]
fn raw_round_trip() {
    let mut a = MemStream::new();
    a.send(&[1u8, 2, 3]).unwrap();
    let mut b = MemStream::new();
    shuttle(&mut a, &mut b);
    assert_eq!(b.receive().unwrap(), vec![1u8, 2, 3]);
}

#[test]
fn zero_length_payload() {
    let mut a = MemStream::new();
    a.send(&[]).unwrap();
    let wire = a.take_output();
    assert_eq!(wire, vec![0u8; 8]);
    let mut b = MemStream::new();
    b.feed(&wire);
    assert_eq!(b.receive().unwrap(), Vec::<u8>::new());
}

#[test]
fn three_frames_in_order() {
    let mut a = MemStream::new();
    a.send(&[1u8]).unwrap();
    a.send(&[2u8, 2]).unwrap();
    a.send(&[3u8, 3, 3]).unwrap();
    let mut b = MemStream::new();
    shuttle(&mut a, &mut b);
    assert_eq!(b.receive().unwrap(), vec![1u8]);
    assert_eq!(b.receive().unwrap(), vec![2u8, 2]);
    assert_eq!(b.receive().unwrap(), vec![3u8, 3, 3]);
}

#[test]
fn receive_on_empty_stream_is_eof() {
    let mut b = MemStream::new();
    assert!(matches!(b.receive(), Err(CommsError::UnexpectedEof)));
}

#[test]
fn receive_on_partial_header_is_eof() {
    let mut b = MemStream::new();
    b.feed(&[1u8, 2, 3]);
    assert!(matches!(b.receive(), Err(CommsError::UnexpectedEof)));
}

#[test]
fn receive_on_short_payload_is_eof() {
    let mut b = MemStream::new();
    b.feed(&[5u8, 0, 0, 0, 0, 0, 0, 0, 1, 2]);
    assert!(matches!(b.receive(), Err(CommsError::UnexpectedEof)));
}

#[test]
fn receive_to_string_decodes_utf8() {
    let mut a = MemStream::new();
    a.send("hello".as_bytes()).unwrap();
    let mut b = MemStream::new();
    shuttle(&mut a, &mut b);
    assert_eq!(b.receive_to_string().unwrap(), "hello");
}

#[test]
fn receive_to_string_replaces_invalid_utf8() {
    let mut a = MemStream::new();
    a.send(&[0xFFu8, b'a']).unwrap();
    let mut b = MemStream::new();
    shuttle(&mut a, &mut b);
    assert_eq!(b.receive_to_string().unwrap(), "\u{FFFD}a");
}

#[test]
fn keepalive_frame_bytes() {
    assert_eq!(keepalive_token(), vec![19u8, 233, 92, 175]);
    let mut a = MemStream::new();
    a.send_keepalive().unwrap();
    assert_eq!(a.take_output(), vec![4u8, 0, 0, 0, 0, 0, 0, 0, 19, 233, 92, 175]);
}

#[test]
fn keepalive_accepts_token() {
    let mut a = MemStream::new();
    a.send_keepalive().unwrap();
    let mut b = MemStream::new();
    shuttle(&mut a, &mut b);
    b.receive_keepalive().unwrap();
}

#[test]
fn keepalive_rejects_other_payload() {
    let mut a = MemStream::new();
    a.send(&[1u8, 2, 3, 4]).unwrap();
    let mut b = MemStream::new();
    shuttle(&mut a, &mut b);
    match b.receive_keepalive() {
        Err(CommsError::KeepaliveMismatch(p)) => assert_eq!(p, vec![1u8, 2, 3, 4]),
        other => panic!("expected a keepalive mismatch, got {:?}", other),
    }
}

#[test]
fn handshake_completes_both_sides() {
    // Emulate the concurrent exchange: the responder's reply is made
    // available to the initiator up front.
    let mut probe = MemStream::new();
    probe.send_keepalive().unwrap();
    let token_frame = probe.take_output();

    let mut a = MemStream::new();
    a.feed(&token_frame);
    a.send_handshake().unwrap();

    let mut b = MemStream::new();
    shuttle(&mut a, &mut b);
    b.receive_handshake().unwrap();
    // The responder's reply is exactly what the initiator consumed.
    assert_eq!(b.take_output(), token_frame);
}

#[test]
fn handshake_fails_on_different_token() {
    let mut bad = MemStream::new();
    bad.send(&[9u8, 8, 7, 6]).unwrap();
    let bad_frame = bad.take_output();

    let mut a = MemStream::new();
    a.feed(&bad_frame);
    match a.send_handshake() {
        Err(CommsError::KeepaliveMismatch(p)) => assert_eq!(p, vec![9u8, 8, 7, 6]),
        other => panic!("expected a keepalive mismatch, got {:?}", other),
    }
    // The responder that sees a bad token sends nothing back.
    let mut b = MemStream::new();
    b.feed(&bad_frame);
    assert!(matches!(
        b.receive_handshake(),
        Err(CommsError::KeepaliveMismatch(_))
    ));
    assert_eq!(b.take_output(), Vec::<u8>::new());
}

#[test]
fn typed_round_trip() {
    let m = Message { hello: String::from("world"), val: 23924 };
    let mut a = MemStream::new();
    a.tx(&m).unwrap();
    let mut b = MemStream::new();
    shuttle(&mut a, &mut b);
    let got: Message = b.rx().unwrap();
    assert_eq!(got, m);
}

#[test]
fn string_then_message_round_trip() {
    // A string first, then a record, over one connection: the receiver
    // must name the expected type at each call site.
    let mut a = MemStream::new();
    a.tx(&String::from("Hi there!")).unwrap();
    let m = Message { hello: String::from("world"), val: 23924 };
    a.tx(&m).unwrap();
    let mut b = MemStream::new();
    shuttle(&mut a, &mut b);
    let s: String = b.rx().unwrap();
    assert_eq!(s, "Hi there!");
    let got: Message = b.rx().unwrap();
    assert_eq!(got, m);
}

#[test]
fn string_encoding_matches_bincode() {
    let s = String::from("hi");
    let enc = s.encode();
    assert_eq!(enc, vec![2u8, 0, 0, 0, 0, 0, 0, 0, b'h', b'i']);
    assert_eq!(enc, bincode::serialize(&s).unwrap());
    assert_eq!(String::decode(&enc).unwrap(), s);
}

#[test]
fn string_decode_rejects_bad_input() {
    // Shorter than its own header.
    assert!(matches!(
        String::decode(&[1u8, 2]),
        Err(CommsError::Decode(_))
    ));
    // Announces more bytes than there are.
    assert!(matches!(
        String::decode(&[5u8, 0, 0, 0, 0, 0, 0, 0, b'a']),
        Err(CommsError::Decode(_))
    ));
    // Not valid UTF-8.
    assert!(matches!(
        String::decode(&[1u8, 0, 0, 0, 0, 0, 0, 0, 0xFF]),
        Err(CommsError::Decode(_))
    ));
}

#[test]
fn message_encoding_matches_bincode() {
    let m = Message { hello: String::from("hi"), val: 5 };
    let enc = m.encode();
    assert_eq!(enc, vec![2u8, 0, 0, 0, 0, 0, 0, 0, b'h', b'i', 5, 0, 0, 0]);
    assert_eq!(enc, bincode::serialize(&(String::from("hi"), 5u32)).unwrap());
    let back = Message::decode(&enc).unwrap();
    assert_eq!(back, m);
}

#[test]
fn empty_string_message_round_trip() {
    let m = Message { hello: String::new(), val: 0 };
    let mut a = MemStream::new();
    a.tx(&m).unwrap();
    let mut b = MemStream::new();
    shuttle(&mut a, &mut b);
    let got: Message = b.rx().unwrap();
    assert_eq!(got, m);
}

#[test]
fn message_decode_rejects_garbage() {
    assert!(matches!(
        Message::decode(&[1u8, 2, 3]),
        Err(CommsError::Decode(_))
    ));
}

#[test]
fn rx_reports_decode_failure() {
    let mut a = MemStream::new();
    a.send(&[9u8, 9, 9]).unwrap();
    let mut b = MemStream::new();
    shuttle(&mut a, &mut b);
    let r: Result<Message, CommsError> = b.rx();
    assert!(matches!(r, Err(CommsError::Decode(_))));
}

#[test]
fn steer_identity_round_trip() {
    let key = [0u8; 4];
    let m = Message { hello: String::from("steer"), val: 77 };

    let mut plain = MemStream::new();
    plain.tx(&m).unwrap();
    let plain_wire = plain.take_output();

    let mut tx_side: SyncSteer<MemStream, Identity> = SyncSteer::new(MemStream::new(), &key);
    tx_side.tx(&m).unwrap();
    let wire = tx_side.into_inner().take_output();
    // The identity transform frames exactly the plain encoding.
    assert_eq!(wire, plain_wire);

    let mut rx_inner = MemStream::new();
    rx_inner.feed(&wire);
    let mut rx_side: SyncSteer<MemStream, Identity> = SyncSteer::new(rx_inner, &key);
    let got: Message = rx_side.rx().unwrap();
    assert_eq!(got, m);
}

#[test]
fn steer_xor_round_trip() {
    let key = [7u8, 13, 200];
    let m = Message { hello: String::from("secret"), val: 424242 };

    let mut plain = MemStream::new();
    plain.tx(&m).unwrap();
    let plain_wire = plain.take_output();

    let mut tx_side: SyncSteer<MemStream, XorCipher> = SyncSteer::new(MemStream::new(), &key);
    tx_side.tx(&m).unwrap();
    let wire = tx_side.into_inner().take_output();
    // The payload really is transformed; only the headers agree.
    assert_ne!(wire, plain_wire);
    assert_eq!(wire[..8], plain_wire[..8]);

    let mut rx_inner = MemStream::new();
    rx_inner.feed(&wire);
    let mut rx_side: SyncSteer<MemStream, XorCipher> = SyncSteer::new(rx_inner, &key);
    let got: Message = rx_side.rx().unwrap();
    assert_eq!(got, m);
}

#[test]
fn steer_xor_wrong_key_fails_decode() {
    let tx_key = [0x5Au8];
    let rx_key = [0xA5u8];
    let m = Message { hello: String::from("abc"), val: 1 };

    let mut tx_side: SyncSteer<MemStream, XorCipher> = SyncSteer::new(MemStream::new(), &tx_key);
    tx_side.tx(&m).unwrap();
    let wire = tx_side.into_inner().take_output();

    let mut rx_inner = MemStream::new();
    rx_inner.feed(&wire);
    let mut rx_side: SyncSteer<MemStream, XorCipher> = SyncSteer::new(rx_inner, &rx_key);
    let r: Result<Message, CommsError> = rx_side.rx();
    assert!(matches!(r, Err(CommsError::Decode(_))));
}

#[test]
fn steer_set_key_rebinds() {
    let old_key = [1u8, 2, 3];
    let new_key = [200u8, 100];
    let m = Message { hello: String::from("rekey"), val: 9 };

    let mut tx_side: SyncSteer<MemStream, XorCipher> = SyncSteer::new(MemStream::new(), &old_key);
    tx_side.set_key(&new_key);
    tx_side.tx(&m).unwrap();
    let wire = tx_side.into_inner().take_output();

    let mut rx_inner = MemStream::new();
    rx_inner.feed(&wire);
    let mut rx_side: SyncSteer<MemStream, XorCipher> = SyncSteer::new(rx_inner, &new_key);
    let got: Message = rx_side.rx().unwrap();
    assert_eq!(got, m);
}
