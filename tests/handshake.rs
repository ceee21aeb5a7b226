use ockam_channel::error::SecureChannelError;
use ockam_channel::local_info::{expect_type, LocalInfo, LocalInfoKind};
use ockam_channel::relay::{validate, RelayEnvelope};
use ockam_channel::session::{associated_data, ChannelState, Role, Session, SessionKeys};
use ockam_channel::wire::{HandshakeStage, MessageKind, WireMessage};

// Stand-ins for the caller's cryptography: deterministic functions of their
// inputs, enough to drive the state machine as two real peers would.

fn mix(parts: &[&[u8]]) -> Vec<u8> {
    let mut acc: [u8; 8] = [0x6b, 0x1d, 0x53, 0x97, 0x21, 0xe4, 0x0f, 0xc8];
    let mut i: usize = 0;
    for p in parts {
        for b in p.iter() {
            acc[i % 8] = acc[i % 8].wrapping_mul(31).wrapping_add(*b ^ (i as u8));
            i += 1;
        }
        acc[i % 8] ^= 0xff;
        i += 1;
    }
    acc.to_vec()
}

fn response_tag(e_i: &[u8], e_r: &[u8], id_r: &[u8]) -> Vec<u8> {
    mix(&[b"two", e_i, e_r, id_r])
}

fn confirmation_tag(e_i: &[u8], e_r: &[u8], id_i: &[u8]) -> Vec<u8> {
    mix(&[b"three", e_i, e_r, id_i])
}

fn derive(e_i: &[u8], e_r: &[u8]) -> SessionKeys {
    SessionKeys { initiator_to_responder: mix(&[b"i2r", e_i, e_r]), responder_to_initiator: mix(&[b"r2i", e_i, e_r]) }
}

fn keystream_xor(key: &[u8], ad: &[u8], data: &[u8]) -> Vec<u8> {
    let pad = mix(&[key, ad]);
    data.iter().enumerate().map(|(i, b)| b ^ pad[i % pad.len()] ^ (i as u8)).collect()
}

fn seal(key: &[u8], ad: &[u8], plaintext: &[u8]) -> (Vec<u8>, Vec<u8>) {
    let c = keystream_xor(key, ad, plaintext);
    let t = mix(&[key, ad, &c]);
    (c, t)
}

fn open(key: &[u8], ad: &[u8], ciphertext: &[u8], tag: &[u8]) -> Option<Vec<u8>> {
    if mix(&[key, ad, ciphertext]) != tag {
        return None;
    }
    Some(keystream_xor(key, ad, ciphertext))
}

const E_I: &[u8] = b"initiator-ephemeral";
const E_R: &[u8] = b"responder-ephemeral";
const ID_I: &[u8] = b"initiator-identity";
const ID_R: &[u8] = b"responder-identity";

struct Pair {
    a: Session,
    b: Session,
}

fn handshake(window: u64, fatal: bool) -> Pair {
    let mut a = Session::new_initiator(42, E_I.to_vec(), window, fatal, None);
    let mut b = Session::new_responder(42, E_R.to_vec(), window, fatal, None);
    let m1 = a.initiate().unwrap();
    assert_eq!(a.state(), ChannelState::AwaitingResponse);
    let m2 = b.respond(&m1, response_tag(&m1.payload, E_R, ID_R)).unwrap();
    assert_eq!(b.state(), ChannelState::AwaitingConfirmation);
    let expected2 = response_tag(E_I, &m2.payload, ID_R);
    let m3 = a.handle_response(&m2, &expected2, confirmation_tag(E_I, &m2.payload, ID_I), ID_R.to_vec()).unwrap();
    assert_eq!(a.state(), ChannelState::AwaitingConfirmation);
    assert!(a.send_key().is_none());
    a.complete(derive(E_I, a.remote_ephemeral())).unwrap();
    let expected3 = confirmation_tag(b.remote_ephemeral(), E_R, ID_I);
    b.handle_confirmation(&m3, &expected3, ID_I.to_vec(), derive(b.remote_ephemeral(), E_R)).unwrap();
    Pair { a, b }
}

fn send(s: &mut Session, plaintext: &[u8]) -> WireMessage {
    let nonce = s.prepare_send().unwrap();
    let ad = associated_data(s.id(), nonce);
    let (ciphertext, tag) = seal(s.send_key().unwrap(), &ad, plaintext);
    WireMessage { kind: MessageKind::Application, session_id: s.id(), nonce, payload: ciphertext, tag }
}

fn receive(s: &mut Session, m: &WireMessage) -> Result<Vec<u8>, SecureChannelError> {
    let ad = s.check_receive(m)?;
    let plaintext = open(s.receive_key().unwrap(), &ad, &m.payload, &m.tag).expect("opens");
    let tagged = s.accept(m.nonce, plaintext)?;
    expect_type(tagged, LocalInfoKind::SecureChannel)
}

#[test]
fn handshake_establishes_both_with_matching_keys() {
    let p = handshake(1, false);
    assert_eq!(p.a.state(), ChannelState::Established);
    assert_eq!(p.b.state(), ChannelState::Established);
    assert_eq!(p.a.role(), Role::Initiator);
    assert_eq!(p.b.role(), Role::Responder);
    assert_eq!(p.a.send_key().unwrap(), p.b.receive_key().unwrap());
    assert_eq!(p.a.receive_key().unwrap(), p.b.send_key().unwrap());
    assert_ne!(p.a.send_key().unwrap(), p.a.receive_key().unwrap());
    assert_eq!(p.a.peer_identity().unwrap(), &ID_R.to_vec());
    assert_eq!(p.b.peer_identity().unwrap(), &ID_I.to_vec());
}

#[test]
fn handshake_messages_carry_stages_in_order() {
    let mut a = Session::new_initiator(5, E_I.to_vec(), 1, false, None);
    let mut b = Session::new_responder(5, E_R.to_vec(), 1, false, None);
    let m1 = a.initiate().unwrap();
    assert_eq!(m1.kind, MessageKind::Handshake(HandshakeStage::One));
    assert_eq!(m1.payload, E_I.to_vec());
    let m2 = b.respond(&m1, vec![7]).unwrap();
    assert_eq!(m2.kind, MessageKind::Handshake(HandshakeStage::Two));
    assert_eq!(m2.payload, E_R.to_vec());
    assert_eq!(m2.tag, vec![7]);
    let m3 = a.handle_response(&m2, &vec![7], vec![8], ID_R.to_vec()).unwrap();
    assert_eq!(m3.kind, MessageKind::Handshake(HandshakeStage::Three));
    assert_eq!(m3.tag, vec![8]);
}

#[test]
fn established_session_refuses_further_handshake() {
    let mut p = handshake(1, false);
    assert_eq!(p.a.initiate().unwrap_err(), SecureChannelError::InvalidInternalState);
    assert_eq!(p.a.state(), ChannelState::Errored);
    let m3 = WireMessage {
        kind: MessageKind::Handshake(HandshakeStage::Three),
        session_id: 42,
        nonce: 0,
        payload: vec![],
        tag: vec![],
    };
    assert_eq!(
        p.b.handle_confirmation(&m3, &vec![], vec![], derive(E_I, E_R)).unwrap_err(),
        SecureChannelError::InvalidInternalState
    );
    assert_eq!(p.b.state(), ChannelState::Errored);
}

#[test]
fn handshake_message_on_transport_path_is_violation() {
    let mut p = handshake(1, false);
    let m = WireMessage {
        kind: MessageKind::Handshake(HandshakeStage::One),
        session_id: 42,
        nonce: 0,
        payload: vec![],
        tag: vec![],
    };
    assert_eq!(p.b.check_receive(&m).unwrap_err(), SecureChannelError::InvalidInternalState);
    assert_eq!(p.b.state(), ChannelState::Errored);
    assert!(p.b.send_key().is_none());
}

#[test]
fn transport_round_trip_both_directions() {
    let mut p = handshake(1, false);
    for text in [&b"first"[..], b"", b"a longer message with more bytes in it"] {
        let m = send(&mut p.a, text);
        let wire = WireMessage::decode(&m.encode()).unwrap();
        assert_eq!(receive(&mut p.b, &wire).unwrap(), text.to_vec());
        let r = send(&mut p.b, text);
        assert_eq!(receive(&mut p.a, &r).unwrap(), text.to_vec());
    }
}

#[test]
fn successive_encryptions_differ() {
    let mut p = handshake(1, false);
    let m1 = send(&mut p.a, b"same");
    let m2 = send(&mut p.a, b"same");
    assert_eq!(m1.nonce, 0);
    assert_eq!(m2.nonce, 1);
    assert_ne!(m1.encode(), m2.encode());
    assert_ne!(m1.payload, m2.payload);
}

#[test]
fn replayed_message_is_rejected() {
    let mut p = handshake(1, false);
    let m = send(&mut p.a, b"once");
    assert_eq!(receive(&mut p.b, &m).unwrap(), b"once".to_vec());
    assert_eq!(p.b.check_receive(&m).unwrap_err(), SecureChannelError::InvalidNonce);
    assert_eq!(p.b.accept(m.nonce, b"once".to_vec()).unwrap_err(), SecureChannelError::InvalidNonce);
    // Not fatal under this policy: later traffic still flows.
    assert_eq!(p.b.state(), ChannelState::Established);
    let n = send(&mut p.a, b"twice");
    assert_eq!(receive(&mut p.b, &n).unwrap(), b"twice".to_vec());
}

#[test]
fn replay_is_fatal_when_configured() {
    let mut p = handshake(1, true);
    let m = send(&mut p.a, b"once");
    receive(&mut p.b, &m).unwrap();
    assert_eq!(p.b.check_receive(&m).unwrap_err(), SecureChannelError::InvalidNonce);
    assert_eq!(p.b.state(), ChannelState::Errored);
}

#[test]
fn reordered_messages_within_window() {
    let mut p = handshake(8, false);
    let m0 = send(&mut p.a, b"zero");
    let m1 = send(&mut p.a, b"one");
    assert_eq!(receive(&mut p.b, &m1).unwrap(), b"one".to_vec());
    assert_eq!(receive(&mut p.b, &m0).unwrap(), b"zero".to_vec());
    assert_eq!(p.b.check_receive(&m0).unwrap_err(), SecureChannelError::InvalidNonce);
}

#[test]
fn out_of_order_with_strict_window() {
    let mut p = handshake(1, false);
    let m0 = send(&mut p.a, b"zero");
    let m1 = send(&mut p.a, b"one");
    receive(&mut p.b, &m1).unwrap();
    assert_eq!(p.b.check_receive(&m0).unwrap_err(), SecureChannelError::InvalidNonce);
}

#[test]
fn message_three_before_two_is_refused() {
    let mut a = Session::new_initiator(1, E_I.to_vec(), 1, false, None);
    a.initiate().unwrap();
    let m3 = WireMessage {
        kind: MessageKind::Handshake(HandshakeStage::Three),
        session_id: 1,
        nonce: 0,
        payload: vec![],
        tag: vec![1],
    };
    assert_eq!(a.handle_response(&m3, &vec![1], vec![2], ID_R.to_vec()).unwrap_err(), SecureChannelError::InvalidInternalState);
    assert_eq!(a.state(), ChannelState::Errored);

    let mut b = Session::new_responder(1, E_R.to_vec(), 1, false, None);
    assert_eq!(
        b.handle_confirmation(&m3, &vec![1], ID_I.to_vec(), derive(E_I, E_R)).unwrap_err(),
        SecureChannelError::InvalidInternalState
    );
    assert_ne!(b.state(), ChannelState::Established);
}

#[test]
fn application_traffic_during_handshake_is_refused() {
    let mut a = Session::new_initiator(1, E_I.to_vec(), 1, false, None);
    assert_eq!(a.prepare_send().unwrap_err(), SecureChannelError::KeyExchangeNotComplete);
    assert_eq!(a.state(), ChannelState::Initiating);
    a.initiate().unwrap();
    assert_eq!(a.prepare_send().unwrap_err(), SecureChannelError::KeyExchangeNotComplete);
    let app = WireMessage { kind: MessageKind::Application, session_id: 1, nonce: 0, payload: vec![1], tag: vec![] };
    assert_eq!(a.check_receive(&app).unwrap_err(), SecureChannelError::InvalidInternalState);
    assert_eq!(a.state(), ChannelState::Errored);
    assert_eq!(a.prepare_send().unwrap_err(), SecureChannelError::InvalidInternalState);
}

#[test]
fn tampered_response_tag_fails_key_exchange() {
    for bit in 0..8u8 {
        let mut a = Session::new_initiator(3, E_I.to_vec(), 1, false, None);
        let mut b = Session::new_responder(3, E_R.to_vec(), 1, false, None);
        let m1 = a.initiate().unwrap();
        let mut m2 = b.respond(&m1, response_tag(E_I, E_R, ID_R)).unwrap();
        m2.tag[2] ^= 1 << bit;
        let expected = response_tag(E_I, E_R, ID_R);
        assert_eq!(a.handle_response(&m2, &expected, vec![], ID_R.to_vec()).unwrap_err(), SecureChannelError::KeyExchange);
        assert_eq!(a.state(), ChannelState::Errored);
        assert_eq!(a.complete(derive(E_I, E_R)).unwrap_err(), SecureChannelError::InvalidInternalState);
    }
}

#[test]
fn tampered_confirmation_tag_fails_key_exchange() {
    let mut a = Session::new_initiator(3, E_I.to_vec(), 1, false, None);
    let mut b = Session::new_responder(3, E_R.to_vec(), 1, false, None);
    let m1 = a.initiate().unwrap();
    let m2 = b.respond(&m1, response_tag(E_I, E_R, ID_R)).unwrap();
    let mut m3 = a
        .handle_response(&m2, &response_tag(E_I, E_R, ID_R), confirmation_tag(E_I, E_R, ID_I), ID_R.to_vec())
        .unwrap();
    m3.tag[0] ^= 0x80;
    let expected = confirmation_tag(E_I, E_R, ID_I);
    assert_eq!(
        b.handle_confirmation(&m3, &expected, ID_I.to_vec(), derive(E_I, E_R)).unwrap_err(),
        SecureChannelError::KeyExchange
    );
    assert_eq!(b.state(), ChannelState::Errored);
    assert!(b.receive_key().is_none());
}

#[test]
fn wrong_session_id_is_refused() {
    let mut a = Session::new_initiator(3, E_I.to_vec(), 1, false, None);
    let mut b = Session::new_responder(4, E_R.to_vec(), 1, false, None);
    let m1 = a.initiate().unwrap();
    assert_eq!(b.respond(&m1, vec![]).unwrap_err(), SecureChannelError::InvalidInternalState);
}

#[test]
fn close_is_terminal() {
    let mut p = handshake(1, false);
    p.a.close();
    assert_eq!(p.a.state(), ChannelState::Closed);
    assert_eq!(p.a.prepare_send().unwrap_err(), SecureChannelError::InvalidInternalState);
    assert!(p.a.send_key().is_none());
    p.a.close();
    assert_eq!(p.a.state(), ChannelState::Closed);
    p.b.initiate().unwrap_err();
    p.b.close();
    assert_eq!(p.b.state(), ChannelState::Errored);
}

fn through_hub(m: &WireMessage, origin: &[u8], destination: &[u8]) -> RelayEnvelope {
    RelayEnvelope { origin: origin.to_vec(), destination: destination.to_vec(), payload: m.encode() }
}

#[test]
fn ping_pong_over_one_untrusted_hop() {
    let mut a = Session::new_initiator(77, E_I.to_vec(), 1, false, None);
    let mut b = Session::new_responder(77, E_R.to_vec(), 1, false, None);
    let two = MessageKind::Handshake(HandshakeStage::Two);

    let m1 = a.initiate().unwrap();
    let m1 = WireMessage::decode(&through_hub(&m1, b"a", b"b").payload).unwrap();
    let m2 = b.respond(&m1, response_tag(&m1.payload, E_R, ID_R)).unwrap();
    let m2 = validate(&through_hub(&m2, b"b", b"a"), b"b", b"a", two).unwrap();
    let m3 = a
        .handle_response(&m2, &response_tag(E_I, &m2.payload, ID_R), confirmation_tag(E_I, &m2.payload, ID_I), ID_R.to_vec())
        .unwrap();
    a.complete(derive(E_I, a.remote_ephemeral())).unwrap();
    let m3 = WireMessage::decode(&through_hub(&m3, b"a", b"b").payload).unwrap();
    b.handle_confirmation(&m3, &confirmation_tag(b.remote_ephemeral(), E_R, ID_I), ID_I.to_vec(), derive(b.remote_ephemeral(), E_R))
        .unwrap();

    let ping = send(&mut a, b"ping");
    let ping = WireMessage::decode(&through_hub(&ping, b"a", b"b").payload).unwrap();
    let ad = b.check_receive(&ping).unwrap();
    let plain = open(b.receive_key().unwrap(), &ad, &ping.payload, &ping.tag).unwrap();
    let tagged = b.accept(ping.nonce, plain).unwrap();
    match &tagged.info {
        LocalInfo::SecureChannel { session_id, peer_identity } => {
            assert_eq!(*session_id, 77);
            assert_eq!(peer_identity, &ID_I.to_vec());
        }
        _ => panic!("wrong context kind"),
    }
    assert_eq!(expect_type(tagged, LocalInfoKind::SecureChannel).unwrap(), b"ping".to_vec());

    let pong = send(&mut b, b"pong");
    assert_eq!(pong.nonce, 0);
    let pong = validate(&through_hub(&pong, b"b", b"a"), b"b", b"a", MessageKind::Application).unwrap();
    assert_eq!(receive(&mut a, &pong).unwrap(), b"pong".to_vec());
}

#[test]
fn forged_hub_origin_never_reaches_handshake() {
    let mut a = Session::new_initiator(8, E_I.to_vec(), 1, false, None);
    let mut b = Session::new_responder(8, E_R.to_vec(), 1, false, None);
    let m1 = a.initiate().unwrap();
    let m2 = b.respond(&m1, response_tag(E_I, E_R, ID_R)).unwrap();
    let two = MessageKind::Handshake(HandshakeStage::Two);
    assert_eq!(
        validate(&through_hub(&m2, b"mallory", b"a"), b"b", b"a", two).unwrap_err(),
        SecureChannelError::InvalidHubResponse
    );
    assert_eq!(a.state(), ChannelState::AwaitingResponse);
}

#[test]
fn expected_peer_must_match() {
    let mut a = Session::new_initiator(6, E_I.to_vec(), 1, false, Some(b"someone-else".to_vec()));
    let mut b = Session::new_responder(6, E_R.to_vec(), 1, false, None);
    let m1 = a.initiate().unwrap();
    let m2 = b.respond(&m1, response_tag(E_I, E_R, ID_R)).unwrap();
    let r = a.handle_response(&m2, &response_tag(E_I, E_R, ID_R), confirmation_tag(E_I, E_R, ID_I), ID_R.to_vec());
    assert_eq!(r.unwrap_err(), SecureChannelError::KeyExchange);
    assert_eq!(a.state(), ChannelState::Errored);
}

#[test]
fn expected_peer_that_matches_is_accepted() {
    let mut a = Session::new_initiator(6, E_I.to_vec(), 1, false, Some(ID_R.to_vec()));
    let mut b = Session::new_responder(6, E_R.to_vec(), 1, false, Some(ID_I.to_vec()));
    let m1 = a.initiate().unwrap();
    let m2 = b.respond(&m1, response_tag(E_I, E_R, ID_R)).unwrap();
    let m3 = a
        .handle_response(&m2, &response_tag(E_I, E_R, ID_R), confirmation_tag(E_I, E_R, ID_I), ID_R.to_vec())
        .unwrap();
    a.complete(derive(E_I, E_R)).unwrap();
    b.handle_confirmation(&m3, &confirmation_tag(E_I, E_R, ID_I), ID_I.to_vec(), derive(E_I, E_R)).unwrap();
    assert_eq!(a.state(), ChannelState::Established);
    assert_eq!(b.state(), ChannelState::Established);
}

#[test]
fn handshake_timeout_fails_key_exchange() {
    let mut a = Session::new_initiator(6, E_I.to_vec(), 1, false, None);
    a.initiate().unwrap();
    assert_eq!(a.handshake_timed_out().unwrap_err(), SecureChannelError::KeyExchange);
    assert_eq!(a.state(), ChannelState::Errored);
    assert!(a.send_key().is_none());
    let mut p = handshake(1, false);
    assert_eq!(p.a.handshake_timed_out(), Ok(()));
    assert_eq!(p.a.state(), ChannelState::Established);
}
