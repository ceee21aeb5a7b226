use vstd::prelude::*;

use crate::error::SecureChannelError;
use crate::nonce::acceptable;
use crate::session::{
    accept_spec, associated_data_spec, complete_spec, confirmation_spec, initial_view, initiate_spec, peer_allowed,
    receive_spec, respond_spec, response_spec, send_spec, ChannelState, Role, SessionView,
};
use crate::wire::{
    frame_fits, lemma_parse_serialize, lemma_serialize_injective, parse, serialize, FrameView, HandshakeStage,
    MessageKind,
};

verus! {

/// Two parties that run the handshake on each other's messages, with the
/// tags that both compute from the same transcript and the keys that both
/// derive from it, each become established exactly once, at the last step,
/// and each one's send key is the other's receive key. Every further
/// handshake step on an established session is refused.
pub proof fn lemma_handshake_agreement(
    id: u64,
    eph_i: Seq<u8>,
    eph_r: Seq<u8>,
    window: u64,
    fatal: bool,
    expected_i: Option<Seq<u8>>,
    tag2: Seq<u8>,
    tag3: Seq<u8>,
    identity_i: Seq<u8>,
    identity_r: Seq<u8>,
    i2r: Seq<u8>,
    r2i: Seq<u8>,
)
    requires
        peer_allowed(expected_i, identity_r),
    ensures
        ({
            let a0 = initial_view(id, Role::Initiator, eph_i, window, fatal, expected_i);
            let b0 = initial_view(id, Role::Responder, eph_r, window, fatal, None);
            let (a1, m1) = initiate_spec(a0);
            let (b1, m2) = respond_spec(b0, m1.unwrap(), tag2);
            let (a2, m3) = response_spec(a1, m2.unwrap(), tag2, tag3, identity_r);
            let (a3, ra) = complete_spec(a2, i2r, r2i);
            let (b2, rb) = confirmation_spec(b1, m3.unwrap(), tag3, identity_i, i2r, r2i);
            &&& m1 is Ok && m2 is Ok && m3 is Ok && ra is Ok && rb is Ok
            &&& a0.state != ChannelState::Established && a1.state != ChannelState::Established
            &&& a2.state != ChannelState::Established && a3.state == ChannelState::Established
            &&& b0.state != ChannelState::Established && b1.state != ChannelState::Established
            &&& b2.state == ChannelState::Established
            &&& a3.send_key == b2.receive_key && a3.receive_key == b2.send_key
            &&& a3.peer_identity == identity_r && b2.peer_identity == identity_i
            &&& a3.remote_ephemeral == eph_r && b1.remote_ephemeral == eph_i
        }),
{
}

/// An established session refuses every handshake step with
/// `InvalidInternalState` and leaves the established state.
pub proof fn lemma_established_refuses_handshake(
    s: SessionView,
    m: FrameView,
    tag: Seq<u8>,
    tag2: Seq<u8>,
    peer: Seq<u8>,
    i2r: Seq<u8>,
    r2i: Seq<u8>,
)
    requires
        s.state == ChannelState::Established,
    ensures
        initiate_spec(s).1 == Err::<FrameView, SecureChannelError>(SecureChannelError::InvalidInternalState),
        respond_spec(s, m, tag).1 == Err::<FrameView, SecureChannelError>(SecureChannelError::InvalidInternalState),
        response_spec(s, m, tag, tag2, peer).1 == Err::<FrameView, SecureChannelError>(SecureChannelError::InvalidInternalState),
        complete_spec(s, i2r, r2i).1 == Err::<(), SecureChannelError>(SecureChannelError::InvalidInternalState),
        confirmation_spec(s, m, tag, peer, i2r, r2i).1 == Err::<(), SecureChannelError>(SecureChannelError::InvalidInternalState),
        receive_spec(s, m).1 is Err && m.kind != MessageKind::Application ==> receive_spec(s, m).0.state == ChannelState::Errored,
        initiate_spec(s).0.state == ChannelState::Errored,
        respond_spec(s, m, tag).0.state == ChannelState::Errored,
        response_spec(s, m, tag, tag2, peer).0.state == ChannelState::Errored,
        complete_spec(s, i2r, r2i).0.state == ChannelState::Errored,
        confirmation_spec(s, m, tag, peer, i2r, r2i).0.state == ChannelState::Errored,
{
}

/// Two nonces allocated one after the other differ, and so do the bytes of
/// any two application frames sent under them.
pub proof fn lemma_successive_nonces_differ(s: SessionView, f: FrameView, g: FrameView)
    requires
        send_spec(s).1 is Ok,
        send_spec(send_spec(s).0).1 is Ok,
        frame_fits(f),
        frame_fits(g),
        f.nonce == send_spec(s).1.unwrap(),
        g.nonce == send_spec(send_spec(s).0).1.unwrap(),
    ensures
        f.nonce != g.nonce,
        serialize(f) != serialize(g),
        associated_data_spec(s.id, f.nonce) != associated_data_spec(s.id, g.nonce),
{
    if serialize(f) == serialize(g) {
        lemma_serialize_injective(f, g);
    }
    vstd::bytes::lemma_auto_spec_u64_to_from_le_bytes();
    let a = associated_data_spec(s.id, f.nonce);
    let b = associated_data_spec(s.id, g.nonce);
    assert(a.subrange(8, 16) =~= vstd::bytes::spec_u64_to_le_bytes(f.nonce));
    assert(b.subrange(8, 16) =~= vstd::bytes::spec_u64_to_le_bytes(g.nonce));
}

/// An application frame that an established session sends under its next
/// nonce reaches the peer's session of the same id as the same frame, is
/// admitted and accepted there when that nonce is new to it, and both sides
/// bind it to the same associated data. Sealing with the sender's send key
/// and opening with the receiver's receive key, which agree after the
/// handshake, then give the plaintext back.
pub proof fn lemma_transport_round_trip(a: SessionView, b: SessionView, f: FrameView)
    requires
        a.state == ChannelState::Established,
        b.state == ChannelState::Established,
        b.id == a.id,
        send_spec(a).1 is Ok,
        f.kind == MessageKind::Application,
        f.session_id == a.id,
        f.nonce == send_spec(a).1.unwrap(),
        frame_fits(f),
        acceptable(b.receive, f.nonce),
    ensures
        parse(serialize(f)) == Some(f),
        receive_spec(b, parse(serialize(f)).unwrap()) == (b, Ok::<(), SecureChannelError>(())),
        accept_spec(b, f.nonce).1 is Ok,
        associated_data_spec(b.id, parse(serialize(f)).unwrap().nonce) == associated_data_spec(a.id, f.nonce),
{
    lemma_parse_serialize(f);
}

/// Once a nonce has been accepted, a message that carries it again is
/// refused with `InvalidNonce`, both on admission and on acceptance.
pub proof fn lemma_replay_rejected(s: SessionView, n: u64, m: FrameView)
    requires
        accept_spec(s, n).1 is Ok,
        m.kind == MessageKind::Application,
        m.session_id == s.id,
        m.nonce == n,
    ensures
        receive_spec(accept_spec(s, n).0, m).1 == Err::<(), SecureChannelError>(SecureChannelError::InvalidNonce),
        accept_spec(accept_spec(s, n).0, n).1 == Err::<(), SecureChannelError>(SecureChannelError::InvalidNonce),
{
    let t = accept_spec(s, n).0;
    assert(t.receive.accepted.contains(n));
    assert(!acceptable(t.receive, n));
}

/// Handshake message 3 arriving before message 2 has been processed, and
/// application traffic during the handshake, are refused and never
/// establish the session.
pub proof fn lemma_out_of_order_refused(s: SessionView, m: FrameView, tag: Seq<u8>, tag2: Seq<u8>, peer: Seq<u8>, i2r: Seq<u8>, r2i: Seq<u8>)
    requires
        s.state == ChannelState::AwaitingResponse || s.state == ChannelState::Initiating
            || s.state == ChannelState::Listening || s.state == ChannelState::AwaitingConfirmation,
    ensures
        m.kind == MessageKind::Handshake(HandshakeStage::Three) && s.state != ChannelState::AwaitingConfirmation ==> {
            &&& response_spec(s, m, tag, tag2, peer).1 == Err::<FrameView, SecureChannelError>(SecureChannelError::InvalidInternalState)
            &&& response_spec(s, m, tag, tag2, peer).0.state == ChannelState::Errored
            &&& respond_spec(s, m, tag).1 == Err::<FrameView, SecureChannelError>(SecureChannelError::InvalidInternalState)
            &&& confirmation_spec(s, m, tag, peer, i2r, r2i).1 == Err::<(), SecureChannelError>(SecureChannelError::InvalidInternalState)
            &&& confirmation_spec(s, m, tag, peer, i2r, r2i).0.state == ChannelState::Errored
        },
        m.kind == MessageKind::Application ==> {
            &&& receive_spec(s, m).1 == Err::<(), SecureChannelError>(SecureChannelError::InvalidInternalState)
            &&& receive_spec(s, m).0.state == ChannelState::Errored
        },
        send_spec(s).1 == Err::<u64, SecureChannelError>(SecureChannelError::KeyExchangeNotComplete),
        send_spec(s).0 == s,
        accept_spec(s, m.nonce).1 == Err::<(), SecureChannelError>(SecureChannelError::InvalidInternalState),
        accept_spec(s, m.nonce).0.state == ChannelState::Errored,
{
}

/// The tag with bit `bit` of byte `i` flipped.
pub open spec fn flip_bit(tag: Seq<u8>, i: int, bit: u8) -> Seq<u8> {
    tag.update(i, tag[i] ^ (1u8 << bit))
}

proof fn lemma_flip_changes(tag: Seq<u8>, i: int, bit: u8)
    requires
        0 <= i < tag.len(),
        bit < 8,
    ensures
        flip_bit(tag, i, bit) != tag,
{
    let x = tag[i];
    assert(x ^ (1u8 << bit) != x) by (bit_vector)
        requires
            bit < 8,
    ;
    assert(flip_bit(tag, i, bit)[i] != tag[i]);
}

/// A session that required a peer identity fails the key exchange when the
/// peer authenticates as anyone else, and is not established.
pub proof fn lemma_unexpected_peer_refused(
    s: SessionView,
    m: FrameView,
    tag: Seq<u8>,
    tag3: Seq<u8>,
    peer: Seq<u8>,
    i2r: Seq<u8>,
    r2i: Seq<u8>,
)
    requires
        s.expected_peer is Some,
        s.expected_peer.unwrap() != peer,
    ensures
        response_spec(s, m, tag, tag3, peer).1 is Err,
        response_spec(s, m, tag, tag3, peer).0.state != ChannelState::AwaitingConfirmation,
        confirmation_spec(s, m, tag, peer, i2r, r2i).1 is Err,
        confirmation_spec(s, m, tag, peer, i2r, r2i).0.state != ChannelState::Established,
{
}

/// A handshake message 2 or 3 whose tag differs from the expected one in a
/// single bit is refused with `KeyExchange`: the session ends in `Errored`
/// and is not established.
pub proof fn lemma_tampered_tag_refused(
    s: SessionView,
    m: FrameView,
    expected: Seq<u8>,
    i: int,
    bit: u8,
    tag3: Seq<u8>,
    peer: Seq<u8>,
    i2r: Seq<u8>,
    r2i: Seq<u8>,
)
    requires
        0 <= i < expected.len(),
        bit < 8,
        m.tag == flip_bit(expected, i, bit),
        m.session_id == s.id,
    ensures
        s.state == ChannelState::AwaitingResponse && m.kind == MessageKind::Handshake(HandshakeStage::Two) ==> {
            &&& response_spec(s, m, expected, tag3, peer).1 == Err::<FrameView, SecureChannelError>(SecureChannelError::KeyExchange)
            &&& response_spec(s, m, expected, tag3, peer).0.state == ChannelState::Errored
        },
        s.state == ChannelState::AwaitingConfirmation && s.role == Role::Responder
            && m.kind == MessageKind::Handshake(HandshakeStage::Three) ==> {
            &&& confirmation_spec(s, m, expected, peer, i2r, r2i).1 == Err::<(), SecureChannelError>(SecureChannelError::KeyExchange)
            &&& confirmation_spec(s, m, expected, peer, i2r, r2i).0.state == ChannelState::Errored
        },
{
    lemma_flip_changes(expected, i, bit);
}

} // verus!
