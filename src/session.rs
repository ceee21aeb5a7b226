use vstd::prelude::*;
use vstd::bytes::{spec_u64_to_le_bytes, u64_to_le_bytes};

use crate::error::SecureChannelError;
use crate::local_info::{bind, is_channel_info, TaggedPlaintext};
use crate::nonce::{acceptable, record_spec, ReceiveView, ReceiveWindow, SendCounter};
use crate::wire::{same_bytes, FrameView, HandshakeStage, MessageKind, WireMessage};

verus! {

/// Which side of the handshake a session plays.
#[derive(Clone, Copy, Debug, PartialEq, Eq, Structural)]
pub enum Role {
    Initiator,
    Responder,
}

/// Lifecycle of a session. `Closed` and `Errored` are terminal.
#[derive(Clone, Copy, Debug, PartialEq, Eq, Structural)]
pub enum ChannelState {
    /// Responder waiting for handshake message 1.
    Listening,
    /// Initiator about to send handshake message 1.
    Initiating,
    /// Initiator waiting for handshake message 2.
    AwaitingResponse,
    /// Initiator that sent message 3 and derives keys next, or responder
    /// waiting for message 3.
    AwaitingConfirmation,
    Established,
    Closed,
    Errored,
}

/// The two directional keys that key derivation yields at the end of the handshake.
#[derive(Clone, Debug)]
pub struct SessionKeys {
    pub initiator_to_responder: Vec<u8>,
    pub responder_to_initiator: Vec<u8>,
}

/// One secure channel between two parties.
pub struct Session {
    id: u64,
    role: Role,
    state: ChannelState,
    local_ephemeral: Vec<u8>,
    remote_ephemeral: Vec<u8>,
    peer_identity: Vec<u8>,
    send_key: Vec<u8>,
    receive_key: Vec<u8>,
    sender: SendCounter,
    receiver: ReceiveWindow,
    replay_is_fatal: bool,
    expected_peer: Option<Vec<u8>>,
}

/// Abstract state of a [`Session`].
pub struct SessionView {
    pub id: u64,
    pub role: Role,
    pub state: ChannelState,
    pub local_ephemeral: Seq<u8>,
    pub remote_ephemeral: Seq<u8>,
    pub peer_identity: Seq<u8>,
    pub send_key: Seq<u8>,
    pub receive_key: Seq<u8>,
    pub next_send: u64,
    pub receive: ReceiveView,
    pub replay_is_fatal: bool,
    /// The identity the peer must authenticate as, when one was required.
    pub expected_peer: Option<Seq<u8>>,
}

impl View for Session {
    type V = SessionView;

    closed spec fn view(&self) -> SessionView {
        SessionView {
            id: self.id,
            role: self.role,
            state: self.state,
            local_ephemeral: self.local_ephemeral@,
            remote_ephemeral: self.remote_ephemeral@,
            peer_identity: self.peer_identity@,
            send_key: self.send_key@,
            receive_key: self.receive_key@,
            next_send: self.sender@,
            receive: self.receiver@,
            replay_is_fatal: self.replay_is_fatal,
            expected_peer: opt_view(&self.expected_peer),
        }
    }
}

pub open spec fn opt_view(o: &Option<Vec<u8>>) -> Option<Seq<u8>> {
    match o {
        Some(v) => Some(v@),
        None => None,
    }
}

/// The authenticated identity `peer` is one the session may talk to.
pub open spec fn peer_allowed(expected: Option<Seq<u8>>, peer: Seq<u8>) -> bool {
    match expected {
        Some(p) => p == peer,
        None => true,
    }
}

pub open spec fn is_terminal(st: ChannelState) -> bool {
    st == ChannelState::Closed || st == ChannelState::Errored
}

/// The states that a session of the given role can be in.
pub open spec fn state_fits_role(role: Role, st: ChannelState) -> bool {
    match role {
        Role::Initiator => st != ChannelState::Listening,
        Role::Responder => st != ChannelState::Initiating && st != ChannelState::AwaitingResponse,
    }
}

pub open spec fn with_state(s: SessionView, st: ChannelState) -> SessionView {
    SessionView { state: st, ..s }
}

/// The session after a protocol violation: a live session moves to
/// `Errored`, a terminal one stays as it is.
pub open spec fn violated(s: SessionView) -> SessionView {
    if is_terminal(s.state) {
        s
    } else {
        with_state(s, ChannelState::Errored)
    }
}

/// The session after a rejected nonce, by the session's replay policy.
pub open spec fn after_bad_nonce(s: SessionView) -> SessionView {
    if s.replay_is_fatal {
        with_state(s, ChannelState::Errored)
    } else {
        s
    }
}

/// A handshake frame of this session.
pub open spec fn handshake_frame(id: u64, stage: HandshakeStage, payload: Seq<u8>, tag: Seq<u8>) -> FrameView {
    FrameView { kind: MessageKind::Handshake(stage), session_id: id, nonce: 0, payload, tag }
}

/// The frame an exec result stands for.
pub open spec fn frame_result(r: Result<WireMessage, SecureChannelError>) -> Result<FrameView, SecureChannelError> {
    match r {
        Ok(m) => Ok(m@),
        Err(e) => Err(e),
    }
}

/// Associated data that binds an application message to its session and nonce.
pub open spec fn associated_data_spec(session_id: u64, nonce: u64) -> Seq<u8> {
    spec_u64_to_le_bytes(session_id) + spec_u64_to_le_bytes(nonce)
}

pub open spec fn initial_view(
    id: u64,
    role: Role,
    local_ephemeral: Seq<u8>,
    window: u64,
    replay_is_fatal: bool,
    expected_peer: Option<Seq<u8>>,
) -> SessionView {
    SessionView {
        id,
        role,
        state: match role {
            Role::Initiator => ChannelState::Initiating,
            Role::Responder => ChannelState::Listening,
        },
        local_ephemeral,
        remote_ephemeral: Seq::empty(),
        peer_identity: Seq::empty(),
        send_key: Seq::empty(),
        receive_key: Seq::empty(),
        next_send: 0,
        receive: ReceiveView { highest: None, accepted: Set::empty(), window },
        replay_is_fatal,
        expected_peer,
    }
}

/// Initiator sends handshake message 1: its ephemeral key.
pub open spec fn initiate_spec(s: SessionView) -> (SessionView, Result<FrameView, SecureChannelError>) {
    if s.state == ChannelState::Initiating {
        (
            with_state(s, ChannelState::AwaitingResponse),
            Ok(handshake_frame(s.id, HandshakeStage::One, s.local_ephemeral, Seq::empty())),
        )
    } else {
        (violated(s), Err(SecureChannelError::InvalidInternalState))
    }
}

/// Responder takes message 1 and answers with message 2: its ephemeral key
/// and the authentication tag `tag`.
pub open spec fn respond_spec(s: SessionView, m: FrameView, tag: Seq<u8>) -> (SessionView, Result<FrameView, SecureChannelError>) {
    if s.state == ChannelState::Listening && m.kind == MessageKind::Handshake(HandshakeStage::One)
        && m.session_id == s.id {
        (
            SessionView { state: ChannelState::AwaitingConfirmation, remote_ephemeral: m.payload, ..s },
            Ok(handshake_frame(s.id, HandshakeStage::Two, s.local_ephemeral, tag)),
        )
    } else {
        (violated(s), Err(SecureChannelError::InvalidInternalState))
    }
}

/// Initiator takes message 2, whose tag must equal `expected_tag`, and
/// answers with message 3 carrying `confirmation_tag`.
pub open spec fn response_spec(
    s: SessionView,
    m: FrameView,
    expected_tag: Seq<u8>,
    confirmation_tag: Seq<u8>,
    peer: Seq<u8>,
) -> (SessionView, Result<FrameView, SecureChannelError>) {
    if !(s.state == ChannelState::AwaitingResponse && m.kind == MessageKind::Handshake(HandshakeStage::Two)
        && m.session_id == s.id) {
        (violated(s), Err(SecureChannelError::InvalidInternalState))
    } else if m.tag != expected_tag || !peer_allowed(s.expected_peer, peer) {
        (with_state(s, ChannelState::Errored), Err(SecureChannelError::KeyExchange))
    } else {
        (
            SessionView {
                state: ChannelState::AwaitingConfirmation,
                remote_ephemeral: m.payload,
                peer_identity: peer,
                ..s
            },
            Ok(handshake_frame(s.id, HandshakeStage::Three, Seq::empty(), confirmation_tag)),
        )
    }
}

/// Initiator that has sent message 3 takes the derived keys and is established.
pub open spec fn complete_spec(s: SessionView, i2r: Seq<u8>, r2i: Seq<u8>) -> (SessionView, Result<(), SecureChannelError>) {
    if s.state == ChannelState::AwaitingConfirmation && s.role == Role::Initiator {
        (
            SessionView { state: ChannelState::Established, send_key: i2r, receive_key: r2i, ..s },
            Ok(()),
        )
    } else {
        (violated(s), Err(SecureChannelError::InvalidInternalState))
    }
}

/// Responder takes message 3, whose tag must equal `expected_tag`, and is
/// established with the derived keys.
pub open spec fn confirmation_spec(
    s: SessionView,
    m: FrameView,
    expected_tag: Seq<u8>,
    peer: Seq<u8>,
    i2r: Seq<u8>,
    r2i: Seq<u8>,
) -> (SessionView, Result<(), SecureChannelError>) {
    if !(s.state == ChannelState::AwaitingConfirmation && s.role == Role::Responder
        && m.kind == MessageKind::Handshake(HandshakeStage::Three) && m.session_id == s.id) {
        (violated(s), Err(SecureChannelError::InvalidInternalState))
    } else if m.tag != expected_tag || !peer_allowed(s.expected_peer, peer) {
        (with_state(s, ChannelState::Errored), Err(SecureChannelError::KeyExchange))
    } else {
        (
            SessionView {
                state: ChannelState::Established,
                peer_identity: peer,
                send_key: r2i,
                receive_key: i2r,
                ..s
            },
            Ok(()),
        )
    }
}

/// Allocation of the nonce under which the next application message is sealed.
pub open spec fn send_spec(s: SessionView) -> (SessionView, Result<u64, SecureChannelError>) {
    if s.state == ChannelState::Established {
        if s.next_send < u64::MAX {
            (SessionView { next_send: (s.next_send + 1) as u64, ..s }, Ok(s.next_send))
        } else {
            (with_state(s, ChannelState::Errored), Err(SecureChannelError::NonceExhausted))
        }
    } else if is_terminal(s.state) {
        (s, Err(SecureChannelError::InvalidInternalState))
    } else {
        (s, Err(SecureChannelError::KeyExchangeNotComplete))
    }
}

/// Admission of an inbound message to the transport path, before it is opened.
pub open spec fn receive_spec(s: SessionView, m: FrameView) -> (SessionView, Result<(), SecureChannelError>) {
    if is_terminal(s.state) {
        (s, Err(SecureChannelError::InvalidInternalState))
    } else if m.kind != MessageKind::Application || s.state != ChannelState::Established
        || m.session_id != s.id {
        (violated(s), Err(SecureChannelError::InvalidInternalState))
    } else if !acceptable(s.receive, m.nonce) {
        (after_bad_nonce(s), Err(SecureChannelError::InvalidNonce))
    } else {
        (s, Ok(()))
    }
}

/// Acceptance of an opened application message under `nonce`.
pub open spec fn accept_spec(s: SessionView, nonce: u64) -> (SessionView, Result<(), SecureChannelError>) {
    if s.state != ChannelState::Established {
        (violated(s), Err(SecureChannelError::InvalidInternalState))
    } else if !acceptable(s.receive, nonce) {
        (after_bad_nonce(s), Err(SecureChannelError::InvalidNonce))
    } else {
        (SessionView { receive: record_spec(s.receive, nonce), ..s }, Ok(()))
    }
}

/// Explicit teardown.
pub open spec fn close_spec(s: SessionView) -> SessionView {
    if is_terminal(s.state) {
        s
    } else {
        with_state(s, ChannelState::Closed)
    }
}

/// A timeout on an awaited handshake step: a session still in its handshake
/// fails the key exchange; an established or terminal one is unaffected.
pub open spec fn timeout_spec(s: SessionView) -> (SessionView, Result<(), SecureChannelError>) {
    if is_terminal(s.state) || s.state == ChannelState::Established {
        (s, Ok(()))
    } else {
        (with_state(s, ChannelState::Errored), Err(SecureChannelError::KeyExchange))
    }
}

/// The bytes that bind an application message to `session_id` and `nonce`,
/// to be passed to the AEAD as associated data when sealing and opening.
pub fn associated_data(session_id: u64, nonce: u64) -> (r: Vec<u8>)
    ensures
        r@ == associated_data_spec(session_id, nonce),
{
    let mut r = u64_to_le_bytes(session_id);
    let mut n = u64_to_le_bytes(nonce);
    r.append(&mut n);
    r
}

impl Session {
    /// The session is consistent: its replay window is and its state suits its role.
    pub closed spec fn wf(&self) -> bool {
        &&& self.receiver.wf()
        &&& state_fits_role(self.role, self.state)
    }

    fn fresh(
        id: u64,
        role: Role,
        local_ephemeral: Vec<u8>,
        window: u64,
        replay_is_fatal: bool,
        expected_peer: Option<Vec<u8>>,
    ) -> (r: Session)
        ensures
            r.wf(),
            r@ == initial_view(id, role, local_ephemeral@, window, replay_is_fatal, opt_view(&expected_peer)),
    {
        let state = match role {
            Role::Initiator => ChannelState::Initiating,
            Role::Responder => ChannelState::Listening,
        };
        let r = Session {
            id,
            role,
            state,
            local_ephemeral,
            remote_ephemeral: Vec::new(),
            peer_identity: Vec::new(),
            send_key: Vec::new(),
            receive_key: Vec::new(),
            sender: SendCounter::new(),
            receiver: ReceiveWindow::new(window),
            replay_is_fatal,
            expected_peer,
        };
        r
    }

    /// A session that starts the handshake. `window` bounds how far below
    /// the newest accepted nonce a late message is still taken; with
    /// `replay_is_fatal` a rejected nonce ends the session. When
    /// `expected_peer` is given, a peer that authenticates as anyone else
    /// fails the key exchange.
    pub fn new_initiator(
        id: u64,
        local_ephemeral: Vec<u8>,
        window: u64,
        replay_is_fatal: bool,
        expected_peer: Option<Vec<u8>>,
    ) -> (r: Session)
        ensures
            r.wf(),
            r@ == initial_view(id, Role::Initiator, local_ephemeral@, window, replay_is_fatal, opt_view(&expected_peer)),
    {
        Session::fresh(id, Role::Initiator, local_ephemeral, window, replay_is_fatal, expected_peer)
    }

    /// A session that answers a handshake opened under `id`.
    pub fn new_responder(
        id: u64,
        local_ephemeral: Vec<u8>,
        window: u64,
        replay_is_fatal: bool,
        expected_peer: Option<Vec<u8>>,
    ) -> (r: Session)
        ensures
            r.wf(),
            r@ == initial_view(id, Role::Responder, local_ephemeral@, window, replay_is_fatal, opt_view(&expected_peer)),
    {
        Session::fresh(id, Role::Responder, local_ephemeral, window, replay_is_fatal, expected_peer)
    }

    fn peer_is_allowed(&self, peer: &Vec<u8>) -> (r: bool)
        ensures
            r == peer_allowed(self@.expected_peer, peer@),
    {
        match &self.expected_peer {
            Some(p) => same_bytes(p.as_slice(), peer.as_slice()),
            None => true,
        }
    }

    fn fail(&mut self)
        requires
            old(self).wf(),
        ensures
            final(self).wf(),
            final(self)@ == violated(old(self)@),
    {
        if self.state != ChannelState::Closed && self.state != ChannelState::Errored {
            self.state = ChannelState::Errored;
        }
    }

    fn handshake_message(&self, stage: HandshakeStage, payload: Vec<u8>, tag: Vec<u8>) -> (r: WireMessage)
        ensures
            r@ == handshake_frame(self.id, stage, payload@, tag@),
    {
        WireMessage { kind: MessageKind::Handshake(stage), session_id: self.id, nonce: 0, payload, tag }
    }

    /// Builds handshake message 1.
    pub fn initiate(&mut self) -> (r: Result<WireMessage, SecureChannelError>)
        requires
            old(self).wf(),
        ensures
            final(self).wf(),
            final(self)@ == initiate_spec(old(self)@).0,
            frame_result(r) == initiate_spec(old(self)@).1,
    {
        if self.state == ChannelState::Initiating {
            self.state = ChannelState::AwaitingResponse;
            let m = self.handshake_message(HandshakeStage::One, self.local_ephemeral.clone(), Vec::new());
            Ok(m)
        } else {
            self.fail();
            Err(SecureChannelError::InvalidInternalState)
        }
    }

    /// Takes handshake message 1 and builds message 2, carrying `tag`.
    pub fn respond(&mut self, m: &WireMessage, tag: Vec<u8>) -> (r: Result<WireMessage, SecureChannelError>)
        requires
            old(self).wf(),
        ensures
            final(self).wf(),
            final(self)@ == respond_spec(old(self)@, m@, tag@).0,
            frame_result(r) == respond_spec(old(self)@, m@, tag@).1,
    {
        if self.state == ChannelState::Listening && m.kind == MessageKind::Handshake(HandshakeStage::One)
            && m.session_id == self.id {
            self.state = ChannelState::AwaitingConfirmation;
            self.remote_ephemeral = m.payload.clone();
            let out = self.handshake_message(HandshakeStage::Two, self.local_ephemeral.clone(), tag);
            Ok(out)
        } else {
            self.fail();
            Err(SecureChannelError::InvalidInternalState)
        }
    }

    /// Takes handshake message 2, checks its tag against `expected_tag`, and
    /// builds message 3 carrying `confirmation_tag`. `peer_identity` is the
    /// static identity that message 2 authenticated.
    pub fn handle_response(
        &mut self,
        m: &WireMessage,
        expected_tag: &Vec<u8>,
        confirmation_tag: Vec<u8>,
        peer_identity: Vec<u8>,
    ) -> (r: Result<WireMessage, SecureChannelError>)
        requires
            old(self).wf(),
        ensures
            final(self).wf(),
            final(self)@ == response_spec(old(self)@, m@, expected_tag@, confirmation_tag@, peer_identity@).0,
            frame_result(r) == response_spec(old(self)@, m@, expected_tag@, confirmation_tag@, peer_identity@).1,
    {
        if !(self.state == ChannelState::AwaitingResponse && m.kind == MessageKind::Handshake(HandshakeStage::Two)
            && m.session_id == self.id) {
            self.fail();
            return Err(SecureChannelError::InvalidInternalState);
        }
        if !same_bytes(m.tag.as_slice(), expected_tag.as_slice()) || !self.peer_is_allowed(&peer_identity) {
            self.state = ChannelState::Errored;
            return Err(SecureChannelError::KeyExchange);
        }
        self.state = ChannelState::AwaitingConfirmation;
        self.remote_ephemeral = m.payload.clone();
        self.peer_identity = peer_identity;
        let out = self.handshake_message(HandshakeStage::Three, Vec::new(), confirmation_tag);
        Ok(out)
    }

    /// Initiator that has sent message 3 installs the derived keys.
    pub fn complete(&mut self, keys: SessionKeys) -> (r: Result<(), SecureChannelError>)
        requires
            old(self).wf(),
        ensures
            final(self).wf(),
            final(self)@ == complete_spec(old(self)@, keys.initiator_to_responder@, keys.responder_to_initiator@).0,
            r == complete_spec(old(self)@, keys.initiator_to_responder@, keys.responder_to_initiator@).1,
    {
        if self.state == ChannelState::AwaitingConfirmation && self.role == Role::Initiator {
            self.send_key = keys.initiator_to_responder;
            self.receive_key = keys.responder_to_initiator;
            self.state = ChannelState::Established;
            Ok(())
        } else {
            self.fail();
            Err(SecureChannelError::InvalidInternalState)
        }
    }

    /// Responder takes handshake message 3, checks its tag against
    /// `expected_tag`, and installs the derived keys.
    pub fn handle_confirmation(
        &mut self,
        m: &WireMessage,
        expected_tag: &Vec<u8>,
        peer_identity: Vec<u8>,
        keys: SessionKeys,
    ) -> (r: Result<(), SecureChannelError>)
        requires
            old(self).wf(),
        ensures
            final(self).wf(),
            final(self)@ == confirmation_spec(
                old(self)@, m@, expected_tag@, peer_identity@,
                keys.initiator_to_responder@, keys.responder_to_initiator@,
            ).0,
            r == confirmation_spec(
                old(self)@, m@, expected_tag@, peer_identity@,
                keys.initiator_to_responder@, keys.responder_to_initiator@,
            ).1,
    {
        if !(self.state == ChannelState::AwaitingConfirmation && self.role == Role::Responder
            && m.kind == MessageKind::Handshake(HandshakeStage::Three) && m.session_id == self.id) {
            self.fail();
            return Err(SecureChannelError::InvalidInternalState);
        }
        if !same_bytes(m.tag.as_slice(), expected_tag.as_slice()) || !self.peer_is_allowed(&peer_identity) {
            self.state = ChannelState::Errored;
            return Err(SecureChannelError::KeyExchange);
        }
        self.peer_identity = peer_identity;
        self.send_key = keys.responder_to_initiator;
        self.receive_key = keys.initiator_to_responder;
        self.state = ChannelState::Established;
        Ok(())
    }

    /// Allocates the nonce under which the next application message is
    /// sealed; the caller seals with the send key and
    /// `associated_data(id, nonce)`.
    pub fn prepare_send(&mut self) -> (r: Result<u64, SecureChannelError>)
        requires
            old(self).wf(),
        ensures
            final(self).wf(),
            final(self)@ == send_spec(old(self)@).0,
            r == send_spec(old(self)@).1,
    {
        if self.state == ChannelState::Established {
            match self.sender.next_send_nonce() {
                Ok(n) => Ok(n),
                Err(e) => {
                    self.state = ChannelState::Errored;
                    Err(e)
                },
            }
        } else if self.state == ChannelState::Closed || self.state == ChannelState::Errored {
            Err(SecureChannelError::InvalidInternalState)
        } else {
            Err(SecureChannelError::KeyExchangeNotComplete)
        }
    }

    fn nonce_rejected(&mut self)
        requires
            old(self).wf(),
            old(self)@.state == ChannelState::Established,
        ensures
            final(self).wf(),
            final(self)@ == after_bad_nonce(old(self)@),
    {
        if self.replay_is_fatal {
            self.state = ChannelState::Errored;
        }
    }

    /// Admits an inbound message to the transport path and returns the
    /// associated data under which it is to be opened with the receive key.
    /// Nothing is recorded until `accept` is called with the opened plaintext.
    pub fn check_receive(&mut self, m: &WireMessage) -> (r: Result<Vec<u8>, SecureChannelError>)
        requires
            old(self).wf(),
        ensures
            final(self).wf(),
            final(self)@ == receive_spec(old(self)@, m@).0,
            r is Ok <==> receive_spec(old(self)@, m@).1 is Ok,
            match r {
                Ok(ad) => ad@ == associated_data_spec(old(self)@.id, m.nonce),
                Err(e) => receive_spec(old(self)@, m@).1 == Err::<(), SecureChannelError>(e),
            },
    {
        if self.state == ChannelState::Closed || self.state == ChannelState::Errored {
            return Err(SecureChannelError::InvalidInternalState);
        }
        if m.kind != MessageKind::Application || self.state != ChannelState::Established
            || m.session_id != self.id {
            self.fail();
            return Err(SecureChannelError::InvalidInternalState);
        }
        if !self.receiver.validate_receive_nonce(m.nonce) {
            self.nonce_rejected();
            return Err(SecureChannelError::InvalidNonce);
        }
        Ok(associated_data(self.id, m.nonce))
    }

    /// Records `nonce` for a message that opened to `plaintext`, and tags the
    /// plaintext with this session and its authenticated peer.
    pub fn accept(&mut self, nonce: u64, plaintext: Vec<u8>) -> (r: Result<TaggedPlaintext, SecureChannelError>)
        requires
            old(self).wf(),
        ensures
            final(self).wf(),
            final(self)@ == accept_spec(old(self)@, nonce).0,
            r is Ok <==> accept_spec(old(self)@, nonce).1 is Ok,
            match r {
                Ok(t) => t.payload@ == plaintext@ && is_channel_info(t.info, old(self)@.id, old(self)@.peer_identity),
                Err(e) => accept_spec(old(self)@, nonce).1 == Err::<(), SecureChannelError>(e),
            },
    {
        if self.state != ChannelState::Established {
            self.fail();
            return Err(SecureChannelError::InvalidInternalState);
        }
        if !self.receiver.validate_receive_nonce(nonce) {
            self.nonce_rejected();
            return Err(SecureChannelError::InvalidNonce);
        }
        self.receiver.record(nonce);
        Ok(bind(plaintext, self.id, self.peer_identity.clone()))
    }

    /// Reports that an awaited handshake step did not arrive in time.
    pub fn handshake_timed_out(&mut self) -> (r: Result<(), SecureChannelError>)
        requires
            old(self).wf(),
        ensures
            final(self).wf(),
            final(self)@ == timeout_spec(old(self)@).0,
            r == timeout_spec(old(self)@).1,
    {
        if self.state == ChannelState::Closed || self.state == ChannelState::Errored
            || self.state == ChannelState::Established {
            Ok(())
        } else {
            self.state = ChannelState::Errored;
            Err(SecureChannelError::KeyExchange)
        }
    }

    /// Tears the session down; a terminal session stays as it is.
    pub fn close(&mut self)
        requires
            old(self).wf(),
        ensures
            final(self).wf(),
            final(self)@ == close_spec(old(self)@),
    {
        if self.state != ChannelState::Closed && self.state != ChannelState::Errored {
            self.state = ChannelState::Closed;
        }
    }

    pub fn id(&self) -> (r: u64)
        ensures
            r == self@.id,
    {
        self.id
    }

    pub fn role(&self) -> (r: Role)
        ensures
            r == self@.role,
    {
        self.role
    }

    pub fn state(&self) -> (r: ChannelState)
        ensures
            r == self@.state,
    {
        self.state
    }

    /// The key that seals outbound messages; only an established session shows it.
    pub fn send_key(&self) -> (r: Option<&Vec<u8>>)
        ensures
            r is Some <==> self@.state == ChannelState::Established,
            r is Some ==> r.unwrap()@ == self@.send_key,
    {
        if self.state == ChannelState::Established {
            Some(&self.send_key)
        } else {
            None
        }
    }

    /// The key that opens inbound messages; only an established session shows it.
    pub fn receive_key(&self) -> (r: Option<&Vec<u8>>)
        ensures
            r is Some <==> self@.state == ChannelState::Established,
            r is Some ==> r.unwrap()@ == self@.receive_key,
    {
        if self.state == ChannelState::Established {
            Some(&self.receive_key)
        } else {
            None
        }
    }

    /// The peer's authenticated identity, once the session is established.
    pub fn peer_identity(&self) -> (r: Option<&Vec<u8>>)
        ensures
            r is Some <==> self@.state == ChannelState::Established,
            r is Some ==> r.unwrap()@ == self@.peer_identity,
    {
        if self.state == ChannelState::Established {
            Some(&self.peer_identity)
        } else {
            None
        }
    }

    /// The peer's ephemeral key, once the handshake has received it.
    pub fn remote_ephemeral(&self) -> (r: &Vec<u8>)
        ensures
            r@ == self@.remote_ephemeral,
    {
        &self.remote_ephemeral
    }
}

} // verus!
