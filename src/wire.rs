use vstd::prelude::*;
use vstd::bytes::{
    spec_u32_from_le_bytes, spec_u32_to_le_bytes, spec_u64_from_le_bytes, spec_u64_to_le_bytes,
    u32_from_le_bytes, u32_to_le_bytes, u64_from_le_bytes, u64_to_le_bytes,
    lemma_auto_spec_u32_to_from_le_bytes, lemma_auto_spec_u64_to_from_le_bytes,
};
use vstd::slice::{slice_subrange, slice_to_vec};

verus! {

/// The three handshake rounds, in the order in which they are exchanged.
#[derive(Clone, Copy, Debug, PartialEq, Eq, Structural)]
pub enum HandshakeStage {
    /// Initiator's ephemeral key.
    One,
    /// Responder's ephemeral key and authentication tag.
    Two,
    /// Initiator's authentication tag.
    Three,
}

/// What a channel message carries.
#[derive(Clone, Copy, Debug, PartialEq, Eq, Structural)]
pub enum MessageKind {
    Handshake(HandshakeStage),
    Application,
}

/// One message of a secure channel as it travels on the wire. The nonce is
/// meaningful for application messages only; handshake messages carry zero.
#[derive(Clone, Debug)]
pub struct WireMessage {
    pub kind: MessageKind,
    pub session_id: u64,
    pub nonce: u64,
    pub payload: Vec<u8>,
    pub tag: Vec<u8>,
}

/// Abstract content of a [`WireMessage`].
pub struct FrameView {
    pub kind: MessageKind,
    pub session_id: u64,
    pub nonce: u64,
    pub payload: Seq<u8>,
    pub tag: Seq<u8>,
}

impl View for WireMessage {
    type V = FrameView;

    open spec fn view(&self) -> FrameView {
        FrameView {
            kind: self.kind,
            session_id: self.session_id,
            nonce: self.nonce,
            payload: self.payload@,
            tag: self.tag@,
        }
    }
}

/// Length of the fixed header: kind, session id, nonce, payload length.
pub const HEADER_LEN: usize = 21;

/// The byte that identifies each message kind.
pub open spec fn kind_byte(k: MessageKind) -> u8 {
    match k {
        MessageKind::Application => 0,
        MessageKind::Handshake(HandshakeStage::One) => 1,
        MessageKind::Handshake(HandshakeStage::Two) => 2,
        MessageKind::Handshake(HandshakeStage::Three) => 3,
    }
}

/// The message kind a byte identifies; stage values other than 1, 2, 3 are unknown.
pub open spec fn kind_of_byte(b: u8) -> Option<MessageKind> {
    if b == 0 {
        Some(MessageKind::Application)
    } else if b == 1 {
        Some(MessageKind::Handshake(HandshakeStage::One))
    } else if b == 2 {
        Some(MessageKind::Handshake(HandshakeStage::Two))
    } else if b == 3 {
        Some(MessageKind::Handshake(HandshakeStage::Three))
    } else {
        None
    }
}

/// A frame can be written: its payload length fits the length field.
pub open spec fn frame_fits(f: FrameView) -> bool {
    f.payload.len() <= u32::MAX
}

/// The bytes of a frame: kind byte, session id and nonce (little endian,
/// eight bytes each), payload length (little endian, four bytes), payload,
/// then the authentication tag up to the end.
pub open spec fn serialize(f: FrameView) -> Seq<u8> {
    seq![kind_byte(f.kind)] + spec_u64_to_le_bytes(f.session_id) + spec_u64_to_le_bytes(f.nonce)
        + spec_u32_to_le_bytes(f.payload.len() as u32) + f.payload + f.tag
}

/// The frame that bytes hold, if they hold one.
pub open spec fn parse(b: Seq<u8>) -> Option<FrameView> {
    if b.len() < HEADER_LEN {
        None
    } else {
        let len = spec_u32_from_le_bytes(b.subrange(17, 21)) as int;
        match kind_of_byte(b[0]) {
            None => None,
            Some(kind) => if HEADER_LEN + len > b.len() {
                None
            } else {
                Some(
                    FrameView {
                        kind,
                        session_id: spec_u64_from_le_bytes(b.subrange(1, 9)),
                        nonce: spec_u64_from_le_bytes(b.subrange(9, 17)),
                        payload: b.subrange(21, 21 + len),
                        tag: b.subrange(21 + len, b.len() as int),
                    },
                )
            },
        }
    }
}

/// Parsing the bytes of a frame gives the frame back.
pub proof fn lemma_parse_serialize(f: FrameView)
    requires
        frame_fits(f),
    ensures
        parse(serialize(f)) == Some(f),
{
    lemma_auto_spec_u32_to_from_le_bytes();
    lemma_auto_spec_u64_to_from_le_bytes();
    let b = serialize(f);
    let len = f.payload.len() as u32;
    assert(b.subrange(1, 9) =~= spec_u64_to_le_bytes(f.session_id));
    assert(b.subrange(9, 17) =~= spec_u64_to_le_bytes(f.nonce));
    assert(b.subrange(17, 21) =~= spec_u32_to_le_bytes(len));
    assert(b.subrange(21, 21 + len as int) =~= f.payload);
    assert(b.subrange(21 + len as int, b.len() as int) =~= f.tag);
    assert(kind_of_byte(kind_byte(f.kind)) == Some(f.kind));
}

/// Distinct frames have distinct bytes.
pub proof fn lemma_serialize_injective(f: FrameView, g: FrameView)
    requires
        frame_fits(f),
        frame_fits(g),
        serialize(f) == serialize(g),
    ensures
        f == g,
{
    lemma_parse_serialize(f);
    lemma_parse_serialize(g);
}

fn kind_to_byte(k: MessageKind) -> (r: u8)
    ensures
        r == kind_byte(k),
{
    match k {
        MessageKind::Application => 0,
        MessageKind::Handshake(HandshakeStage::One) => 1,
        MessageKind::Handshake(HandshakeStage::Two) => 2,
        MessageKind::Handshake(HandshakeStage::Three) => 3,
    }
}

fn byte_to_kind(b: u8) -> (r: Option<MessageKind>)
    ensures
        r == kind_of_byte(b),
{
    if b == 0 {
        Some(MessageKind::Application)
    } else if b == 1 {
        Some(MessageKind::Handshake(HandshakeStage::One))
    } else if b == 2 {
        Some(MessageKind::Handshake(HandshakeStage::Two))
    } else if b == 3 {
        Some(MessageKind::Handshake(HandshakeStage::Three))
    } else {
        None
    }
}

/// Appends every byte of `src` to `out`.
fn push_all(out: &mut Vec<u8>, src: &[u8])
    ensures
        final(out)@ == old(out)@ + src@,
{
    let mut i: usize = 0;
    while i < src.len()
        invariant
            0 <= i <= src@.len(),
            out@ == old(out)@ + src@.subrange(0, i as int),
        decreases src@.len() - i,
    {
        out.push(src[i]);
        i = i + 1;
        assert(out@ =~= old(out)@ + src@.subrange(0, i as int));
    }
    assert(src@.subrange(0, src@.len() as int) =~= src@);
}

/// Whether two byte strings are equal, compared over their whole length.
pub fn same_bytes(a: &[u8], b: &[u8]) -> (r: bool)
    ensures
        r == (a@ == b@),
{
    if a.len() != b.len() {
        return false;
    }
    let mut diff: bool = false;
    let mut i: usize = 0;
    while i < a.len()
        invariant
            a@.len() == b@.len(),
            0 <= i <= a@.len(),
            diff == exists|j: int| 0 <= j < i && a@[j] != b@[j],
        decreases a@.len() - i,
    {
        if a[i] != b[i] {
            diff = true;
        }
        i = i + 1;
    }
    if !diff {
        assert(a@ =~= b@);
    }
    !diff
}

impl WireMessage {
    /// The bytes of this message.
    pub fn encode(&self) -> (r: Vec<u8>)
        requires
            frame_fits(self@),
        ensures
            r@ == serialize(self@),
    {
        let mut out: Vec<u8> = Vec::new();
        out.push(kind_to_byte(self.kind));
        let id = u64_to_le_bytes(self.session_id);
        push_all(&mut out, id.as_slice());
        let nonce = u64_to_le_bytes(self.nonce);
        push_all(&mut out, nonce.as_slice());
        let len = u32_to_le_bytes(self.payload.len() as u32);
        push_all(&mut out, len.as_slice());
        push_all(&mut out, self.payload.as_slice());
        push_all(&mut out, self.tag.as_slice());
        assert(out@ =~= serialize(self@));
        out
    }

    /// The message that `b` holds; `None` when `b` is too short, names an
    /// unknown kind, or declares a payload longer than what follows.
    pub fn decode(b: &[u8]) -> (r: Option<WireMessage>)
        ensures
            match r {
                Some(m) => parse(b@) == Some(m@),
                None => parse(b@) is None,
            },
    {
        if b.len() < HEADER_LEN {
            return None;
        }
        let kind = match byte_to_kind(b[0]) {
            Some(k) => k,
            None => return None,
        };
        let len = u32_from_le_bytes(slice_subrange(b, 17, 21)) as usize;
        if len > b.len() - HEADER_LEN {
            return None;
        }
        let session_id = u64_from_le_bytes(slice_subrange(b, 1, 9));
        let nonce = u64_from_le_bytes(slice_subrange(b, 9, 17));
        let payload = slice_to_vec(slice_subrange(b, HEADER_LEN, HEADER_LEN + len));
        let tag = slice_to_vec(slice_subrange(b, HEADER_LEN + len, b.len()));
        Some(WireMessage { kind, session_id, nonce, payload, tag })
    }
}

} // verus!
