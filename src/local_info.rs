use vstd::prelude::*;

use crate::error::SecureChannelError;

verus! {

/// The context kinds that a consumer of plaintext may expect.
#[derive(Clone, Copy, Debug, PartialEq, Eq, Structural)]
pub enum LocalInfoKind {
    SecureChannel,
    Relay,
}

/// Verified context attached to a plaintext.
#[derive(Clone, Debug)]
pub enum LocalInfo {
    /// Decrypted by the session `session_id`, whose authenticated peer is `peer_identity`.
    SecureChannel { session_id: u64, peer_identity: Vec<u8> },
    /// Delivered by a relay hop whose declared origin is `origin`.
    Relay { origin: Vec<u8> },
}

/// A plaintext together with its verified context.
#[derive(Clone, Debug)]
pub struct TaggedPlaintext {
    pub payload: Vec<u8>,
    pub info: LocalInfo,
}

/// The kind of a context tag.
pub open spec fn info_kind(i: LocalInfo) -> LocalInfoKind {
    match i {
        LocalInfo::SecureChannel { .. } => LocalInfoKind::SecureChannel,
        LocalInfo::Relay { .. } => LocalInfoKind::Relay,
    }
}

/// The tag names the secure channel `session_id` and the peer `peer`.
pub open spec fn is_channel_info(i: LocalInfo, session_id: u64, peer: Seq<u8>) -> bool {
    match i {
        LocalInfo::SecureChannel { session_id: s, peer_identity: p } => s == session_id && p@ == peer,
        _ => false,
    }
}

impl LocalInfo {
    /// The kind of this tag.
    pub fn kind(&self) -> (r: LocalInfoKind)
        ensures
            r == info_kind(*self),
    {
        match self {
            LocalInfo::SecureChannel { .. } => LocalInfoKind::SecureChannel,
            LocalInfo::Relay { .. } => LocalInfoKind::Relay,
        }
    }
}

/// Attaches the secure-channel context to a plaintext that the session
/// `session_id` has decrypted from the peer `peer_identity`.
pub fn bind(plaintext: Vec<u8>, session_id: u64, peer_identity: Vec<u8>) -> (r: TaggedPlaintext)
    ensures
        r.payload@ == plaintext@,
        is_channel_info(r.info, session_id, peer_identity@),
{
    TaggedPlaintext { payload: plaintext, info: LocalInfo::SecureChannel { session_id, peer_identity } }
}

/// Releases the plaintext to a consumer that expects context of kind
/// `expected`; a tag of any other kind is refused.
pub fn expect_type(tagged: TaggedPlaintext, expected: LocalInfoKind) -> (r: Result<Vec<u8>, SecureChannelError>)
    ensures
        r is Ok <==> info_kind(tagged.info) == expected,
        match r {
            Ok(p) => p@ == tagged.payload@,
            Err(e) => e == SecureChannelError::InvalidLocalInfoType,
        },
{
    if tagged.info.kind() == expected {
        Ok(tagged.payload)
    } else {
        Err(SecureChannelError::InvalidLocalInfoType)
    }
}

} // verus!
