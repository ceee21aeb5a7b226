use vstd::prelude::*;

use crate::error::SecureChannelError;
use crate::wire::{parse, same_bytes, MessageKind, WireMessage};

verus! {

/// A message that passed through the untrusted hub, with the origin and
/// destination that the hub declares for it.
#[derive(Clone, Debug)]
pub struct RelayEnvelope {
    pub origin: Vec<u8>,
    pub destination: Vec<u8>,
    pub payload: Vec<u8>,
}

/// A relayed response is taken up: it declares the origin that the request
/// went to, is addressed to this node, and carries a well-formed message of
/// the kind that was asked for.
pub open spec fn relay_accepts(
    env: RelayEnvelope,
    expected_origin: Seq<u8>,
    local_address: Seq<u8>,
    expected_kind: MessageKind,
) -> bool {
    &&& env.origin@ == expected_origin
    &&& env.destination@ == local_address
    &&& parse(env.payload@) is Some
    &&& parse(env.payload@).unwrap().kind == expected_kind
}

/// Checks a relayed response before its payload reaches the handshake or
/// transport layer, and returns the message it carries.
pub fn validate(
    env: &RelayEnvelope,
    expected_origin: &[u8],
    local_address: &[u8],
    expected_kind: MessageKind,
) -> (r: Result<WireMessage, SecureChannelError>)
    ensures
        r is Ok <==> relay_accepts(*env, expected_origin@, local_address@, expected_kind),
        match r {
            Ok(m) => parse(env.payload@) == Some(m@),
            Err(e) => e == SecureChannelError::InvalidHubResponse,
        },
{
    if !same_bytes(env.origin.as_slice(), expected_origin) {
        return Err(SecureChannelError::InvalidHubResponse);
    }
    if !same_bytes(env.destination.as_slice(), local_address) {
        return Err(SecureChannelError::InvalidHubResponse);
    }
    match WireMessage::decode(env.payload.as_slice()) {
        Some(m) => {
            if m.kind == expected_kind {
                Ok(m)
            } else {
                Err(SecureChannelError::InvalidHubResponse)
            }
        },
        None => Err(SecureChannelError::InvalidHubResponse),
    }
}

} // verus!
