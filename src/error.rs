use vstd::prelude::*;

verus! {

/// Errors that may occur while establishing or using a secure channel.
#[derive(Clone, Copy, Debug, PartialEq, Eq, Structural)]
pub enum SecureChannelError {
    /// The key exchange process failed.
    KeyExchange,
    /// Internal state is invalid.
    InvalidInternalState,
    /// Expected nonce was invalid.
    InvalidNonce,
    /// Key exchange process did not complete.
    KeyExchangeNotComplete,
    /// Invalid response received from the Hub.
    InvalidHubResponse,
    /// Invalid LocalInfo type.
    InvalidLocalInfoType,
    /// The send nonce counter cannot advance any further.
    NonceExhausted,
}

/// Broad classification of an error, as reported to the surrounding system.
#[derive(Clone, Copy, Debug, PartialEq, Eq, Structural)]
pub enum ErrorKind {
    /// The peer or the caller did not follow the protocol.
    Protocol,
    /// A value or state was not valid for the requested operation.
    Invalid,
}

/// The kind under which each error is reported.
pub open spec fn kind_of(e: SecureChannelError) -> ErrorKind {
    match e {
        SecureChannelError::KeyExchange
        | SecureChannelError::KeyExchangeNotComplete
        | SecureChannelError::NonceExhausted => ErrorKind::Protocol,
        SecureChannelError::InvalidInternalState
        | SecureChannelError::InvalidNonce
        | SecureChannelError::InvalidHubResponse
        | SecureChannelError::InvalidLocalInfoType => ErrorKind::Invalid,
    }
}

/// The stable numeric code of each error, starting at 1.
pub open spec fn code_of(e: SecureChannelError) -> u8 {
    match e {
        SecureChannelError::KeyExchange => 1,
        SecureChannelError::InvalidInternalState => 2,
        SecureChannelError::InvalidNonce => 3,
        SecureChannelError::KeyExchangeNotComplete => 4,
        SecureChannelError::InvalidHubResponse => 5,
        SecureChannelError::InvalidLocalInfoType => 6,
        SecureChannelError::NonceExhausted => 7,
    }
}

impl SecureChannelError {
    /// The kind under which this error is reported.
    pub fn kind(&self) -> (r: ErrorKind)
        ensures
            r == kind_of(*self),
    {
        match self {
            SecureChannelError::KeyExchange
            | SecureChannelError::KeyExchangeNotComplete
            | SecureChannelError::NonceExhausted => ErrorKind::Protocol,
            SecureChannelError::InvalidInternalState
            | SecureChannelError::InvalidNonce
            | SecureChannelError::InvalidHubResponse
            | SecureChannelError::InvalidLocalInfoType => ErrorKind::Invalid,
        }
    }

    /// The stable numeric code of this error.
    pub fn code(&self) -> (r: u8)
        ensures
            r == code_of(*self),
            1 <= r <= 7,
    {
        match self {
            SecureChannelError::KeyExchange => 1,
            SecureChannelError::InvalidInternalState => 2,
            SecureChannelError::InvalidNonce => 3,
            SecureChannelError::KeyExchangeNotComplete => 4,
            SecureChannelError::InvalidHubResponse => 5,
            SecureChannelError::InvalidLocalInfoType => 6,
            SecureChannelError::NonceExhausted => 7,
        }
    }
}

} // verus!
