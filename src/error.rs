use vstd::prelude::*;

verus! {

/// What can go wrong while signing, verifying, encrypting or decrypting.
#[derive(Debug, Clone, Copy, PartialEq, Eq, Structural)]
pub enum CryptoError {
    /// Key material of the wrong length, or that does not parse.
    InvalidKey,
    /// A signature that is structurally malformed (wrong length).
    InvalidSignature,
    /// An encrypted record whose tag does not match, or that is too short.
    AuthenticationFailed,
    /// Text that is not a valid encoding under the expected alphabet.
    MalformedEncoding,
    /// The underlying reader failed.
    IoFailure,
}

impl CryptoError {
    /// A short description of the error.
    pub fn message(&self) -> (r: &'static str) {
        match self {
            CryptoError::InvalidKey => "invalid key",
            CryptoError::InvalidSignature => "invalid signature",
            CryptoError::AuthenticationFailed => "authentication failed",
            CryptoError::MalformedEncoding => "malformed encoding",
            CryptoError::IoFailure => "i/o failure",
        }
    }
}

} // verus!
