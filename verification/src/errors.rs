use vstd::prelude::*;

verus! {

/// Why a `seal` or `open` call failed.
///
/// Tag mismatch, a foreign key and ciphertext truncation all surface as the
/// single kind [`EnvelopeError::DecryptionFailure`], so a caller cannot tell
/// "wrong key" from "tampered data".
#[derive(Clone, Copy, Debug, PartialEq, Eq, Structural)]
pub enum EnvelopeError {
    /// The AEAD primitive refused to encrypt (plaintext beyond the size bound).
    EncryptionFailure,
    /// The envelope text is not valid standard base64.
    MalformedEnvelope,
    /// The decoded envelope holds fewer bytes than a nonce.
    TruncatedEnvelope,
    /// The authentication tag did not verify: tampering or a mismatched key.
    DecryptionFailure,
    /// The decrypted bytes are not valid UTF-8 text.
    InvalidPlaintextEncoding,
}

impl EnvelopeError {
    /// The human-readable description that `message` returns.
    pub open spec fn message_spec(&self) -> Seq<char> {
        match self {
            EnvelopeError::EncryptionFailure => "failed to encrypt"@,
            EnvelopeError::MalformedEnvelope => "encrypted data is not valid"@,
            EnvelopeError::TruncatedEnvelope => "nonce is too short"@,
            EnvelopeError::DecryptionFailure => "failed to decrypt"@,
            EnvelopeError::InvalidPlaintextEncoding => "decrypted data is not valid"@,
        }
    }

    /// A human-readable description of the failure, for the transport layer
    /// to hand to the caller.
    pub fn message(&self) -> (m: &'static str)
        ensures
            m@ == self.message_spec(),
    {
        match self {
            EnvelopeError::EncryptionFailure => "failed to encrypt",
            EnvelopeError::MalformedEnvelope => "encrypted data is not valid",
            EnvelopeError::TruncatedEnvelope => "nonce is too short",
            EnvelopeError::DecryptionFailure => "failed to decrypt",
            EnvelopeError::InvalidPlaintextEncoding => "decrypted data is not valid",
        }
    }
}

} // verus!
