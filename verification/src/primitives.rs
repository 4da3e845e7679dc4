//! The outside primitives the cipher rests on: the CSPRNG, AES-256-GCM and
//! standard base64, each behind a small trusted wrapper, plus UTF-8 decoding.

use vstd::prelude::*;

use aes_gcm::KeyInit;
use aes_gcm::aead::Aead;
use base64::Engine;
use rand::Rng;

use crate::errors::EnvelopeError;
use vstd::utf8::encode_utf8;
use vstd::utf8::valid_utf8;

verus! {

/// The standard padded base64 text of a byte string.
pub uninterp spec fn b64_of(bytes: Seq<u8>) -> Seq<char>;

/// The AES-256-GCM ciphertext (tag appended) of a plaintext under a key and
/// nonce.
pub uninterp spec fn aes_gcm_seal(key: Seq<u8>, nonce: Seq<u8>, plain: Seq<u8>) -> Seq<u8>;

/// What AES-256-GCM decryption returns for a key, nonce and ciphertext:
/// the plaintext when the tag verifies, nothing otherwise.
pub uninterp spec fn aes_gcm_open(key: Seq<u8>, nonce: Seq<u8>, ciphertext: Seq<u8>) -> Option<
    Seq<u8>,
>;

/// True when some byte string encodes to this text.
pub open spec fn is_b64_encoding(text: Seq<char>) -> bool {
    exists|bytes: Seq<u8>| b64_of(bytes) == text
}

/// Relies on rand::thread_rng and Rng::gen: 32 bytes from the thread-local
/// CSPRNG. Nothing can be promised of a random value.
#[verifier::external_body]
pub(crate) fn random_key_bytes() -> (r: [u8; 32]) {
    rand::thread_rng().gen()
}

/// Relies on rand::thread_rng and Rng::gen: 12 fresh random bytes for a
/// nonce. Nothing can be promised of a random value.
#[verifier::external_body]
pub(crate) fn random_nonce() -> (r: [u8; 12]) {
    rand::thread_rng().gen()
}

/// Relies on aes_gcm::Aes256Gcm (KeyInit::new, Aead::encrypt): encryption is
/// a function of key, nonce and plaintext alone; the ciphertext is the
/// plaintext's length plus a 16-byte tag; it refuses only plaintexts longer
/// than 2^36 bytes; and decrypting it under the same key and nonce gives the
/// plaintext back.
#[verifier::external_body]
pub(crate) fn aead_encrypt(key: &[u8], nonce: &[u8], plain: &[u8]) -> (r: Result<
    Vec<u8>,
    EnvelopeError,
>)
    requires
        key@.len() == 32,
        nonce@.len() == 12,
    ensures
        r matches Ok(c) ==> c@ == aes_gcm_seal(key@, nonce@, plain@),
        r matches Ok(c) ==> c@.len() == plain@.len() + 16,
        r matches Ok(c) ==> aes_gcm_open(key@, nonce@, c@) == Some(plain@),
        plain@.len() <= 0x1000000000 ==> r is Ok,
        r matches Err(e) ==> e == EnvelopeError::EncryptionFailure,
{
    let cipher = aes_gcm::Aes256Gcm::new(aes_gcm::Key::<aes_gcm::Aes256Gcm>::from_slice(key));
    cipher.encrypt(aes_gcm::Nonce::from_slice(nonce), plain).map_err(
        |_| EnvelopeError::EncryptionFailure,
    )
}

/// Relies on aes_gcm::Aes256Gcm (KeyInit::new, Aead::decrypt): the outcome is
/// a function of key, nonce and ciphertext alone; the plaintext comes back
/// only when the 16-byte tag verifies.
#[verifier::external_body]
pub(crate) fn aead_decrypt(key: &[u8], nonce: &[u8], ciphertext: &[u8]) -> (r: Result<
    Vec<u8>,
    EnvelopeError,
>)
    requires
        key@.len() == 32,
        nonce@.len() == 12,
    ensures
        r matches Ok(p) ==> aes_gcm_open(key@, nonce@, ciphertext@) == Some(p@),
        r is Err ==> aes_gcm_open(key@, nonce@, ciphertext@) is None,
        r matches Err(e) ==> e == EnvelopeError::DecryptionFailure,
{
    let cipher = aes_gcm::Aes256Gcm::new(aes_gcm::Key::<aes_gcm::Aes256Gcm>::from_slice(key));
    cipher.decrypt(aes_gcm::Nonce::from_slice(nonce), ciphertext).map_err(
        |_| EnvelopeError::DecryptionFailure,
    )
}

/// Relies on base64's STANDARD engine (Engine::encode): canonical padded
/// base64, four characters for every three bytes begun, and no other byte
/// string encodes to the same text. The length bound keeps the engine's
/// output-size arithmetic from overflowing.
#[verifier::external_body]
pub(crate) fn b64_encode(bytes: &[u8]) -> (r: String)
    requires
        bytes@.len() <= usize::MAX / 4,
    ensures
        r@ == b64_of(bytes@),
        r@.len() == 4 * ((bytes@.len() + 2) / 3),
        forall|other: Seq<u8>| b64_of(other) == r@ ==> other == bytes@,
{
    base64::engine::general_purpose::STANDARD.encode(bytes)
}

/// Relies on base64's STANDARD engine (Engine::decode): strict canonical
/// decoding, the inverse of Engine::encode; it rejects exactly the texts
/// that no byte string encodes to.
#[verifier::external_body]
pub(crate) fn b64_decode(text: &str) -> (r: Result<Vec<u8>, EnvelopeError>)
    ensures
        r matches Ok(v) ==> b64_of(v@) == text@,
        r matches Ok(v) ==> forall|other: Seq<u8>| b64_of(other) == text@ ==> other == v@,
        r is Err ==> !is_b64_encoding(text@),
        r matches Err(e) ==> e == EnvelopeError::MalformedEnvelope,
{
    base64::engine::general_purpose::STANDARD.decode(text).map_err(
        |_| EnvelopeError::MalformedEnvelope,
    )
}

/// Relies on String::from_utf8: it succeeds exactly on valid UTF-8, giving
/// the string whose byte encoding is the input.
#[verifier::external_body]
pub(crate) fn bytes_to_utf8(bytes: Vec<u8>) -> (r: Result<String, EnvelopeError>)
    ensures
        r matches Ok(s) ==> valid_utf8(bytes@) && encode_utf8(s@) == bytes@,
        r is Err ==> !valid_utf8(bytes@),
        r matches Err(e) ==> e == EnvelopeError::InvalidPlaintextEncoding,
{
    String::from_utf8(bytes).map_err(|_| EnvelopeError::InvalidPlaintextEncoding)
}

} // verus!
