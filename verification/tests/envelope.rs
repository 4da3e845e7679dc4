use aes_gcm::aead::Aead;
use aes_gcm::Aes256Gcm;
use aes_gcm::Key;
use aes_gcm::KeyInit;
use aes_gcm::Nonce;
use base64::Engine;

use encryo::cipher::EnvelopeCipher;
use encryo::errors::EnvelopeError;

fn b64(bytes: &[u8]) -> String {
    base64::engine::general_purpose::STANDARD.encode(bytes)
}

fn b64_decode(text: &str) -> Vec<u8> {
    base64::engine::general_purpose::STANDARD.decode(text).unwrap()
}

#[test]
fn round_trip_hello() {
    let cipher = EnvelopeCipher::new();
    let envelope = cipher.seal("hello").unwrap();
    assert_eq!(cipher.open(&envelope).unwrap(), "hello");
}

#[test]
fn round_trip_longer_text() {
    let cipher = EnvelopeCipher::new();
    let plaintext = "The quick brown fox jumps over the lazy dog, 0123456789.";
    let envelope = cipher.seal(plaintext).unwrap();
    assert_eq!(cipher.open(&envelope).unwrap(), plaintext);
}

#[test]
fn round_trip_unicode() {
    let cipher = EnvelopeCipher::new();
    let plaintext = "héllo wörld — ciphertext: 暗号文 🔐";
    let envelope = cipher.seal(plaintext).unwrap();
    assert_eq!(cipher.open(&envelope).unwrap(), plaintext);
}

#[test]
fn round_trip_empty() {
    let cipher = EnvelopeCipher::new();
    let envelope = cipher.seal("").unwrap();
    assert_eq!(cipher.open(&envelope).unwrap(), "");
    // 12-byte nonce + 0-byte ciphertext + 16-byte tag = 28 bytes -> 40 chars
    assert_eq!(envelope.len(), 40);
}

#[test]
fn sealing_twice_differs() {
    let cipher = EnvelopeCipher::new();
    let first = cipher.seal("same plaintext").unwrap();
    let second = cipher.seal("same plaintext").unwrap();
    assert_ne!(first, second);
    assert_eq!(cipher.open(&first).unwrap(), "same plaintext");
    assert_eq!(cipher.open(&second).unwrap(), "same plaintext");
}

#[test]
fn hello_envelope_length() {
    let cipher = EnvelopeCipher::new();
    let envelope = cipher.seal("hello").unwrap();
    // 12-byte nonce + 5-byte ciphertext + 16-byte tag = 33 bytes -> 44 chars
    assert!(envelope.len() >= 44);
    assert_eq!(envelope.len(), 44);
    assert_eq!(cipher.open(&envelope).unwrap(), "hello");
}

#[test]
fn envelope_is_not_the_plaintext() {
    let cipher = EnvelopeCipher::new();
    let envelope = cipher.seal("hello").unwrap();
    let decoded = b64_decode(&envelope);
    assert_eq!(decoded.len(), 33);
    // the ciphertext region must not carry the plaintext bytes in the clear
    assert_ne!(&decoded[12..17], b"hello");
}

#[test]
fn tampering_any_bit_fails() {
    let cipher = EnvelopeCipher::from_key([3u8; 32]);
    let envelope = cipher.seal("hello").unwrap();
    let bytes = b64_decode(&envelope);
    for byte_idx in 0..bytes.len() {
        for bit in 0..8 {
            let mut tampered = bytes.clone();
            tampered[byte_idx] ^= 1u8 << bit;
            let result = cipher.open(&b64(&tampered));
            assert_eq!(result, Err(EnvelopeError::DecryptionFailure));
        }
    }
}

#[test]
fn truncated_envelope() {
    let cipher = EnvelopeCipher::new();
    // "AAAA" decodes to 3 bytes, fewer than a 12-byte nonce
    assert_eq!(cipher.open("AAAA"), Err(EnvelopeError::TruncatedEnvelope));
    // the empty text decodes to no bytes at all
    assert_eq!(cipher.open(""), Err(EnvelopeError::TruncatedEnvelope));
    assert_eq!(cipher.open(&b64(&[0u8; 11])), Err(EnvelopeError::TruncatedEnvelope));
}

#[test]
fn bare_nonce_envelope_fails_authentication() {
    let cipher = EnvelopeCipher::new();
    // exactly 12 decoded bytes: a whole nonce but no ciphertext and no tag
    assert_eq!(cipher.open(&b64(&[0u8; 12])), Err(EnvelopeError::DecryptionFailure));
}

#[test]
fn malformed_envelope() {
    let cipher = EnvelopeCipher::new();
    assert_eq!(cipher.open("this is not base64!"), Err(EnvelopeError::MalformedEnvelope));
    assert_eq!(cipher.open("????"), Err(EnvelopeError::MalformedEnvelope));
    // valid alphabet but broken padding is not canonical base64 either
    assert_eq!(cipher.open("AAA"), Err(EnvelopeError::MalformedEnvelope));
}

#[test]
fn cross_instance_open_fails() {
    let sealer = EnvelopeCipher::from_key([7u8; 32]);
    let opener = EnvelopeCipher::from_key([8u8; 32]);
    let envelope = sealer.seal("secret").unwrap();
    assert_eq!(opener.open(&envelope), Err(EnvelopeError::DecryptionFailure));
}

#[test]
fn same_key_other_instance_opens() {
    let sealer = EnvelopeCipher::from_key([7u8; 32]);
    let opener = EnvelopeCipher::from_key([7u8; 32]);
    let envelope = sealer.seal("secret").unwrap();
    assert_eq!(opener.open(&envelope).unwrap(), "secret");
}

#[test]
fn non_utf8_plaintext_is_rejected() {
    let key = [9u8; 32];
    let aes = Aes256Gcm::new(Key::<Aes256Gcm>::from_slice(&key));
    let nonce = [0u8; 12];
    // a well-formed envelope whose authenticated plaintext is not UTF-8
    let ciphertext = aes
        .encrypt(Nonce::from_slice(&nonce), &[0xffu8, 0xfe, 0x00][..])
        .unwrap();
    let mut data = nonce.to_vec();
    data.extend_from_slice(&ciphertext);
    let cipher = EnvelopeCipher::from_key(key);
    assert_eq!(cipher.open(&b64(&data)), Err(EnvelopeError::InvalidPlaintextEncoding));
}

#[test]
fn error_messages_are_distinct() {
    let kinds = [
        EnvelopeError::EncryptionFailure,
        EnvelopeError::MalformedEnvelope,
        EnvelopeError::TruncatedEnvelope,
        EnvelopeError::DecryptionFailure,
        EnvelopeError::InvalidPlaintextEncoding,
    ];
    for kind in kinds.iter() {
        assert!(!kind.message().is_empty());
    }
    assert_ne!(
        EnvelopeError::DecryptionFailure.message(),
        EnvelopeError::MalformedEnvelope.message()
    );
    assert_eq!(EnvelopeError::TruncatedEnvelope.message(), "nonce is too short");
}
