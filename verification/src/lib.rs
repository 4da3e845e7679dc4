//! An authenticated-encryption envelope service core.
//!
//! One component, the [`cipher::EnvelopeCipher`], owns a 256-bit key for the
//! life of the process. `seal` draws a fresh 96-bit nonce, runs AES-256-GCM
//! over the plaintext, and returns `base64(nonce || ciphertext || tag)` as a
//! printable envelope; `open` reverses each step, failing with a distinct
//! [`errors::EnvelopeError`] kind at the step that refused the input.

pub mod cipher;
pub mod errors;
pub mod primitives;
