//! The envelope cipher: seal plaintext into a printable envelope and open it
//! again, under one process-lifetime key.

use vstd::prelude::*;

use crate::errors::EnvelopeError;
use crate::primitives::aead_decrypt;
use crate::primitives::aead_encrypt;
use crate::primitives::aes_gcm_open;
use crate::primitives::aes_gcm_seal;
use crate::primitives::b64_decode;
use crate::primitives::b64_encode;
use crate::primitives::b64_of;
use crate::primitives::bytes_to_utf8;
use crate::primitives::is_b64_encoding;
use crate::primitives::random_key_bytes;
use crate::primitives::random_nonce;
use vstd::slice::slice_index_get;
use vstd::string::StringSliceAdditionalSpecFns;
use vstd::utf8::decode_utf8;
use vstd::utf8::encode_utf8;
use vstd::utf8::encode_utf8_decode_utf8;
use vstd::utf8::encode_utf8_valid_utf8;
use vstd::utf8::valid_utf8;

verus! {

broadcast use vstd::array::group_array_axioms;

/// How many bytes of nonce stand at the front of a decoded envelope.
pub const NONCE_LEN: usize = 12;

/// How many bytes of authentication tag the cipher appends.
pub const TAG_LEN: usize = 16;

/// True when a plaintext of this many UTF-8 bytes is within the documented
/// size bound of `seal`: small enough for the AEAD primitive (2^36 bytes)
/// and for the base64 step's output to be addressable.
pub open spec fn fits_sealing(n: nat) -> bool {
    n + NONCE_LEN + TAG_LEN <= usize::MAX / 4 && n <= 0x1000000000
}

/// The byte layout of an envelope: the nonce, then the ciphertext with its
/// tag.
pub open spec fn envelope_bytes(key: Seq<u8>, nonce: Seq<u8>, plain: Seq<char>) -> Seq<u8> {
    nonce + aes_gcm_seal(key, nonce, encode_utf8(plain))
}

/// The envelope text that `seal` produces when it draws a given nonce.
pub open spec fn sealed_envelope(key: Seq<u8>, nonce: Seq<u8>, plain: Seq<char>) -> Seq<char> {
    b64_of(envelope_bytes(key, nonce, plain))
}

/// What `open` returns for an envelope text under a key, step by step: the
/// text must be base64, the decoded bytes must hold a whole nonce, the tag
/// must verify, and the plaintext must be UTF-8 — each refusal with its own
/// error kind.
pub open spec fn open_result(key: Seq<u8>, envelope: Seq<char>) -> Result<
    Seq<char>,
    EnvelopeError,
> {
    if !is_b64_encoding(envelope) {
        Err(EnvelopeError::MalformedEnvelope)
    } else {
        let decoded = choose|bytes: Seq<u8>| b64_of(bytes) == envelope;
        if decoded.len() < NONCE_LEN {
            Err(EnvelopeError::TruncatedEnvelope)
        } else {
            match aes_gcm_open(key, decoded.take(NONCE_LEN as int), decoded.skip(NONCE_LEN as int)) {
                Some(plain) => if valid_utf8(plain) {
                    Ok(decode_utf8(plain))
                } else {
                    Err(EnvelopeError::InvalidPlaintextEncoding)
                },
                None => Err(EnvelopeError::DecryptionFailure),
            }
        }
    }
}

/// The authenticated-encryption component: it owns the 256-bit key for the
/// life of the process and turns plaintext into self-contained envelopes and
/// back.
#[derive(Clone, Copy)]
pub struct EnvelopeCipher {
    key: [u8; 32],
}

impl EnvelopeCipher {
    /// The 32 key bytes, as the contracts speak of them. The key itself never
    /// leaves the component.
    pub closed spec fn key(&self) -> Seq<u8> {
        self.key@
    }

    /// A cipher with a fresh key from the CSPRNG; the key then never changes
    /// for the component's lifetime.
    pub fn new() -> (r: Self)
        ensures
            r.key().len() == 32,
    {
        EnvelopeCipher { key: random_key_bytes() }
    }

    /// A cipher over a caller-chosen key: for tests, or for a key injected at
    /// process start.
    pub fn from_key(key: [u8; 32]) -> (r: Self)
        ensures
            r.key() == key@,
    {
        EnvelopeCipher { key }
    }

    /// Seal: draw a fresh random nonce, encrypt the plaintext's UTF-8 bytes
    /// under the key with AES-256-GCM, and encode `nonce || ciphertext` as
    /// standard base64.
    ///
    /// Succeeds exactly on plaintexts within the documented size bound, and
    /// the envelope it returns opens back to the plaintext under this same
    /// key.
    pub fn seal(&self, plaintext: &str) -> (r: Result<String, EnvelopeError>)
        ensures
            r is Ok <==> fits_sealing(encode_utf8(plaintext@).len()),
            r matches Ok(env) ==> exists|nonce: Seq<u8>|
                nonce.len() == NONCE_LEN && env@ == #[trigger] sealed_envelope(
                    self.key(),
                    nonce,
                    plaintext@,
                ),
            r matches Ok(env) ==> open_result(self.key(), env@) == Ok::<Seq<char>, EnvelopeError>(
                plaintext@,
            ),
            r matches Ok(env) ==> env@.len() == 4 * ((encode_utf8(plaintext@).len() + NONCE_LEN
                + TAG_LEN + 2) / 3),
            r matches Err(e) ==> e == EnvelopeError::EncryptionFailure,
    {
        let plain_bytes: &[u8] = plaintext.as_bytes();
        if plain_bytes.len() > usize::MAX / 4 - (NONCE_LEN + TAG_LEN) || plain_bytes.len() as u64
            > 0x1000000000u64 {
            return Err(EnvelopeError::EncryptionFailure);
        }
        let nonce: [u8; 12] = random_nonce();
        let ciphertext = match aead_encrypt(self.key.as_slice(), nonce.as_slice(), plain_bytes) {
            Ok(c) => c,
            Err(e) => {
                return Err(e);
            },
        };
        let data = concat_bytes(nonce.as_slice(), ciphertext.as_slice());
        let envelope = b64_encode(data.as_slice());
        proof {
            let k = self.key();
            let nseq = nonce@;
            let pseq = encode_utf8(plaintext@);
            let cseq = ciphertext@;
            assert(data@ == nseq + cseq);
            assert(sealed_envelope(k, nseq, plaintext@) == envelope@);
            assert(is_b64_encoding(envelope@));
            let decoded = choose|bytes: Seq<u8>| b64_of(bytes) == envelope@;
            assert(decoded == data@);
            assert(decoded.take(NONCE_LEN as int) =~= nseq);
            assert(decoded.skip(NONCE_LEN as int) =~= cseq);
            assert(aes_gcm_open(k, nseq, cseq) == Some(pseq));
            encode_utf8_valid_utf8(plaintext@);
            encode_utf8_decode_utf8(plaintext@);
            assert(open_result(k, envelope@) == Ok::<Seq<char>, EnvelopeError>(plaintext@));
        }
        Ok(envelope)
    }

    /// Open: base64-decode the envelope, check that it holds a whole nonce,
    /// verify the tag and decrypt under the key, and decode the plaintext as
    /// UTF-8. The result is exactly what [`open_result`] says for this key
    /// and text.
    pub fn open(&self, envelope: &str) -> (r: Result<String, EnvelopeError>)
        ensures
            r matches Ok(p) ==> open_result(self.key(), envelope@) == Ok::<
                Seq<char>,
                EnvelopeError,
            >(p@),
            r matches Err(e) ==> open_result(self.key(), envelope@) == Err::<
                Seq<char>,
                EnvelopeError,
            >(e),
    {
        let decoded = match b64_decode(envelope) {
            Ok(v) => v,
            Err(e) => {
                return Err(e);
            },
        };
        let ghost chosen = choose|bytes: Seq<u8>| b64_of(bytes) == envelope@;
        proof {
            assert(chosen == decoded@);
        }
        if decoded.len() < NONCE_LEN {
            return Err(EnvelopeError::TruncatedEnvelope);
        }
        let nonce = copy_range(decoded.as_slice(), 0, NONCE_LEN);
        let ciphertext = copy_range(decoded.as_slice(), NONCE_LEN, decoded.len());
        proof {
            assert(nonce@ =~= chosen.take(NONCE_LEN as int));
            assert(ciphertext@ =~= chosen.skip(NONCE_LEN as int));
        }
        let plain = match aead_decrypt(self.key.as_slice(), nonce.as_slice(), ciphertext.as_slice())
            {
            Ok(p) => p,
            Err(e) => {
                return Err(e);
            },
        };
        let text = match bytes_to_utf8(plain) {
            Ok(s) => s,
            Err(e) => {
                return Err(e);
            },
        };
        proof {
            encode_utf8_decode_utf8(text@);
        }
        Ok(text)
    }
}

/// One buffer holding the bytes of `a`, then those of `b`.
fn concat_bytes(a: &[u8], b: &[u8]) -> (r: Vec<u8>)
    ensures
        r@ == a@ + b@,
{
    let mut out: Vec<u8> = Vec::new();
    let mut i: usize = 0;
    while i < a.len()
        invariant
            i <= a@.len(),
            out@ == a@.take(i as int),
        decreases a@.len() - i,
    {
        out.push(*slice_index_get(a, i));
        proof {
            assert(a@.take(i + 1) =~= a@.take(i as int).push(a@[i as int]));
        }
        i = i + 1;
    }
    let mut j: usize = 0;
    proof {
        assert(a@.take(a@.len() as int) =~= a@);
        assert(out@ =~= a@ + b@.take(0));
    }
    while j < b.len()
        invariant
            j <= b@.len(),
            out@ == a@ + b@.take(j as int),
        decreases b@.len() - j,
    {
        out.push(*slice_index_get(b, j));
        proof {
            assert((a@ + b@.take(j + 1)) =~= (a@ + b@.take(j as int)).push(b@[j as int]));
        }
        j = j + 1;
    }
    proof {
        assert(b@.take(b@.len() as int) =~= b@);
    }
    out
}

/// A copy of the bytes in `[start, end)` of a slice.
fn copy_range(v: &[u8], start: usize, end: usize) -> (r: Vec<u8>)
    requires
        start <= end,
        end <= v@.len(),
    ensures
        r@ == v@.subrange(start as int, end as int),
{
    let mut out: Vec<u8> = Vec::new();
    let mut i: usize = start;
    while i < end
        invariant
            start <= i <= end,
            end <= v@.len(),
            out@ == v@.subrange(start as int, i as int),
        decreases end - i,
    {
        out.push(*slice_index_get(v, i));
        proof {
            assert(v@.subrange(start as int, i + 1) =~= v@.subrange(start as int, i as int).push(
                v@[i as int],
            ));
        }
        i = i + 1;
    }
    out
}

} // verus!
