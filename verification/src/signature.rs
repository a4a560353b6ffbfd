//! Detached signatures: their transport encoding and their verification.
//!
//! A signature travels in a request header as unpadded standard base64. It
//! counts for a payload only if the text decodes, the decoded bytes have the
//! form of an Ed25519 signature, and the signature verifies under the
//! administrator's key. Everything else is a plain "no".

use vstd::prelude::*;
use vstd::slice::slice_to_vec;
use crate::key::{is_public_key, PublicKey};

verus! {

/// Number of bytes in an Ed25519 signature.
pub const SIGNATURE_LENGTH: usize = 64;

/// What `base64::decode_config` makes of a text under `STANDARD_NO_PAD`: the
/// bytes it decodes to, or `None` where the text is not base64.
pub uninterp spec fn base64_decoding(text: Seq<char>) -> Option<Seq<u8>>;

/// Whether Ed25519 verification, as `ed25519_dalek::PublicKey::verify` runs
/// it, accepts `signature` for `message` under the public key `key`.
pub uninterp spec fn ed25519_verifies(key: Seq<u8>, message: Seq<u8>, signature: Seq<u8>) -> bool;

/// The byte strings that have the form of an Ed25519 signature: 64 bytes, the
/// three highest bits of the last one clear.
pub open spec fn is_signature(bytes: Seq<u8>) -> bool {
    bytes.len() == SIGNATURE_LENGTH && (bytes[63] & 0xE0u8) == 0
}

/// The signature that a header text carries, if it carries one.
pub open spec fn decoded_signature(text: Seq<char>) -> Option<Seq<u8>> {
    match base64_decoding(text) {
        Some(bytes) if is_signature(bytes) => Some(bytes),
        _ => None,
    }
}

/// Whether the signature carried by `signature_text` is valid for `payload`
/// under `key`.
pub open spec fn signature_accepted(
    key: Seq<u8>,
    payload: Seq<u8>,
    signature_text: Seq<char>,
) -> bool {
    match decoded_signature(signature_text) {
        Some(signature) => ed25519_verifies(key, payload, signature),
        None => false,
    }
}

/// Calls `base64::decode_config` with `STANDARD_NO_PAD` on the text and hands
/// back the decoded bytes, or `None` where the call reports an error. The call
/// can panic only on an input longer than `usize::MAX - 3` bytes, which no
/// `str` is.
#[verifier::external_body]
fn decode_base64(text: &str) -> (decoded: Option<Vec<u8>>)
    ensures
        decoded matches Some(bytes) ==> base64_decoding(text@) == Some(bytes@),
        decoded is None ==> base64_decoding(text@) is None,
{
    base64::decode_config(text, base64::STANDARD_NO_PAD).ok()
}

/// Calls `ed25519_dalek::Signature::from_bytes` and reports whether it
/// succeeded. That function accepts a slice exactly when it holds 64 bytes
/// and the last byte has none of its bits `0b1110_0000` set.
#[verifier::external_body]
fn parses_as_signature(bytes: &[u8]) -> (ok: bool)
    ensures
        ok == (bytes@.len() == SIGNATURE_LENGTH && (bytes@[63] & 0xE0u8) == 0),
{
    ed25519_dalek::Signature::from_bytes(bytes).is_ok()
}

/// Calls `ed25519_dalek::PublicKey::verify` (the `Verifier` impl) on the key
/// and signature that the byte strings stand for, and reports whether it
/// returned `Ok`. Both conversions succeed on what `requires` admits.
#[verifier::external_body]
fn ed25519_verify(key: &[u8], message: &[u8], signature: &[u8]) -> (ok: bool)
    requires
        is_public_key(key@),
        is_signature(signature@),
    ensures
        ok == ed25519_verifies(key@, message@, signature@),
{
    match (
        ed25519_dalek::PublicKey::from_bytes(key),
        ed25519_dalek::Signature::from_bytes(signature),
    ) {
        (Ok(key), Ok(signature)) => {
            ed25519_dalek::Verifier::verify(&key, message, &signature).is_ok()
        },
        _ => false,
    }
}

/// An Ed25519 signature: 64 bytes of the accepted form. It lives for one
/// verification and is never stored.
#[derive(Debug)]
pub struct Signature {
    bytes: Vec<u8>,
}

impl View for Signature {
    type V = Seq<u8>;

    closed spec fn view(&self) -> Seq<u8> {
        self.bytes@
    }
}

impl Signature {
    #[verifier::type_invariant]
    spec fn well_formed(&self) -> bool {
        is_signature(self.bytes@)
    }

    /// Takes the signature from its 64 bytes; `None` where the bytes do not
    /// have the form of a signature.
    pub fn from_bytes(bytes: &[u8]) -> (result: Option<Signature>)
        ensures
            result is Some <==> is_signature(bytes@),
            result matches Some(signature) ==> signature@ == bytes@,
    {
        if parses_as_signature(bytes) {
            Some(Signature { bytes: slice_to_vec(bytes) })
        } else {
            None
        }
    }

    /// Takes the signature from its header text, unpadded standard base64;
    /// `None` where the text does not decode or does not decode to a
    /// signature.
    pub fn from_base64(text: &str) -> (result: Option<Signature>)
        ensures
            result is Some <==> decoded_signature(text@) is Some,
            result matches Some(signature) ==> decoded_signature(text@) == Some(signature@),
    {
        match decode_base64(text) {
            Some(bytes) => Signature::from_bytes(bytes.as_slice()),
            None => None,
        }
    }

    /// The 64 bytes of the signature.
    pub fn as_bytes(&self) -> (bytes: &[u8])
        ensures
            bytes@ == self@,
            is_signature(bytes@),
    {
        proof {
            use_type_invariant(self);
        }
        self.bytes.as_slice()
    }
}

impl PublicKey {
    /// Checks a signature on a message with this key.
    pub fn verify(&self, message: &[u8], signature: &Signature) -> (ok: bool)
        ensures
            ok == ed25519_verifies(self@, message@, signature@),
    {
        ed25519_verify(self.as_bytes(), message, signature.as_bytes())
    }
}

/// Checks the signature in `signature_text` against `payload` under `key`.
///
/// The answer is `true` only if the text decodes, the decoded bytes are a
/// signature, and the signature verifies; in every other case it is `false`.
pub fn verify(payload: &[u8], signature_text: &str, key: &PublicKey) -> (ok: bool)
    ensures
        ok == signature_accepted(key@, payload@, signature_text@),
{
    match Signature::from_base64(signature_text) {
        Some(signature) => key.verify(payload, &signature),
        None => false,
    }
}

} // verus!
