//! The administrator's verification key.
//!
//! A [`PublicKey`] is built once, when the service starts, from the 32 bytes
//! found in the state document. Every value of the type is key material that
//! Ed25519 accepts, so no request is ever checked against a missing or broken
//! key.

use vstd::prelude::*;
use vstd::slice::slice_to_vec;

verus! {

/// Number of bytes in an Ed25519 public key.
pub const PUBLIC_KEY_LENGTH: usize = 32;

/// Whether 32 bytes are the compressed form of a point of the Ed25519 curve,
/// that is, whether `ed25519_dalek::PublicKey::from_bytes` can decompress them.
pub uninterp spec fn is_curve_point(bytes: Seq<u8>) -> bool;

/// The byte strings that are Ed25519 public keys.
pub open spec fn is_public_key(bytes: Seq<u8>) -> bool {
    bytes.len() == PUBLIC_KEY_LENGTH && is_curve_point(bytes)
}

/// Why a byte string is not a public key.
#[derive(Clone, Copy, Debug, PartialEq, Eq, Structural)]
pub enum KeyError {
    /// The key field does not hold exactly 32 bytes.
    WrongLength,
    /// The 32 bytes do not decompress to a point of the curve.
    NotACurvePoint,
}

/// The error that [`PublicKey::from_bytes`] reports for `bytes`, if any.
pub open spec fn key_error(bytes: Seq<u8>) -> Option<KeyError> {
    if bytes.len() != PUBLIC_KEY_LENGTH {
        Some(KeyError::WrongLength)
    } else if !is_curve_point(bytes) {
        Some(KeyError::NotACurvePoint)
    } else {
        None
    }
}

/// Calls `ed25519_dalek::PublicKey::from_bytes` and reports whether it
/// succeeded. That function rejects every slice whose length is not 32, and
/// otherwise succeeds exactly when the bytes decompress to a curve point.
#[verifier::external_body]
fn parses_as_public_key(bytes: &[u8]) -> (ok: bool)
    ensures
        ok == (bytes@.len() == PUBLIC_KEY_LENGTH && is_curve_point(bytes@)),
{
    ed25519_dalek::PublicKey::from_bytes(bytes).is_ok()
}

/// An Ed25519 verification key: 32 bytes that name a point of the curve.
#[derive(Debug)]
pub struct PublicKey {
    bytes: Vec<u8>,
}

impl View for PublicKey {
    type V = Seq<u8>;

    closed spec fn view(&self) -> Seq<u8> {
        self.bytes@
    }
}

impl PublicKey {
    #[verifier::type_invariant]
    spec fn well_formed(&self) -> bool {
        is_public_key(self.bytes@)
    }

    /// Builds the key from the bytes of the key field, or says why they are
    /// not a key.
    pub fn from_bytes(bytes: &[u8]) -> (result: Result<PublicKey, KeyError>)
        ensures
            result is Ok <==> is_public_key(bytes@),
            result matches Ok(key) ==> key@ == bytes@,
            result matches Err(e) ==> key_error(bytes@) == Some(e),
    {
        if bytes.len() != PUBLIC_KEY_LENGTH {
            Err(KeyError::WrongLength)
        } else if !parses_as_public_key(bytes) {
            Err(KeyError::NotACurvePoint)
        } else {
            Ok(PublicKey { bytes: slice_to_vec(bytes) })
        }
    }

    /// The 32 bytes of the key.
    pub fn as_bytes(&self) -> (bytes: &[u8])
        ensures
            bytes@ == self@,
            is_public_key(bytes@),
    {
        proof {
            use_type_invariant(self);
        }
        self.bytes.as_slice()
    }
}

} // verus!
