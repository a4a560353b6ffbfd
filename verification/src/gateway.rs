//! The gateway: from the facts of a forwarded request to accept or deny.
//!
//! The proxy asks once per administrative request. The answer is accept only
//! if the request reached the one recognized path, names the target of the
//! proxied request, has a body of UTF-8 text, and carries a signature that is
//! valid for the canonical payload under the administrator's key. Whatever
//! else happens is a deny, and one deny looks like another.

use vstd::prelude::*;
use vstd::utf8::{decode_utf8, encode_utf8, valid_utf8};
use crate::key::PublicKey;
use crate::payload::{
    canonical_payload, canonical_payload_bytes, canonical_payload_bytes_is_injective,
    create_payload, lowercase,
};
use crate::signature::{
    base64_decoding, ed25519_verifies, is_signature, signature_accepted, verify,
    SIGNATURE_LENGTH,
};

verus! {

/// Name of the header that carries the target of the proxied request.
pub const ORIGINAL_URI_HEADER: &'static str = "x-original-uri";

/// Name of the header that carries the detached signature, in unpadded
/// standard base64.
pub const SIGNATURE_HEADER: &'static str = "x-hpos-admin-signature";

/// Status of the response that lets the proxied request through.
pub const STATUS_OK: u16 = 200;

/// Status of the response that blocks the proxied request.
pub const STATUS_UNAUTHORIZED: u16 = 401;

/// The status that tells the proxy the outcome of a verification.
pub open spec fn status_of(is_verified: bool) -> u16 {
    if is_verified {
        STATUS_OK
    } else {
        STATUS_UNAUTHORIZED
    }
}

/// The one path on which requests are verified.
pub open spec fn is_recognized_path(path: Seq<char>) -> bool {
    path == "/"@
}

/// Whether the signature header of a request, if there is one, holds a valid
/// signature of `payload` under `key`.
pub open spec fn request_verified(
    key: Seq<u8>,
    payload: Seq<char>,
    signature: Option<Seq<char>>,
) -> bool {
    match signature {
        Some(text) => signature_accepted(key, encode_utf8(payload), text),
        None => false,
    }
}

/// Whether a request is accepted.
///
/// `path` and `method` are those of the request as it reached the service,
/// `original_uri` and `signature` the values of the headers `x-original-uri`
/// and `x-hpos-admin-signature` where the request has them, `body` its body.
pub open spec fn request_accepted(
    key: Seq<u8>,
    path: Seq<char>,
    method: Seq<char>,
    original_uri: Option<Seq<char>>,
    signature: Option<Seq<char>>,
    body: Seq<u8>,
) -> bool {
    &&& is_recognized_path(path)
    &&& original_uri is Some
    &&& valid_utf8(body)
    &&& request_verified(
        key,
        canonical_payload(method, original_uri->0, decode_utf8(body)),
        signature,
    )
}

/// Calls `std::str::from_utf8`, which succeeds exactly on the byte strings
/// that are UTF-8 and then gives the text that those bytes encode.
#[verifier::external_body]
fn utf8_text(bytes: &[u8]) -> (text: Option<&str>)
    ensures
        text is Some <==> valid_utf8(bytes@),
        text matches Some(s) ==> encode_utf8(s@) == bytes@,
{
    std::str::from_utf8(bytes).ok()
}

/// Whether `path` is the one path on which requests are verified. A request
/// to any other path can be answered with a deny before its body is read.
pub fn recognizes_path(path: &str) -> (recognized: bool)
    ensures
        recognized == is_recognized_path(path@),
{
    proof {
        reveal_strlit("/");
    }
    let recognized = path.unicode_len() == 1 && path.get_char(0) == '/';
    assert(recognized ==> path@ =~= "/"@);
    recognized
}

/// The status that tells the proxy the outcome of a verification: 200 to let
/// the request through, 401 to block it.
pub fn respond_success(is_verified: bool) -> (status: u16)
    ensures
        status == status_of(is_verified),
{
    if is_verified {
        STATUS_OK
    } else {
        STATUS_UNAUTHORIZED
    }
}

/// Checks the signature header of a request against its canonical payload.
/// A request without the header is not verified.
pub fn verify_request(
    key: &PublicKey,
    payload: &str,
    signature: Option<&str>,
) -> (is_verified: bool)
    ensures
        is_verified == request_verified(key@, payload@, signature.deep_view()),
{
    match signature {
        Some(text) => verify(payload.as_bytes(), text, key),
        None => false,
    }
}

/// Decides on a request and gives the status of the response.
///
/// `path` and `method` are those of the request as it reached the service,
/// `original_uri` and `signature` the values of the headers `x-original-uri`
/// and `x-hpos-admin-signature` where the request has them, `body` its body.
pub fn create_response(
    key: &PublicKey,
    path: &str,
    method: &str,
    original_uri: Option<&str>,
    signature: Option<&str>,
    body: &[u8],
) -> (status: u16)
    ensures
        status == status_of(
            request_accepted(
                key@,
                path@,
                method@,
                original_uri.deep_view(),
                signature.deep_view(),
                body@,
            ),
        ),
{
    if !recognizes_path(path) {
        return respond_success(false);
    }
    let uri = match original_uri {
        Some(uri) => uri,
        None => {
            return respond_success(false);
        },
    };
    let body_text = match utf8_text(body) {
        Some(text) => text,
        None => {
            return respond_success(false);
        },
    };
    proof {
        vstd::utf8::encode_utf8_decode_utf8(body_text@);
    }
    let payload = create_payload(method, uri, body_text);
    let is_verified = verify_request(key, payload.as_str(), signature);
    respond_success(is_verified)
}

/// A request that carries a signature of its own canonical payload is
/// accepted: whatever the method, the target and the body, if the signature
/// header decodes to a signature that verifies for the payload of these three
/// under the administrator's key, the answer is accept.
pub proof fn signed_request_is_accepted(
    key: Seq<u8>,
    method: Seq<char>,
    uri: Seq<char>,
    body: Seq<char>,
    signature: Seq<u8>,
    signature_text: Seq<char>,
)
    requires
        base64_decoding(signature_text) == Some(signature),
        is_signature(signature),
        ed25519_verifies(key, canonical_payload_bytes(method, uri, body), signature),
    ensures
        request_accepted(key, "/"@, method, Some(uri), Some(signature_text), encode_utf8(body)),
{
    vstd::utf8::encode_utf8_valid_utf8(body);
    vstd::utf8::encode_utf8_decode_utf8(body);
}

/// A change to the target or to the body of a signed request changes the
/// bytes that the signature is held against. The changed request is denied,
/// unless the signature is valid for the changed payload as well.
pub proof fn changed_request_is_denied(
    key: Seq<u8>,
    method: Seq<char>,
    uri: Seq<char>,
    body: Seq<u8>,
    changed_uri: Seq<char>,
    changed_body: Seq<u8>,
    signature_text: Seq<char>,
)
    requires
        valid_utf8(body),
        changed_uri != uri || changed_body != body,
        valid_utf8(changed_body) ==> !signature_accepted(
            key,
            canonical_payload_bytes(method, changed_uri, decode_utf8(changed_body)),
            signature_text,
        ),
    ensures
        valid_utf8(changed_body) ==>
            canonical_payload_bytes(method, changed_uri, decode_utf8(changed_body))
                != canonical_payload_bytes(method, uri, decode_utf8(body)),
        !request_accepted(
            key,
            "/"@,
            method,
            Some(changed_uri),
            Some(signature_text),
            changed_body,
        ),
{
    if valid_utf8(changed_body) {
        let before = canonical_payload_bytes(method, uri, decode_utf8(body));
        let after = canonical_payload_bytes(method, changed_uri, decode_utf8(changed_body));
        if after == before {
            canonical_payload_bytes_is_injective(
                method,
                changed_uri,
                decode_utf8(changed_body),
                method,
                uri,
                decode_utf8(body),
            );
            vstd::utf8::decode_utf8_encode_utf8(body);
            vstd::utf8::decode_utf8_encode_utf8(changed_body);
        }
    }
}

/// The case of the method does not matter: two requests that differ only in
/// methods with the same lower-case form, such as `POST` and `post`, get the
/// same answer.
pub proof fn method_case_is_ignored(
    key: Seq<u8>,
    path: Seq<char>,
    method1: Seq<char>,
    method2: Seq<char>,
    original_uri: Option<Seq<char>>,
    signature: Option<Seq<char>>,
    body: Seq<u8>,
)
    requires
        lowercase(method1) == lowercase(method2),
    ensures
        request_accepted(key, path, method1, original_uri, signature, body)
            == request_accepted(key, path, method2, original_uri, signature, body),
{
}

/// A request without the signature header is denied, whatever else it holds.
pub proof fn missing_signature_is_denied(
    key: Seq<u8>,
    path: Seq<char>,
    method: Seq<char>,
    original_uri: Option<Seq<char>>,
    body: Seq<u8>,
)
    ensures
        !request_accepted(key, path, method, original_uri, None, body),
{
}

/// A request that does not name the target of the proxied request is denied,
/// whatever else it holds.
pub proof fn missing_original_uri_is_denied(
    key: Seq<u8>,
    path: Seq<char>,
    method: Seq<char>,
    signature: Option<Seq<char>>,
    body: Seq<u8>,
)
    ensures
        !request_accepted(key, path, method, None, signature, body),
{
}

/// A request whose body is not UTF-8 is denied, whatever else it holds.
pub proof fn body_that_is_no_text_is_denied(
    key: Seq<u8>,
    path: Seq<char>,
    method: Seq<char>,
    original_uri: Option<Seq<char>>,
    signature: Option<Seq<char>>,
    body: Seq<u8>,
)
    requires
        !valid_utf8(body),
    ensures
        !request_accepted(key, path, method, original_uri, signature, body),
{
}

/// A signature header that is not base64 leads to a deny.
pub proof fn malformed_signature_text_is_denied(
    key: Seq<u8>,
    path: Seq<char>,
    method: Seq<char>,
    original_uri: Option<Seq<char>>,
    signature_text: Seq<char>,
    body: Seq<u8>,
)
    requires
        base64_decoding(signature_text) is None,
    ensures
        !request_accepted(key, path, method, original_uri, Some(signature_text), body),
{
}

/// A signature header that decodes to more or fewer than 64 bytes leads to a
/// deny.
pub proof fn signature_of_wrong_length_is_denied(
    key: Seq<u8>,
    path: Seq<char>,
    method: Seq<char>,
    original_uri: Option<Seq<char>>,
    signature_text: Seq<char>,
    body: Seq<u8>,
)
    requires
        base64_decoding(signature_text) matches Some(bytes) && bytes.len() != SIGNATURE_LENGTH,
    ensures
        !request_accepted(key, path, method, original_uri, Some(signature_text), body),
{
}

/// A signature that does not verify for the canonical payload of the request
/// leads to a deny, however well-formed it is.
pub proof fn invalid_signature_is_denied(
    key: Seq<u8>,
    path: Seq<char>,
    method: Seq<char>,
    uri: Seq<char>,
    signature: Seq<u8>,
    signature_text: Seq<char>,
    body: Seq<u8>,
)
    requires
        base64_decoding(signature_text) == Some(signature),
        !ed25519_verifies(
            key,
            canonical_payload_bytes(method, uri, decode_utf8(body)),
            signature,
        ),
    ensures
        !request_accepted(key, path, method, Some(uri), Some(signature_text), body),
{
}

/// A request to any path but the recognized one is denied, even with valid
/// headers and a valid signature.
pub proof fn unrecognized_path_is_denied(
    key: Seq<u8>,
    path: Seq<char>,
    method: Seq<char>,
    original_uri: Option<Seq<char>>,
    signature: Option<Seq<char>>,
    body: Seq<u8>,
)
    requires
        path != "/"@,
    ensures
        !request_accepted(key, path, method, original_uri, signature, body),
{
}

} // verus!
