//! The canonical payload: the text that the administrator signs.
//!
//! Signer and verifier each build the payload from the method, the request
//! target and the body of a request, and must arrive at the same bytes. The
//! payload is a JSON object with the three members `method`, `uri` and `body`,
//! in that order, without white space, the method in lower case.

use vstd::prelude::*;
use vstd::utf8::{encode_utf8, is_ascii_chars};

verus! {

/// The lower-case form of an ASCII character.
pub open spec fn ascii_lowercase_char(c: char) -> char {
    if 'A' <= c <= 'Z' {
        ((c as u8) + 32) as char
    } else {
        c
    }
}

/// An ASCII text with each of its letters in lower case.
pub open spec fn ascii_lowercase(text: Seq<char>) -> Seq<char> {
    text.map_values(|c: char| ascii_lowercase_char(c))
}

/// What `str::to_lowercase` makes of a text: its lower-case form under the
/// Unicode case mappings.
pub uninterp spec fn unicode_lowercase(text: Seq<char>) -> Seq<char>;

/// The lower-case form of a text, as the payload holds it: ASCII text has its
/// letters replaced one by one, other text goes by the Unicode case mappings.
pub open spec fn lowercase(text: Seq<char>) -> Seq<char> {
    if is_ascii_chars(text) {
        ascii_lowercase(text)
    } else {
        unicode_lowercase(text)
    }
}

/// The sixteen digits of the escapes for control characters.
pub open spec fn hex_digit(n: int) -> char {
    "0123456789abcdef"@[n]
}

/// How one character stands inside a JSON string.
pub open spec fn escaped_char(c: char) -> Seq<char> {
    if c == '"' {
        seq!['\\', '"']
    } else if c == '\\' {
        seq!['\\', '\\']
    } else if c == '\u{08}' {
        seq!['\\', 'b']
    } else if c == '\u{09}' {
        seq!['\\', 't']
    } else if c == '\u{0a}' {
        seq!['\\', 'n']
    } else if c == '\u{0c}' {
        seq!['\\', 'f']
    } else if c == '\u{0d}' {
        seq!['\\', 'r']
    } else if c <= '\u{1f}' {
        seq!['\\', 'u', '0', '0', hex_digit(c as int / 16), hex_digit(c as int % 16)]
    } else {
        seq![c]
    }
}

/// The characters of a text as they stand inside a JSON string.
pub open spec fn escaped(text: Seq<char>) -> Seq<char>
    decreases text.len(),
{
    if text.len() == 0 {
        seq![]
    } else {
        escaped_char(text[0]) + escaped(text.drop_first())
    }
}

/// A text as a JSON string: its escaped characters between double quotes.
pub open spec fn json_string(text: Seq<char>) -> Seq<char> {
    seq!['"'] + escaped(text) + seq!['"']
}

/// The canonical payload of a request.
pub open spec fn canonical_payload(
    method: Seq<char>,
    uri: Seq<char>,
    body: Seq<char>,
) -> Seq<char> {
    "{\"method\":"@ + json_string(lowercase(method))
        + ",\"uri\":"@ + json_string(uri)
        + ",\"body\":"@ + json_string(body)
        + "}"@
}

/// The bytes of the canonical payload, over which the signature is made.
pub open spec fn canonical_payload_bytes(
    method: Seq<char>,
    uri: Seq<char>,
    body: Seq<char>,
) -> Seq<u8> {
    encode_utf8(canonical_payload(method, uri, body))
}

/// Calls `str::to_ascii_lowercase`, which replaces each letter `A` to `Z` by
/// `a` to `z` and leaves every other character as it is.
#[verifier::external_body]
fn to_ascii_lowercase(text: &str) -> (lower: String)
    ensures
        lower@ == ascii_lowercase(text@),
{
    text.to_ascii_lowercase()
}

/// Calls `str::to_lowercase`, which gives the lower-case form of a text under
/// the Unicode case mappings.
#[verifier::external_body]
fn to_unicode_lowercase(text: &str) -> (lower: String)
    ensures
        lower@ == unicode_lowercase(text@),
{
    text.to_lowercase()
}

/// Calls `serde_json::to_string` on a `str`, which cannot fail on a string.
/// The result is the text between double quotes, with `"` and `\` behind a
/// backslash, the control characters below U+0020 as `\b`, `\t`, `\n`, `\f`,
/// `\r` or `\u00` and two lower-case hex digits, and every other character
/// as it is.
#[verifier::external_body]
fn to_json_string(text: &str) -> (json: String)
    ensures
        json@ == json_string(text@),
{
    serde_json::to_string(text).unwrap_or_default()
}

/// The lower-case form of a method. Methods are ASCII as a rule and take the
/// short way; any other text goes through the Unicode case mappings.
fn to_lowercase(method: &str) -> (lower: String)
    ensures
        lower@ == lowercase(method@),
{
    if method.is_ascii() {
        to_ascii_lowercase(method)
    } else {
        to_unicode_lowercase(method)
    }
}

/// Builds the canonical payload of a request from its method, the target it
/// was sent to and its body.
pub fn create_payload(method: &str, uri: &str, body: &str) -> (payload: String)
    ensures
        payload@ == canonical_payload(method@, uri@, body@),
{
    let method = to_lowercase(method);
    let mut payload = String::from_str("{\"method\":");
    payload.append(to_json_string(method.as_str()).as_str());
    payload.append(",\"uri\":");
    payload.append(to_json_string(uri).as_str());
    payload.append(",\"body\":");
    payload.append(to_json_string(body).as_str());
    payload.append("}");
    payload
}

/// A common beginning can be struck from two equal texts.
proof fn lemma_strike_prefix(prefix: Seq<char>, x: Seq<char>, y: Seq<char>)
    requires
        prefix + x == prefix + y,
    ensures
        x == y,
{
    assert(x =~= (prefix + x).subrange(prefix.len() as int, (prefix + x).len() as int));
    assert(y =~= (prefix + y).subrange(prefix.len() as int, (prefix + y).len() as int));
}

/// No character begins, inside a JSON string, with the quote that ends the
/// string.
proof fn lemma_escaped_char_is_no_quote(c: char)
    ensures
        escaped_char(c).len() >= 1,
        escaped_char(c)[0] != '"',
{
}

/// The escaped form of a character, followed by anything, tells which
/// character it was.
proof fn lemma_escaped_char_is_read_back(x: char, y: char, s1: Seq<char>, s2: Seq<char>)
    requires
        escaped_char(x) + s1 == escaped_char(y) + s2,
    ensures
        x == y,
        s1 == s2,
{
    reveal_strlit("0123456789abcdef");
    let ex = escaped_char(x);
    let ey = escaped_char(y);
    let left = ex + s1;
    let right = ey + s2;
    // The first character tells an escape from a character that stands for
    // itself, the second tells the escapes apart, and the last two of a hex
    // escape give the code of the control character.
    assert(left[0] == ex[0] && right[0] == ey[0]);
    if ex[0] == '\\' {
        assert(left[1] == ex[1] && right[1] == ey[1]);
        if ex[1] == 'u' {
            assert(left[4] == ex[4] && right[4] == ey[4]);
            assert(left[5] == ex[5] && right[5] == ey[5]);
        }
    }
    assert(x == y);
    lemma_strike_prefix(ex, s1, s2);
}

/// The escaped form of a text, closed by a quote and followed by anything,
/// tells which text it was and what followed.
proof fn lemma_escaped_is_read_back(a: Seq<char>, b: Seq<char>, r1: Seq<char>, r2: Seq<char>)
    requires
        escaped(a) + seq!['"'] + r1 == escaped(b) + seq!['"'] + r2,
    ensures
        a == b,
        r1 == r2,
    decreases a.len(),
{
    let left = escaped(a) + seq!['"'] + r1;
    let right = escaped(b) + seq!['"'] + r2;
    if a.len() == 0 && b.len() == 0 {
        lemma_strike_prefix(seq!['"'], r1, r2);
    } else if a.len() == 0 {
        // The left text begins with the closing quote, the right one does not.
        lemma_escaped_char_is_no_quote(b[0]);
        assert(right[0] == escaped_char(b[0])[0]);
    } else if b.len() == 0 {
        lemma_escaped_char_is_no_quote(a[0]);
        assert(left[0] == escaped_char(a[0])[0]);
    } else {
        let rest1 = escaped(a.drop_first()) + seq!['"'] + r1;
        let rest2 = escaped(b.drop_first()) + seq!['"'] + r2;
        assert(left =~= escaped_char(a[0]) + rest1);
        assert(right =~= escaped_char(b[0]) + rest2);
        lemma_escaped_char_is_read_back(a[0], b[0], rest1, rest2);
        lemma_escaped_is_read_back(a.drop_first(), b.drop_first(), r1, r2);
        assert(a =~= seq![a[0]] + a.drop_first());
        assert(b =~= seq![b[0]] + b.drop_first());
    }
}

/// A JSON string is self-delimiting: followed by anything, it tells which
/// text it holds and what followed.
pub proof fn json_string_is_read_back(a: Seq<char>, b: Seq<char>, r1: Seq<char>, r2: Seq<char>)
    requires
        json_string(a) + r1 == json_string(b) + r2,
    ensures
        a == b,
        r1 == r2,
{
    let quote = seq!['"'];
    assert(json_string(a) + r1 =~= quote + (escaped(a) + quote + r1));
    assert(json_string(b) + r2 =~= quote + (escaped(b) + quote + r2));
    lemma_strike_prefix(quote, escaped(a) + quote + r1, escaped(b) + quote + r2);
    lemma_escaped_is_read_back(a, b, r1, r2);
}

/// Two requests have the same canonical payload only if they agree in the
/// lower-case form of the method, in the target and in the body: whatever is
/// changed in one of them changes the text that is signed.
pub proof fn canonical_payload_is_injective(
    method1: Seq<char>,
    uri1: Seq<char>,
    body1: Seq<char>,
    method2: Seq<char>,
    uri2: Seq<char>,
    body2: Seq<char>,
)
    requires
        canonical_payload(method1, uri1, body1) == canonical_payload(method2, uri2, body2),
    ensures
        lowercase(method1) == lowercase(method2),
        uri1 == uri2,
        body1 == body2,
{
    let k1 = "{\"method\":"@;
    let k2 = ",\"uri\":"@;
    let k3 = ",\"body\":"@;
    let k4 = "}"@;
    let tail_b1 = json_string(body1) + k4;
    let tail_b2 = json_string(body2) + k4;
    let tail_u1 = json_string(uri1) + (k3 + tail_b1);
    let tail_u2 = json_string(uri2) + (k3 + tail_b2);
    let tail_m1 = json_string(lowercase(method1)) + (k2 + tail_u1);
    let tail_m2 = json_string(lowercase(method2)) + (k2 + tail_u2);
    assert(canonical_payload(method1, uri1, body1) =~= k1 + tail_m1);
    assert(canonical_payload(method2, uri2, body2) =~= k1 + tail_m2);
    lemma_strike_prefix(k1, tail_m1, tail_m2);
    json_string_is_read_back(lowercase(method1), lowercase(method2), k2 + tail_u1, k2 + tail_u2);
    lemma_strike_prefix(k2, tail_u1, tail_u2);
    json_string_is_read_back(uri1, uri2, k3 + tail_b1, k3 + tail_b2);
    lemma_strike_prefix(k3, tail_b1, tail_b2);
    json_string_is_read_back(body1, body2, k4, k4);
}

/// The same holds of the bytes that are signed.
pub proof fn canonical_payload_bytes_is_injective(
    method1: Seq<char>,
    uri1: Seq<char>,
    body1: Seq<char>,
    method2: Seq<char>,
    uri2: Seq<char>,
    body2: Seq<char>,
)
    requires
        canonical_payload_bytes(method1, uri1, body1)
            == canonical_payload_bytes(method2, uri2, body2),
    ensures
        lowercase(method1) == lowercase(method2),
        uri1 == uri2,
        body1 == body2,
{
    vstd::utf8::encode_utf8_decode_utf8(canonical_payload(method1, uri1, body1));
    vstd::utf8::encode_utf8_decode_utf8(canonical_payload(method2, uri2, body2));
    canonical_payload_is_injective(method1, uri1, body1, method2, uri2, body2);
}

/// An ASCII method and its spelling in lower case have the same lower-case
/// form, so either of them can be signed and either submitted.
pub proof fn lowercase_of_ascii_is_stable(method: Seq<char>)
    requires
        is_ascii_chars(method),
    ensures
        is_ascii_chars(ascii_lowercase(method)),
        lowercase(ascii_lowercase(method)) == lowercase(method),
{
    assert(ascii_lowercase(ascii_lowercase(method)) =~= ascii_lowercase(method));
}

/// The payload holds the method in lower case only: methods with the same
/// lower-case form, such as `POST` and `post`, give the same payload.
pub proof fn canonical_payload_ignores_method_case(
    method1: Seq<char>,
    method2: Seq<char>,
    uri: Seq<char>,
    body: Seq<char>,
)
    requires
        lowercase(method1) == lowercase(method2),
    ensures
        canonical_payload(method1, uri, body) == canonical_payload(method2, uri, body),
        canonical_payload_bytes(method1, uri, body) == canonical_payload_bytes(method2, uri, body),
{
}

} // verus!
