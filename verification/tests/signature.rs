use ed25519_dalek::{Keypair, SecretKey, Signer};
use hp_admin_auth::key::PublicKey;
use hp_admin_auth::signature::{verify, Signature, SIGNATURE_LENGTH};

fn keypair(seed: u8) -> Keypair {
    let secret = SecretKey::from_bytes(&[seed; 32]).unwrap();
    let public = ed25519_dalek::PublicKey::from(&secret);
    Keypair { secret, public }
}

fn key_of(pair: &Keypair) -> PublicKey {
    PublicKey::from_bytes(pair.public.as_bytes()).unwrap()
}

fn base64_of(bytes: &[u8]) -> String {
    base64::encode_config(bytes, base64::STANDARD_NO_PAD)
}

#[test]
fn signature_length_is_64() {
    assert_eq!(SIGNATURE_LENGTH, 64);
}

#[test]
fn signature_is_taken_from_its_64_bytes() {
    let mut bytes = [0u8; 64];
    for (i, b) in bytes.iter_mut().enumerate() {
        *b = i as u8;
    }
    bytes[63] = 0x1f;
    let signature = Signature::from_bytes(&bytes).unwrap();
    assert_eq!(signature.as_bytes(), &bytes[..]);
}

#[test]
fn signature_of_wrong_length_is_refused() {
    assert!(Signature::from_bytes(&[]).is_none());
    assert!(Signature::from_bytes(&[0u8; 63]).is_none());
    assert!(Signature::from_bytes(&[0u8; 65]).is_none());
    assert!(Signature::from_bytes(&[0u8; 32]).is_none());
    assert!(Signature::from_bytes(&[0u8; 64]).is_some());
}

#[test]
fn signature_with_high_bits_in_last_byte_is_refused() {
    for last in 0u8..=255 {
        let mut bytes = [0u8; 64];
        bytes[63] = last;
        assert_eq!(Signature::from_bytes(&bytes).is_some(), last & 0xE0 == 0);
        assert_eq!(Signature::from_bytes(&bytes).is_some(), last < 0x20);
    }
}

#[test]
fn signature_is_decoded_from_base64() {
    let mut bytes = [0xabu8; 64];
    bytes[63] = 0x05;
    let text = base64_of(&bytes);
    assert_eq!(text.len(), 86);
    let signature = Signature::from_base64(&text).unwrap();
    assert_eq!(signature.as_bytes(), &bytes[..]);
}

#[test]
fn text_that_is_not_base64_gives_no_signature() {
    assert!(Signature::from_base64("not base64 at all!").is_none());
    assert!(Signature::from_base64("####").is_none());
    let bytes = [0u8; 64];
    let mut text = base64_of(&bytes);
    text.replace_range(10..11, "*");
    assert!(Signature::from_base64(&text).is_none());
    let mut spaced = base64_of(&bytes);
    spaced.push(' ');
    assert!(Signature::from_base64(&spaced).is_none());
}

#[test]
fn url_safe_alphabet_gives_no_signature() {
    let bytes = [0xffu8; 64];
    let mut with_low = bytes;
    with_low[63] = 0x0f;
    let standard = base64::encode_config(&with_low[..], base64::STANDARD_NO_PAD);
    let url_safe = base64::encode_config(&with_low[..], base64::URL_SAFE_NO_PAD);
    assert!(standard.contains('/'));
    assert!(url_safe.contains('_'));
    assert!(Signature::from_base64(&standard).is_some());
    assert!(Signature::from_base64(&url_safe).is_none());
}

#[test]
fn base64_of_wrong_length_gives_no_signature() {
    assert!(Signature::from_base64("").is_none());
    assert!(Signature::from_base64(&base64_of(&[0u8; 63])).is_none());
    assert!(Signature::from_base64(&base64_of(&[0u8; 65])).is_none());
    assert!(Signature::from_base64(&base64_of(b"hello")).is_none());
}

#[test]
fn signature_made_with_the_secret_verifies() {
    let pair = keypair(1);
    let key = key_of(&pair);
    let message = b"attack at dawn";
    let made = pair.sign(message);
    let signature = Signature::from_bytes(&made.to_bytes()).unwrap();
    assert!(key.verify(message, &signature));
    assert!(verify(message, &base64_of(&made.to_bytes()), &key));
}

#[test]
fn signature_does_not_verify_for_another_message() {
    let pair = keypair(1);
    let key = key_of(&pair);
    let made = pair.sign(b"attack at dawn");
    let signature = Signature::from_bytes(&made.to_bytes()).unwrap();
    assert!(!key.verify(b"attack at dusk", &signature));
    assert!(!key.verify(b"", &signature));
    assert!(!verify(b"attack at dusk", &base64_of(&made.to_bytes()), &key));
}

#[test]
fn signature_does_not_verify_under_another_key() {
    let pair = keypair(1);
    let other = key_of(&keypair(2));
    let message = b"attack at dawn";
    let made = pair.sign(message);
    let signature = Signature::from_bytes(&made.to_bytes()).unwrap();
    assert!(!other.verify(message, &signature));
    assert!(!verify(message, &base64_of(&made.to_bytes()), &other));
}

#[test]
fn changed_signature_does_not_verify() {
    let pair = keypair(3);
    let key = key_of(&pair);
    let message = b"attack at dawn";
    let made = pair.sign(message).to_bytes();
    for i in 0..64 {
        let mut changed = made;
        changed[i] ^= 0x01;
        assert!(!verify(message, &base64_of(&changed), &key));
    }
}

#[test]
fn verify_says_no_to_text_that_is_not_a_signature() {
    let key = key_of(&keypair(1));
    assert!(!verify(b"message", "", &key));
    assert!(!verify(b"message", "%%%", &key));
    assert!(!verify(b"message", &base64_of(&[1u8; 10]), &key));
    assert!(!verify(b"message", &base64_of(&[0xffu8; 64]), &key));
}

#[test]
fn arbitrary_64_bytes_do_not_verify() {
    let key = key_of(&keypair(9));
    let mut state: u32 = 0x1234_5678;
    for _ in 0..20 {
        let mut bytes = [0u8; 64];
        for b in bytes.iter_mut() {
            state = state.wrapping_mul(1_664_525).wrapping_add(1_013_904_223);
            *b = (state >> 24) as u8;
        }
        bytes[63] &= 0x0f;
        assert!(Signature::from_bytes(&bytes).is_some());
        assert!(!verify(b"a valid payload", &base64_of(&bytes), &key));
    }
}
