use hp_admin_auth::key::{KeyError, PublicKey, PUBLIC_KEY_LENGTH};

const RFC_KEY: [u8; 32] = [
    215, 90, 152, 1, 130, 177, 10, 183, 213, 75, 254, 211, 201, 100, 7, 58, 14, 225, 114, 243,
    218, 166, 35, 37, 175, 2, 26, 104, 247, 7, 81, 26,
];

#[test]
fn key_length_is_32() {
    assert_eq!(PUBLIC_KEY_LENGTH, 32);
}

#[test]
fn key_is_taken_from_its_32_bytes() {
    let key = PublicKey::from_bytes(&RFC_KEY).unwrap();
    assert_eq!(key.as_bytes(), &RFC_KEY[..]);
}

#[test]
fn key_of_wrong_length_is_refused() {
    assert_eq!(PublicKey::from_bytes(&[]).unwrap_err(), KeyError::WrongLength);
    assert_eq!(PublicKey::from_bytes(&RFC_KEY[..31]).unwrap_err(), KeyError::WrongLength);
    let mut long = RFC_KEY.to_vec();
    long.push(0);
    assert_eq!(PublicKey::from_bytes(&long).unwrap_err(), KeyError::WrongLength);
}

#[test]
fn bytes_off_the_curve_are_refused() {
    let mut refused = 0;
    let mut taken = 0;
    for first in 0u8..=255 {
        let mut bytes = [0u8; 32];
        bytes[0] = first;
        let expected = ed25519_dalek::PublicKey::from_bytes(&bytes).is_ok();
        match PublicKey::from_bytes(&bytes) {
            Ok(key) => {
                assert!(expected);
                assert_eq!(key.as_bytes(), &bytes[..]);
                taken += 1;
            }
            Err(e) => {
                assert!(!expected);
                assert_eq!(e, KeyError::NotACurvePoint);
                refused += 1;
            }
        }
    }
    assert!(refused > 0);
    assert!(taken > 0);
}

#[test]
fn key_derived_from_a_secret_is_taken() {
    let secret = ed25519_dalek::SecretKey::from_bytes(&[42u8; 32]).unwrap();
    let public = ed25519_dalek::PublicKey::from(&secret);
    let key = PublicKey::from_bytes(public.as_bytes()).unwrap();
    assert_eq!(key.as_bytes(), &public.as_bytes()[..]);
}
