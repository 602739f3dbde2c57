//! Behaviour of the key material helpers, exercised against the real curve,
//! digest and hex implementations.

use porto::crypto::AdminKey;
use porto::hexfmt::{hex_decode, hex_encode};

#[test]
fn test_hex_encode_known_bytes() {
    assert_eq!(hex_encode(&vec![]), "");
    assert_eq!(hex_encode(&vec![0x00, 0x0f, 0xff]), "000fff");
    assert_eq!(hex_encode(&vec![0xde, 0xad, 0xbe, 0xef]), "deadbeef");
}

#[test]
fn test_hex_decode_accepts_exactly_hex_digit_pairs() {
    assert_eq!(hex_decode("deadBEEF"), Some(vec![0xde, 0xad, 0xbe, 0xef]));
    assert_eq!(hex_decode(""), Some(vec![]));
    assert_eq!(hex_decode("abc"), None, "odd length must be refused");
    assert_eq!(hex_decode("zz"), None, "non-hex characters must be refused");
}

#[test]
fn test_hex_round_trip() {
    let bytes: Vec<u8> = (0u16..=255).map(|b| b as u8).collect();
    let encoded = hex_encode(&bytes);
    assert_eq!(hex_decode(&encoded), Some(bytes));
}

#[test]
fn test_admin_key_new_is_well_formed() {
    let key = AdminKey::new().unwrap();
    assert_eq!(key.key_type, "secp256k1");
    assert!(key.private_key.starts_with("0x"));
    assert_eq!(key.private_key.len(), 2 + 64);
    assert!(key.public_key.starts_with("0x"));
    assert_eq!(key.public_key.len(), 2 + 130);
    assert!(key.public_key.starts_with("0x04"), "uncompressed SEC1 form");
    assert!(key.address.starts_with("0x"));
    assert_eq!(key.address.len(), 2 + 40);
    // The address is exactly what the public key derives to.
    let public_bytes = hex_decode(&key.public_key[2..]).unwrap();
    let derived = AdminKey::public_key_to_address(&public_bytes).unwrap();
    assert_eq!(derived, key.address);
}

#[test]
fn test_two_fresh_keys_differ() {
    let a = AdminKey::new().unwrap();
    let b = AdminKey::new().unwrap();
    assert_ne!(a.private_key, b.private_key);
    assert_ne!(a.address, b.address);
}

#[test]
fn test_public_key_to_address_known_vector() {
    // The generator point is the public key of the smallest valid secret
    // key; its address is a widely known constant.
    let public_key_hex = "0479be667ef9dcbbac55a06295ce870b07029bfcdb2dce28d959f2815b16f81798483ada7726a3c4655da4fbfc0e1108a8fd17b448a68554199c47d08ffb10d4b8";
    let public_bytes = hex_decode(public_key_hex).unwrap();
    let address = AdminKey::public_key_to_address(&public_bytes).unwrap();
    assert_eq!(address, "0x7e5f4552091a69125d5dfcb7b8c2659029395bdf");
}

#[test]
fn test_sign_is_deterministic_compact_signature() {
    let key = AdminKey::new().unwrap();
    let message: Vec<u8> = b"hello relay".to_vec();
    let sig1 = key.sign(&message).unwrap();
    let sig2 = key.sign(&message).unwrap();
    assert!(sig1.starts_with("0x"));
    assert_eq!(sig1.len(), 2 + 128, "64 compact signature bytes");
    assert_eq!(sig1, sig2, "RFC 6979 signing is deterministic");
    let other = key.sign(&b"other message".to_vec()).unwrap();
    assert_ne!(sig1, other);
}
