//! Identifier codec behaviour: round trips and decode faults.

use miden_rust_service::errors::{DecodeFault, ServiceError};
use miden_rust_service::hexid::{decode_account_id, AccountId, ACCOUNT_ID_LENGTH};

fn fresh_id_bytes() -> Vec<u8> {
    let mut v: Vec<u8> = Vec::new();
    let mut i: u8 = 0;
    while (i as usize) < ACCOUNT_ID_LENGTH {
        v.push(i);
        i += 1;
    }
    v
}

#[test]
fn decode_then_encode_reproduces_prefixed_string() {
    let s = b"0x000102030405060708090a0b0c0d0e".to_vec();
    let id = decode_account_id(&s).unwrap();
    assert_eq!(id.encode(), s);
}

#[test]
fn decode_without_prefix_then_encode_adds_prefix() {
    let s = b"000102030405060708090a0b0c0d0e".to_vec();
    let id = decode_account_id(&s).unwrap();
    let mut expected = b"0x".to_vec();
    expected.extend_from_slice(&s);
    assert_eq!(id.encode(), expected);
}

#[test]
fn decode_gives_exact_bytes() {
    let s = b"0x000102030405060708090a0b0c0d0e".to_vec();
    let id = decode_account_id(&s).unwrap();
    let expected = AccountId::from_bytes(fresh_id_bytes()).unwrap();
    assert!(id.same_id(&expected));
}

#[test]
fn decode_accepts_uppercase_and_encodes_lowercase() {
    let upper = b"0x000102030405060708090A0B0C0D0E".to_vec();
    let lower = b"0x000102030405060708090a0b0c0d0e".to_vec();
    let id = decode_account_id(&upper).unwrap();
    assert_eq!(id.encode(), lower);
}

#[test]
fn odd_number_of_digits_is_rejected() {
    let s = b"0x012".to_vec();
    assert_eq!(
        decode_account_id(&s),
        Err(ServiceError::DecodeError(DecodeFault::OddLength))
    );
}

#[test]
fn invalid_digit_is_rejected() {
    let s = b"0x0g0102030405060708090a0b0c0d0e".to_vec();
    assert_eq!(
        decode_account_id(&s),
        Err(ServiceError::DecodeError(DecodeFault::InvalidDigit))
    );
}

#[test]
fn wrong_length_is_rejected() {
    let s = b"0x0001".to_vec();
    assert_eq!(
        decode_account_id(&s),
        Err(ServiceError::DecodeError(DecodeFault::WrongLength))
    );
}

#[test]
fn from_bytes_rejects_wrong_length() {
    let r = AccountId::from_bytes(vec![1, 2, 3]);
    assert_eq!(r, Err(ServiceError::DecodeError(DecodeFault::WrongLength)));
}

#[test]
fn same_id_compares_by_contents() {
    let a = AccountId::from_bytes(fresh_id_bytes()).unwrap();
    let b = AccountId::from_bytes(fresh_id_bytes()).unwrap();
    let mut other_bytes = fresh_id_bytes();
    other_bytes[0] = 0xff;
    let c = AccountId::from_bytes(other_bytes).unwrap();
    assert!(a.same_id(&b));
    assert!(!a.same_id(&c));
}

#[test]
fn encoding_agrees_with_the_hex_crate() {
    let mut bytes: Vec<u8> = Vec::new();
    let mut b: u16 = 0;
    while b < 256 {
        bytes.push(b as u8);
        b += 1;
    }
    let expected = format!("0x{}", hex::encode(&bytes));
    let encoded = miden_rust_service::hexid::encode_with_prefix(&bytes);
    assert_eq!(encoded, expected.as_bytes().to_vec());
}

#[test]
fn decoding_agrees_with_the_hex_crate() {
    let s = b"0x000102030405060708090a0b0c0d0e".to_vec();
    let id = decode_account_id(&s).unwrap();
    let reference = hex::decode("000102030405060708090a0b0c0d0e").unwrap();
    let expected = AccountId::from_bytes(reference).unwrap();
    assert!(id.same_id(&expected));
}

#[test]
fn decode_error_messages_are_descriptive() {
    assert_eq!(
        ServiceError::DecodeError(DecodeFault::OddLength).message(),
        "failed to decode hex: odd number of digits"
    );
    assert_eq!(
        ServiceError::DecodeError(DecodeFault::InvalidDigit).message(),
        "failed to decode hex: invalid digit"
    );
    assert_eq!(
        ServiceError::DecodeError(DecodeFault::WrongLength).message(),
        "failed to deserialize account id: wrong length"
    );
}
