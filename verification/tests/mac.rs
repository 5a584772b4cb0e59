use crypto_mac::dev::XorMac;
use crypto_mac::{InvalidKeyLength, Mac, MacError, MacResult};

const KEY: [u8; 16] = [9, 1, 250, 3, 77, 5, 6, 200, 8, 9, 10, 11, 12, 13, 14, 15];

fn tag_of(input: &[u8]) -> Vec<u8> {
    let mut m = XorMac::new(&KEY);
    m.input(input);
    m.result().code()
}

#[test]
fn equals_identical_buffers() {
    for len in [0usize, 16, 20, 32, 64] {
        let bytes: Vec<u8> = (0..len).map(|i| (i * 37 + 11) as u8).collect();
        let a = MacResult::new(bytes.clone());
        let b = MacResult::new(bytes);
        assert!(a.equals(&b));
        assert!(a == b);
    }
}

#[test]
fn equals_detects_difference_at_any_position() {
    for len in [16usize, 20, 32, 64] {
        let bytes: Vec<u8> = (0..len).map(|i| (i * 37 + 11) as u8).collect();
        for pos in [0, len / 2, len - 1] {
            let mut flipped = bytes.clone();
            flipped[pos] ^= 0x01;
            let a = MacResult::new(bytes.clone());
            let b = MacResult::new(flipped);
            assert!(!a.equals(&b));
            assert!(a != b);
        }
    }
}

#[test]
fn equals_rejects_different_lengths() {
    let a = MacResult::new(vec![0u8; 32]);
    let b = MacResult::new(vec![0u8; 31]);
    assert!(!a.equals(&b));
    let empty = MacResult::new(Vec::new());
    assert!(!a.equals(&empty));
    assert!(empty.equals(&empty.clone()));
}

#[test]
fn new_and_code_round_trip() {
    let bytes = vec![1u8, 2, 3, 4, 5];
    let r = MacResult::new(bytes.clone());
    assert_eq!(r.code(), bytes);
}

#[test]
fn verify_accepts_fresh_tag() {
    let tag = tag_of(b"abc");
    assert_eq!(tag.len(), XorMac::output_size());
    let mut m = XorMac::new(&KEY);
    m.input(b"abc");
    assert_eq!(m.verify(&tag), Ok(()));
}

#[test]
fn verify_rejects_flipped_bit() {
    let tag = tag_of(b"abc");
    for pos in 0..tag.len() {
        for bit in 0..8 {
            let mut bad = tag.clone();
            bad[pos] ^= 1u8 << bit;
            let mut m = XorMac::new(&KEY);
            m.input(b"abc");
            assert_eq!(m.verify(&bad), Err(MacError));
        }
    }
}

#[test]
fn verify_rejects_wrong_length_same_error() {
    let tag = tag_of(b"abc");

    let mut m = XorMac::new(&KEY);
    m.input(b"abc");
    let short = m.verify(&tag[..tag.len() - 1]);

    let mut m2 = XorMac::new(&KEY);
    m2.input(b"abc");
    let mut bad = tag.clone();
    bad[0] ^= 1;
    let mismatch = m2.verify(&bad);

    assert_eq!(short, Err(MacError));
    assert_eq!(mismatch, Err(MacError));
    assert_eq!(short, mismatch);
}

#[test]
fn verify_with_wrong_length_keeps_pending_input() {
    let tag = tag_of(b"abc");
    let mut m = XorMac::new(&KEY);
    m.input(b"abc");
    assert_eq!(m.verify(&tag[..15]), Err(MacError));
    // The candidate was rejected before finalisation, so the buffered
    // input is still pending and the true tag still verifies.
    assert_eq!(m.verify(&tag), Ok(()));
}

#[test]
fn new_varkey_checks_length() {
    assert!(matches!(XorMac::new_varkey(&[0u8; 15]), Err(InvalidKeyLength)));
    assert!(matches!(XorMac::new_varkey(&[0u8; 17]), Err(InvalidKeyLength)));
    assert!(matches!(XorMac::new_varkey(&[]), Err(InvalidKeyLength)));
    let mut from_var = XorMac::new_varkey(&KEY).unwrap();
    from_var.input(b"abc");
    // A matching-length key builds an instance that behaves exactly as one
    // from `new`.
    assert_eq!(from_var.result().code(), tag_of(b"abc"));
}

#[test]
fn finalize_resets_state() {
    let mut m = XorMac::new(&KEY);
    m.input(b"abc");
    let t1 = m.result().code();
    m.input(b"xyz");
    let t2 = m.result().code();
    let t3 = tag_of(b"xyz");
    assert_eq!(t2, t3);
    assert_ne!(t1, t2);
}

#[test]
fn verify_resets_state_on_success() {
    let tag_abc = tag_of(b"abc");
    let mut m = XorMac::new(&KEY);
    m.input(b"abc");
    assert_eq!(m.verify(&tag_abc), Ok(()));
    m.input(b"xyz");
    assert_eq!(m.result().code(), tag_of(b"xyz"));
}

#[test]
fn verify_resets_state_on_mismatch() {
    let mut bad = tag_of(b"abc");
    bad[7] ^= 0x40;
    let mut m = XorMac::new(&KEY);
    m.input(b"abc");
    assert_eq!(m.verify(&bad), Err(MacError));
    // The candidate had the right length, so finalisation ran and emptied
    // the buffer: the instance now computes over new input alone.
    m.input(b"xyz");
    assert_eq!(m.result().code(), tag_of(b"xyz"));
}

#[test]
fn input_accumulates_by_concatenation() {
    let mut m = XorMac::new(&KEY);
    m.input(b"ab");
    m.input(b"");
    m.input(b"c");
    assert_eq!(m.result().code(), tag_of(b"abc"));
}

#[test]
fn different_keys_give_different_tags() {
    let mut other = KEY;
    other[3] ^= 0xFF;
    let mut m = XorMac::new(&other);
    m.input(b"abc");
    assert_ne!(m.result().code(), tag_of(b"abc"));
}

#[test]
fn zero_length_message_has_a_tag() {
    let tag = tag_of(b"");
    assert_eq!(tag.len(), XorMac::output_size());
    let mut m = XorMac::new(&KEY);
    assert_eq!(m.verify(&tag), Ok(()));
}

#[test]
fn error_values_are_plain_and_comparable() {
    assert_eq!(MacError::default(), MacError);
    assert_eq!(InvalidKeyLength::default(), InvalidKeyLength);
    let e = MacError;
    let copy = e;
    assert_eq!(e, copy);
    assert_eq!(format!("{:?}", MacError), "MacError");
    assert_eq!(format!("{:?}", InvalidKeyLength), "InvalidKeyLength");
}
