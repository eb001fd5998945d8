use archiver::segment::get_slot_from_signature;
use archiver::signing::{
    choose_segment, choose_with_signature, sign_blockhash, Choice, ChoiceError,
};
use archiver::turn::Turn;
use ed25519_dalek::Verifier;

fn keypair() -> [u8; 64] {
    let secret: [u8; 32] = [
        0x9d, 0x61, 0xb1, 0x9d, 0xef, 0xfd, 0x5a, 0x60, 0xba, 0x84, 0x4a, 0xf4, 0x92, 0xec, 0x2c,
        0xc4, 0x44, 0x49, 0xc5, 0x69, 0x7b, 0x32, 0x69, 0x19, 0x70, 0x3b, 0xac, 0x03, 0x1c, 0xae,
        0x7f, 0x60,
    ];
    let public: [u8; 32] = [
        0xd7, 0x5a, 0x98, 0x01, 0x82, 0xb1, 0x0a, 0xb7, 0xd5, 0x4b, 0xfe, 0xd3, 0xc9, 0x64, 0x07,
        0x3a, 0x0e, 0xe1, 0x72, 0xf3, 0xda, 0xa6, 0x23, 0x25, 0xaf, 0x02, 0x1a, 0x68, 0xf7, 0x07,
        0x51, 0x1a,
    ];
    let mut pair = [0u8; 64];
    pair[..32].copy_from_slice(&secret);
    pair[32..].copy_from_slice(&public);
    pair
}

#[test]
fn signature_verifies_under_the_public_key() {
    let pair = keypair();
    let blockhash = [0x42u8; 32];
    let signature = sign_blockhash(&pair, &blockhash).unwrap();
    let public = ed25519_dalek::PublicKey::from_bytes(&pair[32..]).unwrap();
    let parsed = ed25519_dalek::Signature::from_bytes(&signature).unwrap();
    assert!(public.verify(&blockhash, &parsed).is_ok());
    assert!(public.verify(&[0x43u8; 32], &parsed).is_err());
    assert_ne!(&signature[..32], &blockhash[..]);
}

#[test]
fn signing_is_repeatable() {
    let pair = keypair();
    let first = sign_blockhash(&pair, &[1u8; 32]).unwrap();
    assert_eq!(sign_blockhash(&pair, &[1u8; 32]), Some(first));
    assert_ne!(sign_blockhash(&pair, &[2u8; 32]), Some(first));
}

#[test]
fn a_keypair_that_is_no_keypair_cannot_sign() {
    let mut refused = 0;
    for b in 0..=255u8 {
        let mut pair = keypair();
        for byte in pair[32..].iter_mut() {
            *byte = b;
        }
        if sign_blockhash(&pair, &[1u8; 32]).is_none() {
            refused += 1;
            assert_eq!(
                choose_segment(&pair, &Turn { blockhash: [1u8; 32], slot: 1000 }, 100),
                Err(ChoiceError::BadKeypair)
            );
        }
    }
    assert!(refused > 0);
}

#[test]
fn same_key_and_turn_choose_the_same_segment() {
    let pair = keypair();
    let turn = Turn { blockhash: [9u8; 32], slot: 123_456 };
    let first = choose_segment(&pair, &turn, 64).unwrap();
    let second = choose_segment(&pair, &turn, 64).unwrap();
    assert_eq!(first, second);
    assert_eq!(Some(first.signature), sign_blockhash(&pair, &turn.blockhash));
    assert_eq!(first.slot, get_slot_from_signature(&first.signature, turn.slot, 64));
    assert_eq!(first.slot % 64, 0);
    assert!(first.slot < turn.slot);
}

#[test]
fn no_segment_before_an_early_turn() {
    let pair = keypair();
    assert_eq!(
        choose_segment(&pair, &Turn { blockhash: [9u8; 32], slot: 63 }, 64),
        Err(ChoiceError::NoSegment)
    );
    assert_eq!(
        choose_segment(&pair, &Turn { blockhash: [9u8; 32], slot: 63 }, 0),
        Err(ChoiceError::NoSegment)
    );
    assert_eq!(choose_with_signature(None, 1000, 100), Err(ChoiceError::BadKeypair));
    let mut signature = [0u8; 64];
    signature[..4].copy_from_slice(&[7, 3, 0, 5]);
    assert_eq!(
        choose_with_signature(Some(signature), 1000, 100),
        Ok(Choice { signature, slot: 300 })
    );
    assert_eq!(choose_with_signature(Some(signature), 99, 100), Err(ChoiceError::NoSegment));
}
