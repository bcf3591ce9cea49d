use ed25519_compact::{KeyPair, Seed};
use stylus_toolkit::crypto::ed25519::{ed25519_verify, well_formed};

fn hex(text: &str) -> Vec<u8> {
    let digits: Vec<u8> = text
        .bytes()
        .map(|c| match c {
            b'0'..=b'9' => c - b'0',
            b'a'..=b'f' => c - b'a' + 10,
            _ => panic!("not a hex digit"),
        })
        .collect();
    digits.chunks(2).map(|pair| pair[0] * 16 + pair[1]).collect()
}

const KEY_1: &str = "d75a980182b10ab7d54bfed3c964073a0ee172f3daa62325af021a68f707511a";
const SIG_1: &str = "e5564300c360ac729086e2cc806e828a84877f1eb8e5d974d873e065224901555fb8821590a33bacc61e39701cf9b46bd25bf5f0595bbe24655141438e7a100b";

const KEY_2: &str = "3d4017c3e843895a92b70aa74d1b7ebc9c982ccf2ec4968cc0cd55f12af4660c";
const MSG_2: &str = "72";
const SIG_2: &str = "92a009a9f0d4cab8720e820b5f642540a2b27b5416503f8fb3762223ebdb69da085ac1e43e15996e458f3613d0f11d8c387b2eaeb4302aeeb00d291612bb0c00";

const KEY_3: &str = "fc51cd8e6218a1a38da47ed00230f0580816ed13ba3303ac5deb911548908025";
const MSG_3: &str = "af82";
const SIG_3: &str = "6291d657deec24024827e69c3abe01a30ce548a284743a445e3680d7db5ac3ac18ff9b538d16f290ae67f760984dc6594a7c15e9716ed28dc027beceea1ec40a";

#[test]
fn accepts_signature_over_empty_message() {
    assert!(ed25519_verify(hex(KEY_1), hex(SIG_1), Vec::new()));
}

#[test]
fn accepts_signature_over_one_byte() {
    assert!(ed25519_verify(hex(KEY_2), hex(SIG_2), hex(MSG_2)));
}

#[test]
fn accepts_signature_over_two_bytes() {
    assert!(ed25519_verify(hex(KEY_3), hex(SIG_3), hex(MSG_3)));
}

#[test]
fn known_signature_is_what_the_signer_produces() {
    let seed = hex("4ccd089b28ff96da9db6c346ec114e0f5b8a319f35aba624da8cf6ed4fb8a6fb");
    let pair = KeyPair::from_seed(Seed::from_slice(&seed).unwrap());
    assert_eq!(pair.pk.to_vec(), hex(KEY_2));
    let signature = pair.sk.sign(hex(MSG_2), None);
    assert_eq!(signature.to_vec(), hex(SIG_2));
}

#[test]
fn accepts_fresh_signature() {
    let pair = KeyPair::from_seed(Seed::new([7u8; 32]));
    let message = b"pay 40 to B".to_vec();
    let signature = pair.sk.sign(&message, None);
    assert!(ed25519_verify(pair.pk.to_vec(), signature.to_vec(), message));
}

#[test]
fn rejects_signature_of_another_message() {
    assert!(!ed25519_verify(hex(KEY_2), hex(SIG_2), hex(MSG_3)));
    assert!(!ed25519_verify(hex(KEY_2), hex(SIG_2), Vec::new()));
    assert!(!ed25519_verify(hex(KEY_3), hex(SIG_3), hex("af8200")));
}

#[test]
fn rejects_signature_under_another_key() {
    assert!(!ed25519_verify(hex(KEY_1), hex(SIG_2), hex(MSG_2)));
    assert!(!ed25519_verify(hex(KEY_3), hex(SIG_2), hex(MSG_2)));
}

#[test]
fn rejects_every_single_bit_flip_of_the_signature() {
    let signature = hex(SIG_2);
    for byte in 0..signature.len() {
        for bit in 0..8 {
            let mut flipped = signature.clone();
            flipped[byte] ^= 1 << bit;
            assert!(
                !ed25519_verify(hex(KEY_2), flipped, hex(MSG_2)),
                "signature byte {} bit {}",
                byte,
                bit
            );
        }
    }
}

#[test]
fn rejects_every_single_bit_flip_of_the_key() {
    let key = hex(KEY_2);
    for byte in 0..key.len() {
        for bit in 0..8 {
            let mut flipped = key.clone();
            flipped[byte] ^= 1 << bit;
            assert!(
                !ed25519_verify(flipped, hex(SIG_2), hex(MSG_2)),
                "key byte {} bit {}",
                byte,
                bit
            );
        }
    }
}

#[test]
fn rejects_every_single_bit_flip_of_the_message() {
    let message = hex(MSG_3);
    for byte in 0..message.len() {
        for bit in 0..8 {
            let mut flipped = message.clone();
            flipped[byte] ^= 1 << bit;
            assert!(
                !ed25519_verify(hex(KEY_3), hex(SIG_3), flipped),
                "message byte {} bit {}",
                byte,
                bit
            );
        }
    }
}

#[test]
fn rejects_empty_key() {
    assert!(!ed25519_verify(Vec::new(), hex(SIG_2), hex(MSG_2)));
}

#[test]
fn rejects_empty_signature() {
    assert!(!ed25519_verify(hex(KEY_2), Vec::new(), hex(MSG_2)));
}

#[test]
fn rejects_key_of_wrong_length() {
    let mut short = hex(KEY_2);
    short.pop();
    assert!(!ed25519_verify(short, hex(SIG_2), hex(MSG_2)));
    let mut long = hex(KEY_2);
    long.push(0);
    assert!(!ed25519_verify(long, hex(SIG_2), hex(MSG_2)));
    assert!(!ed25519_verify(hex(SIG_2), hex(SIG_2), hex(MSG_2)));
}

#[test]
fn rejects_signature_of_wrong_length() {
    let mut short = hex(SIG_2);
    short.pop();
    assert!(!ed25519_verify(hex(KEY_2), short, hex(MSG_2)));
    let mut long = hex(SIG_2);
    long.push(0);
    assert!(!ed25519_verify(hex(KEY_2), long, hex(MSG_2)));
    assert!(!ed25519_verify(hex(KEY_2), hex(KEY_2), hex(MSG_2)));
}

#[test]
fn rejects_when_everything_is_empty() {
    assert!(!ed25519_verify(Vec::new(), Vec::new(), Vec::new()));
}

#[test]
fn rejects_well_formed_garbage() {
    assert!(!ed25519_verify(vec![0u8; 32], vec![0u8; 64], b"anything".to_vec()));
    assert!(!ed25519_verify(vec![0xffu8; 32], vec![0xffu8; 64], b"anything".to_vec()));
    assert!(!ed25519_verify(hex(KEY_2), vec![0u8; 64], hex(MSG_2)));
}

#[test]
fn lengths_of_key_and_signature_are_fixed() {
    assert!(well_formed(&[0u8; 32], &[0u8; 64]));
    assert!(well_formed(&hex(KEY_2), &hex(SIG_2)));
    assert!(!well_formed(&[0u8; 31], &[0u8; 64]));
    assert!(!well_formed(&[0u8; 33], &[0u8; 64]));
    assert!(!well_formed(&[0u8; 32], &[0u8; 63]));
    assert!(!well_formed(&[0u8; 32], &[0u8; 65]));
    assert!(!well_formed(&[0u8; 64], &[0u8; 32]));
    assert!(!well_formed(&[], &[]));
}
