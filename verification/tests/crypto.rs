use dm::cipher::{authenticated, decrypt, encrypt};
use dm::error::Error;
use dm::keys::{agree, KeyPair, PublicKey, SecretKey, SessionKey, KEY_LEN};
use dm::nonce::Nonce;
use dm::sodium::TAG_LEN;
use sodiumoxide::crypto::box_;

const ALICE_SECRET: [u8; 32] = [
    0x77, 0x07, 0x6d, 0x0a, 0x73, 0x18, 0xa5, 0x7d, 0x3c, 0x16, 0xc1, 0x72, 0x51, 0xb2, 0x66, 0x45,
    0xdf, 0x4c, 0x2f, 0x87, 0xeb, 0xc0, 0x99, 0x2a, 0xb1, 0x77, 0xfb, 0xa5, 0x1d, 0xb9, 0x2c, 0x2a,
];

const ALICE_PUBLIC: [u8; 32] = [
    0x85, 0x20, 0xf0, 0x09, 0x89, 0x30, 0xa7, 0x54, 0x74, 0x8b, 0x7d, 0xdc, 0xb4, 0x3e, 0xf7, 0x5a,
    0x0d, 0xbf, 0x3a, 0x0d, 0x26, 0x38, 0x1a, 0xf4, 0xeb, 0xa4, 0xa9, 0x8e, 0xaa, 0x9b, 0x4e, 0x6a,
];

const BOB_SECRET: [u8; 32] = [
    0x5d, 0xab, 0x08, 0x7e, 0x62, 0x4a, 0x8a, 0x4b, 0x79, 0xe1, 0x7f, 0x8b, 0x83, 0x80, 0x0e, 0xe6,
    0x6f, 0x3b, 0xb1, 0x29, 0x26, 0x18, 0xb6, 0xfd, 0x1c, 0x2f, 0x8b, 0x27, 0xff, 0x88, 0xe0, 0xeb,
];

const BOB_PUBLIC: [u8; 32] = [
    0xde, 0x9e, 0xdb, 0x7d, 0x7b, 0x7d, 0xc1, 0xb4, 0xd3, 0x5b, 0x61, 0xc2, 0xec, 0xe4, 0x35, 0x37,
    0x3f, 0x83, 0x43, 0xc8, 0x5b, 0x78, 0x67, 0x4d, 0xad, 0xfc, 0x7e, 0x14, 0x6f, 0x88, 0x2b, 0x4f,
];

const VECTOR_NONCE: [u8; 24] = [
    0x69, 0x69, 0x6e, 0xe9, 0x55, 0xb6, 0x2b, 0x73, 0xcd, 0x62, 0xbd, 0xa8, 0x75, 0xfc, 0x73, 0xd6,
    0x82, 0x19, 0xe0, 0x03, 0x6b, 0x7a, 0x0b, 0x37,
];

const VECTOR_MESSAGE: [u8; 131] = [
    0xbe, 0x07, 0x5f, 0xc5, 0x3c, 0x81, 0xf2, 0xd5, 0xcf, 0x14, 0x13, 0x16, 0xeb, 0xeb, 0x0c, 0x7b,
    0x52, 0x28, 0xc5, 0x2a, 0x4c, 0x62, 0xcb, 0xd4, 0x4b, 0x66, 0x84, 0x9b, 0x64, 0x24, 0x4f, 0xfc,
    0xe5, 0xec, 0xba, 0xaf, 0x33, 0xbd, 0x75, 0x1a, 0x1a, 0xc7, 0x28, 0xd4, 0x5e, 0x6c, 0x61, 0x29,
    0x6c, 0xdc, 0x3c, 0x01, 0x23, 0x35, 0x61, 0xf4, 0x1d, 0xb6, 0x6c, 0xce, 0x31, 0x4a, 0xdb, 0x31,
    0x0e, 0x3b, 0xe8, 0x25, 0x0c, 0x46, 0xf0, 0x6d, 0xce, 0xea, 0x3a, 0x7f, 0xa1, 0x34, 0x80, 0x57,
    0xe2, 0xf6, 0x55, 0x6a, 0xd6, 0xb1, 0x31, 0x8a, 0x02, 0x4a, 0x83, 0x8f, 0x21, 0xaf, 0x1f, 0xde,
    0x04, 0x89, 0x77, 0xeb, 0x48, 0xf5, 0x9f, 0xfd, 0x49, 0x24, 0xca, 0x1c, 0x60, 0x90, 0x2e, 0x52,
    0xf0, 0xa0, 0x89, 0xbc, 0x76, 0x89, 0x70, 0x40, 0xe0, 0x82, 0xf9, 0x37, 0x76, 0x38, 0x48, 0x64,
    0x5e, 0x07, 0x05,
];

const VECTOR_CIPHERTEXT: [u8; 147] = [
    0xf3, 0xff, 0xc7, 0x70, 0x3f, 0x94, 0x00, 0xe5, 0x2a, 0x7d, 0xfb, 0x4b, 0x3d, 0x33, 0x05, 0xd9,
    0x8e, 0x99, 0x3b, 0x9f, 0x48, 0x68, 0x12, 0x73, 0xc2, 0x96, 0x50, 0xba, 0x32, 0xfc, 0x76, 0xce,
    0x48, 0x33, 0x2e, 0xa7, 0x16, 0x4d, 0x96, 0xa4, 0x47, 0x6f, 0xb8, 0xc5, 0x31, 0xa1, 0x18, 0x6a,
    0xc0, 0xdf, 0xc1, 0x7c, 0x98, 0xdc, 0xe8, 0x7b, 0x4d, 0xa7, 0xf0, 0x11, 0xec, 0x48, 0xc9, 0x72,
    0x71, 0xd2, 0xc2, 0x0f, 0x9b, 0x92, 0x8f, 0xe2, 0x27, 0x0d, 0x6f, 0xb8, 0x63, 0xd5, 0x17, 0x38,
    0xb4, 0x8e, 0xee, 0xe3, 0x14, 0xa7, 0xcc, 0x8a, 0xb9, 0x32, 0x16, 0x45, 0x48, 0xe5, 0x26, 0xae,
    0x90, 0x22, 0x43, 0x68, 0x51, 0x7a, 0xcf, 0xea, 0xbd, 0x6b, 0xb3, 0x73, 0x2b, 0xc0, 0xe9, 0xda,
    0x99, 0x83, 0x2b, 0x61, 0xca, 0x01, 0xb6, 0xde, 0x56, 0x24, 0x4a, 0x9e, 0x88, 0xd5, 0xf9, 0xb3,
    0x79, 0x73, 0xf6, 0x22, 0xa4, 0x3d, 0x14, 0xa6, 0x59, 0x9b, 0x1f, 0x65, 0x4c, 0xb4, 0x5a, 0x74,
    0xe3, 0x55, 0xa5,
];

fn alice_key() -> SessionKey {
    agree(&SecretKey { bytes: ALICE_SECRET }, &PublicKey { bytes: BOB_PUBLIC }).unwrap()
}

fn bob_key() -> SessionKey {
    agree(&SecretKey { bytes: BOB_SECRET }, &PublicKey { bytes: ALICE_PUBLIC }).unwrap()
}

#[test]
fn sizes_are_those_of_the_primitive() {
    assert_eq!(KEY_LEN, 32);
    assert_eq!(KEY_LEN, box_::PUBLICKEYBYTES);
    assert_eq!(KEY_LEN, box_::SECRETKEYBYTES);
    assert_eq!(KEY_LEN, box_::PRECOMPUTEDKEYBYTES);
    assert_eq!(TAG_LEN, 16);
    assert_eq!(TAG_LEN, box_::MACBYTES);
}

#[test]
fn generated_public_key_belongs_to_the_secret_key() {
    let pair = KeyPair::generate();
    let expected = box_::SecretKey(pair.secret.bytes).public_key();
    assert_eq!(pair.public.bytes, expected.0);
}

#[test]
fn generated_pairs_differ() {
    let a = KeyPair::generate();
    let b = KeyPair::generate();
    assert_ne!(a.secret.bytes, b.secret.bytes);
    assert_ne!(a.public.bytes, b.public.bytes);
    assert_ne!(a.secret.bytes, [0u8; 32]);
}

#[test]
fn public_key_from_slice_takes_exactly_its_length() {
    let key = PublicKey::from_slice(&BOB_PUBLIC).unwrap();
    assert_eq!(key.bytes, BOB_PUBLIC);
    assert!(matches!(PublicKey::from_slice(&BOB_PUBLIC[..31]), Err(Error::MalformedPublicKey)));
    assert!(matches!(PublicKey::from_slice(&[0u8; 33]), Err(Error::MalformedPublicKey)));
    assert!(matches!(PublicKey::from_slice(&[]), Err(Error::MalformedPublicKey)));
}

#[test]
fn both_sides_agree_on_one_key() {
    let a = KeyPair::generate();
    let b = KeyPair::generate();
    let at_a = agree(&a.secret, &b.public).unwrap();
    let at_b = agree(&b.secret, &a.public).unwrap();
    assert_eq!(at_a.bytes, at_b.bytes);
    assert_eq!(at_a.bytes.len(), 32);
    assert_ne!(at_a.bytes, a.secret.bytes);
    assert_ne!(at_a.bytes, b.public.bytes);
}

#[test]
fn known_pairs_agree_on_one_key() {
    assert_eq!(alice_key().bytes, bob_key().bytes);
    let expected =
        box_::precompute(&box_::PublicKey(BOB_PUBLIC), &box_::SecretKey(ALICE_SECRET));
    assert_eq!(alice_key().bytes, expected.0);
}

#[test]
fn other_pairs_get_other_keys() {
    let a = KeyPair::generate();
    let b = KeyPair::generate();
    let c = KeyPair::generate();
    assert_ne!(
        agree(&a.secret, &b.public).unwrap().bytes,
        agree(&a.secret, &c.public).unwrap().bytes
    );
}

#[test]
fn degenerate_public_key_gives_no_session_key() {
    let own = KeyPair::generate();
    let mut one = [0u8; 32];
    one[0] = 1;
    let order_eight: [u8; 32] = [
        0xe0, 0xeb, 0x7a, 0x7c, 0x3b, 0x41, 0xb8, 0xae, 0x16, 0x56, 0xe3, 0xfa, 0xf1, 0x9f, 0xc4,
        0x6a, 0xda, 0x09, 0x8d, 0xeb, 0x9c, 0x32, 0xb1, 0xfd, 0x86, 0x62, 0x05, 0x16, 0x5f, 0x49,
        0xb8, 0x00,
    ];
    for bytes in [[0u8; 32], one, order_eight] {
        let result = agree(&own.secret, &PublicKey { bytes });
        assert!(matches!(result, Err(Error::MalformedPublicKey)));
        let sealed = box_::seal(
            b"hello",
            &box_::Nonce([0u8; 24]),
            &box_::PublicKey(own.public.bytes),
            &box_::SecretKey(own.secret.bytes),
        );
        let opened = box_::open(
            &sealed,
            &box_::Nonce([0u8; 24]),
            &box_::PublicKey(bytes),
            &box_::SecretKey(own.secret.bytes),
        );
        assert_eq!(opened, Err(()));
    }
}

#[test]
fn agreed_key_is_never_all_zero() {
    for _ in 0..20 {
        let a = KeyPair::generate();
        let b = KeyPair::generate();
        assert_ne!(agree(&a.secret, &b.public).unwrap().bytes, [0u8; 32]);
    }
}

#[test]
fn wiped_keys_are_all_zero() {
    let mut secret = SecretKey { bytes: ALICE_SECRET };
    secret.wipe();
    assert_eq!(secret.bytes, [0u8; 32]);
    let mut key = alice_key();
    assert_ne!(key.bytes, [0u8; 32]);
    key.wipe();
    assert_eq!(key.bytes, [0u8; 32]);
}

#[test]
fn duplicate_outlives_the_key_it_was_made_from() {
    let key = alice_key();
    let copy = key.duplicate();
    let expected = key.bytes;
    drop(key);
    assert_eq!(copy.bytes, expected);
}

#[test]
fn duplicate_is_the_same_key() {
    let key = alice_key();
    assert_eq!(key.duplicate().bytes, key.bytes);
}

#[test]
fn encrypt_gives_the_known_ciphertext() {
    let ciphertext = encrypt(&VECTOR_MESSAGE, &alice_key(), &Nonce { bytes: VECTOR_NONCE });
    assert_eq!(ciphertext, VECTOR_CIPHERTEXT.to_vec());
}

#[test]
fn decrypt_opens_the_known_ciphertext() {
    let message = decrypt(&VECTOR_CIPHERTEXT, &bob_key(), &Nonce { bytes: VECTOR_NONCE });
    assert_eq!(message, Ok(VECTOR_MESSAGE.to_vec()));
}

#[test]
fn encrypt_is_the_box_of_the_two_keys() {
    let a = KeyPair::generate();
    let b = KeyPair::generate();
    let nonce = Nonce::zero();
    let ours = encrypt(b"hello", &agree(&a.secret, &b.public).unwrap(), &nonce);
    let theirs = box_::seal(
        b"hello",
        &box_::Nonce(nonce.bytes),
        &box_::PublicKey(b.public.bytes),
        &box_::SecretKey(a.secret.bytes),
    );
    assert_eq!(ours, theirs);
    let opened = box_::open(
        &ours,
        &box_::Nonce(nonce.bytes),
        &box_::PublicKey(a.public.bytes),
        &box_::SecretKey(b.secret.bytes),
    );
    assert_eq!(opened, Ok(b"hello".to_vec()));
}

#[test]
fn ciphertext_is_a_tag_longer_than_the_message() {
    let key = alice_key();
    let nonce = Nonce::zero();
    for len in [0usize, 1, 5, 16, 1000] {
        let message = vec![0x5au8; len];
        let ciphertext = encrypt(&message, &key, &nonce);
        assert_eq!(ciphertext.len(), len + 16);
        if len > 0 {
            assert_ne!(&ciphertext[16..], message.as_slice());
        }
    }
}

#[test]
fn decrypt_inverts_encrypt() {
    let key = alice_key();
    let mut nonce = Nonce::zero();
    for len in [0usize, 1, 5, 16, 17, 255, 4096] {
        let message: Vec<u8> = (0..len).map(|i| (i * 7 % 256) as u8).collect();
        let ciphertext = encrypt(&message, &key, &nonce);
        assert_eq!(decrypt(&ciphertext, &bob_key(), &nonce), Ok(message));
        nonce.advance();
    }
}

#[test]
fn flipping_any_bit_of_the_ciphertext_fails() {
    let key = alice_key();
    let nonce = Nonce::zero();
    let ciphertext = encrypt(b"hello", &key, &nonce);
    for byte in 0..ciphertext.len() {
        for bit in 0..8 {
            let mut tampered = ciphertext.clone();
            tampered[byte] ^= 1 << bit;
            assert_eq!(decrypt(&tampered, &key, &nonce), Err(Error::AuthenticationFailed));
        }
    }
    assert_eq!(decrypt(&ciphertext, &key, &nonce), Ok(b"hello".to_vec()));
}

#[test]
fn flipping_any_bit_of_the_nonce_fails() {
    let key = alice_key();
    let nonce = Nonce::zero();
    let ciphertext = encrypt(b"hello", &key, &nonce);
    for byte in 0..24 {
        for bit in 0..8 {
            let mut other = nonce;
            other.bytes[byte] ^= 1 << bit;
            assert_eq!(decrypt(&ciphertext, &key, &other), Err(Error::AuthenticationFailed));
        }
    }
}

#[test]
fn another_key_fails() {
    let nonce = Nonce::zero();
    let ciphertext = encrypt(b"hello", &alice_key(), &nonce);
    let mut other = alice_key();
    other.bytes[0] ^= 1;
    assert_eq!(decrypt(&ciphertext, &other, &nonce), Err(Error::AuthenticationFailed));
}

#[test]
fn ciphertext_shorter_than_a_tag_fails() {
    let key = alice_key();
    let nonce = Nonce::zero();
    for len in 0..16 {
        assert_eq!(decrypt(&vec![0u8; len], &key, &nonce), Err(Error::AuthenticationFailed));
    }
    let ciphertext = encrypt(b"", &key, &nonce);
    assert_eq!(ciphertext.len(), 16);
    assert_eq!(decrypt(&ciphertext[..15], &key, &nonce), Err(Error::AuthenticationFailed));
    assert_eq!(decrypt(&ciphertext, &key, &nonce), Ok(Vec::new()));
}

#[test]
fn authenticated_maps_the_outcome_of_the_primitive() {
    assert_eq!(authenticated(Some(vec![1, 2, 3])), Ok(vec![1, 2, 3]));
    assert_eq!(authenticated(Some(Vec::new())), Ok(Vec::new()));
    assert_eq!(authenticated(None), Err(Error::AuthenticationFailed));
}
