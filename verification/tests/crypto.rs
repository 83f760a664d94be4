use keyring_core::digest::blake3_hash;
use keyring_core::errors::KeyringError;
use keyring_core::identity::ed25519_sign;
use keyring_core::identity::ed25519_verify;
use keyring_core::identity::generate_keypair;
use keyring_core::identity::signed_message_verifies;

fn hex_to_bytes(hex: &str) -> Vec<u8> {
    let digits: Vec<u8> = hex
        .bytes()
        .map(|b| match b {
            b'0'..=b'9' => b - b'0',
            b'a'..=b'f' => b - b'a' + 10,
            b'A'..=b'F' => b - b'A' + 10,
            _ => panic!("not a hex digit"),
        })
        .collect();
    digits.chunks(2).map(|pair| pair[0] * 16 + pair[1]).collect()
}

#[test]
fn round_trip_sign_verify() {
    let keypair = generate_keypair();
    let message = b"a message carried between nodes";
    let signature = ed25519_sign(message, &keypair.secret).unwrap();
    assert_eq!(signature.len(), 64);
    assert!(ed25519_verify(message, &signature, &keypair.public));
    assert!(signed_message_verifies(&keypair, message));
    assert!(signed_message_verifies(&keypair, b""));
}

#[test]
fn tampered_message_rejected() {
    let keypair = generate_keypair();
    let signed = b"pay 10 coins to alice";
    let tampered = b"pay 10 coins to mallory";
    let signature = ed25519_sign(signed, &keypair.secret).unwrap();
    assert!(!ed25519_verify(tampered, &signature, &keypair.public));
    assert!(!ed25519_verify(b"", &signature, &keypair.public));
}

#[test]
fn wrong_key_rejected() {
    let keypair_a = generate_keypair();
    let keypair_b = generate_keypair();
    let message = b"addressed to whom it may concern";
    let signature = ed25519_sign(message, &keypair_a.secret).unwrap();
    assert!(ed25519_verify(message, &signature, &keypair_a.public));
    assert!(!ed25519_verify(message, &signature, &keypair_b.public));
}

#[test]
fn signing_is_deterministic() {
    let keypair = generate_keypair();
    let message = b"same input, same signature";
    let first = ed25519_sign(message, &keypair.secret).unwrap();
    let second = ed25519_sign(message, &keypair.secret).unwrap();
    assert_eq!(first, second);
}

#[test]
fn digest_deterministic() {
    let data = b"content addressed by its digest";
    let first = blake3_hash(data);
    let second = blake3_hash(data);
    assert_eq!(first, second);
    assert_eq!(first.len(), 32);
    assert_ne!(blake3_hash(b"abc"), blake3_hash(b"abd"));
    assert_ne!(blake3_hash(b""), blake3_hash(b"\0"));
}

#[test]
fn node_id_is_digest_of_public_key() {
    let keypair = generate_keypair();
    assert_eq!(keypair.node_id, blake3_hash(&keypair.public));
    assert_eq!(keypair.node_id.len(), 32);
    assert_eq!(keypair.public.len(), 32);
    assert_eq!(keypair.secret.len(), 32);
}

#[test]
fn sign_rejects_wrong_key_length() {
    let message = b"anything";
    for len in [0usize, 1, 31, 33, 64] {
        let short_key = vec![7u8; len];
        assert_eq!(
            ed25519_sign(message, &short_key),
            Err(KeyringError::InvalidKeyLength)
        );
    }
}

#[test]
fn verify_rejects_malformed_lengths() {
    let keypair = generate_keypair();
    let message = b"measure twice";
    let signature = ed25519_sign(message, &keypair.secret).unwrap();
    for len in [0usize, 1, 63, 65, 128] {
        let bad_signature = vec![0u8; len];
        assert!(!ed25519_verify(message, &bad_signature, &keypair.public));
    }
    for len in [0usize, 1, 31, 33, 64] {
        let bad_public = vec![0u8; len];
        assert!(!ed25519_verify(message, &signature, &bad_public));
    }
}

#[test]
fn verify_rejects_undecodable_public_key() {
    let keypair = generate_keypair();
    let message = b"measure twice";
    let signature = ed25519_sign(message, &keypair.secret).unwrap();
    // 32 bytes that are not the compressed encoding of a curve point.
    let invalid_point = vec![0xffu8; 32];
    assert!(!ed25519_verify(message, &signature, &invalid_point));
    assert!(!ed25519_verify(message, &vec![0u8; 64], &keypair.public));
}

#[test]
fn generated_secrets_do_not_collide() {
    let mut seen = std::collections::HashSet::new();
    for _ in 0..10_000 {
        let keypair = generate_keypair();
        assert!(seen.insert(keypair.secret));
    }
}

#[test]
fn blake3_matches_published_empty_vector() {
    let expected =
        hex_to_bytes("af1349b9f5f9a1a6a0404dea36dcc9499bcb25c9adc112b7cc9a93cae41f3262");
    assert_eq!(blake3_hash(b""), expected);
}

#[test]
fn blake3_matches_published_two_block_vector() {
    // Expected output published in the BLAKE3 test suite for 65 bytes of 0xff.
    let input = [0xffu8; 65];
    let expected: Vec<u8> = vec![
        183, 235, 50, 217, 156, 24, 190, 219, 2, 216, 176, 255, 224, 53, 28, 95, 57, 148, 179,
        245, 162, 90, 37, 121, 0, 142, 219, 62, 234, 204, 225, 161,
    ];
    assert_eq!(blake3_hash(&input), expected);
}
