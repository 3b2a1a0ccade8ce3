#![allow(clippy::unwrap_used, clippy::expect_used)]

use presidium_crypto::keys::{PublicKey as X25519PublicKey, StaticSecret as X25519StaticSecret};
use presidium_crypto::ratchet::{RatchetError, RatchetMessage, RatchetState};

/// Alice (initiator) and Bob (responder) with the given shared secret.
fn init_pair_with(shared_secret: [u8; 32]) -> (RatchetState, RatchetState) {
    let alice_sec = X25519StaticSecret::random();
    let alice_pub = X25519PublicKey::from_secret(&alice_sec);
    let bob_sec = X25519StaticSecret::random();
    let bob_pub = X25519PublicKey::from_secret(&bob_sec);

    let alice = RatchetState::new(shared_secret, true, alice_sec, bob_pub);
    let bob = RatchetState::new(shared_secret, false, bob_sec, alice_pub);
    (alice, bob)
}

fn init_pair() -> (RatchetState, RatchetState) {
    init_pair_with([1u8; 32])
}

#[test]
fn basic_encrypt_decrypt() {
    let (mut alice, mut bob) = init_pair();
    let msg = b"Hello Bob";
    let encrypted = alice.encrypt(msg).unwrap();
    let decrypted = bob.decrypt(&encrypted).unwrap();
    assert_eq!(decrypted, msg);
}

#[test]
fn multiple_sequential_messages() {
    let (mut alice, mut bob) = init_pair();
    for i in 0..10 {
        let msg = format!("Message {i}");
        let enc = alice.encrypt(msg.as_bytes()).unwrap();
        let dec = bob.decrypt(&enc).unwrap();
        assert_eq!(dec, msg.as_bytes());
    }
}

#[test]
fn interleaved_conversation() {
    let (mut alice, mut bob) = init_pair();

    let enc1 = alice.encrypt(b"Hello").unwrap();
    let dec1 = bob.decrypt(&enc1).unwrap();
    assert_eq!(dec1, b"Hello");

    let enc2 = bob.encrypt(b"Hi Alice").unwrap();
    let dec2 = alice.decrypt(&enc2).unwrap();
    assert_eq!(dec2, b"Hi Alice");

    let enc3 = alice.encrypt(b"How are you?").unwrap();
    let dec3 = bob.decrypt(&enc3).unwrap();
    assert_eq!(dec3, b"How are you?");

    let enc4 = bob.encrypt(b"Fine, thanks!").unwrap();
    let dec4 = alice.decrypt(&enc4).unwrap();
    assert_eq!(dec4, b"Fine, thanks!");
}

#[test]
fn sequential_decrypt_after_interleaved() {
    let (mut alice, mut bob) = init_pair();
    let msg1 = alice.encrypt(b"First").unwrap();
    let msg2 = alice.encrypt(b"Second").unwrap();
    let dec1 = bob.decrypt(&msg1).unwrap();
    assert_eq!(dec1, b"First");
    let dec2 = bob.decrypt(&msg2).unwrap();
    assert_eq!(dec2, b"Second");
}

#[test]
fn long_conversation() {
    let (mut alice, mut bob) = init_pair();
    for i in 0..50 {
        let msg_a = format!("Alice msg {i}");
        let enc_a = alice.encrypt(msg_a.as_bytes()).unwrap();
        let dec_a = bob.decrypt(&enc_a).unwrap();
        assert_eq!(dec_a, msg_a.as_bytes());

        let msg_b = format!("Bob msg {i}");
        let enc_b = bob.encrypt(msg_b.as_bytes()).unwrap();
        let dec_b = alice.decrypt(&enc_b).unwrap();
        assert_eq!(dec_b, msg_b.as_bytes());
    }
}

#[test]
fn ratchet_empty_plaintext() {
    let (mut alice, mut bob) = init_pair();
    let enc = alice.encrypt(b"").unwrap();
    let dec = bob.decrypt(&enc).unwrap();
    assert_eq!(dec, b"");
}

#[test]
fn ratchet_large_plaintext() {
    let (mut alice, mut bob) = init_pair();
    let large = vec![0xABu8; 4096];
    let enc = alice.encrypt(&large).unwrap();
    let dec = bob.decrypt(&enc).unwrap();
    assert_eq!(dec, large);
}

#[test]
fn different_shared_secrets_produce_different_keys() {
    let alice_sec = X25519StaticSecret::random();
    let bob_sec = X25519StaticSecret::random();
    let _alice_pub = X25519PublicKey::from_secret(&alice_sec);
    let bob_pub = X25519PublicKey::from_secret(&bob_sec);

    let mut alice1 = RatchetState::new([1u8; 32], true, alice_sec, bob_pub);
    let enc1 = alice1.encrypt(b"test").unwrap();

    let alice_sec2 = X25519StaticSecret::random();
    let bob_sec2 = X25519StaticSecret::random();
    let _alice_pub2 = X25519PublicKey::from_secret(&alice_sec2);
    let bob_pub2 = X25519PublicKey::from_secret(&bob_sec2);

    let mut alice2 = RatchetState::new([2u8; 32], true, alice_sec2, bob_pub2);
    let enc2 = alice2.encrypt(b"test").unwrap();

    assert_ne!(enc1.ciphertext, enc2.ciphertext);
}

#[test]
fn tampered_ciphertext_fails() {
    let (mut alice, mut bob) = init_pair();
    let mut enc = alice.encrypt(b"secret").unwrap();
    if let Some(byte) = enc.ciphertext.last_mut() {
        *byte ^= 0xFF;
    }
    let result = bob.decrypt(&enc);
    assert!(result.is_err());
}

#[test]
fn tampered_header_fails() {
    let (mut alice, mut bob) = init_pair();
    let mut enc = alice.encrypt(b"secret").unwrap();
    if !enc.header.is_empty() {
        enc.header[0] ^= 0xFF;
    }
    let result = bob.decrypt(&enc);
    assert!(result.is_err());
}

#[test]
fn tampered_counter_fails() {
    let (mut alice, mut bob) = init_pair();
    let mut enc = alice.encrypt(b"secret").unwrap();
    let counter_offset = 32;
    enc.header[counter_offset] ^= 0x01;
    let result = bob.decrypt(&enc);
    assert!(result.is_err());
}

#[test]
fn too_short_header_fails() {
    let (mut alice, _bob) = init_pair();
    let short_msg = RatchetMessage {
        header: vec![0u8; 10],
        ciphertext: vec![0u8; 32],
    };
    let result = alice.decrypt(&short_msg);
    assert!(result.is_err());
}

#[test]
fn failed_decrypt_does_not_advance_chain() {
    let (mut alice, mut bob) = init_pair();

    let msg1 = alice.encrypt(b"msg1").unwrap();
    let msg2 = alice.encrypt(b"msg2").unwrap();

    let tampered_msg = RatchetMessage {
        header: msg1.header.clone(),
        ciphertext: {
            let mut ct = msg1.ciphertext.clone();
            ct[0] ^= 0xFF;
            ct
        },
    };
    let result = bob.decrypt(&tampered_msg);
    assert!(result.is_err(), "tampered ciphertext must fail");

    let dec1 = bob.decrypt(&msg1).unwrap();
    assert_eq!(dec1, b"msg1");

    let dec2 = bob.decrypt(&msg2).unwrap();
    assert_eq!(dec2, b"msg2");
}

// ---------------------------------------------------------------------------
// Further cases
// ---------------------------------------------------------------------------

#[test]
fn message_format() {
    let (mut alice, _bob) = init_pair();
    assert_eq!(alice.send_message_number(), 0);
    let m0 = alice.encrypt(b"abc").unwrap();
    let m1 = alice.encrypt(b"abcd").unwrap();
    assert_eq!(alice.send_message_number(), 2);
    assert_eq!(m0.header.len(), 36);
    assert_eq!(&m0.header[32..36], &0u32.to_le_bytes());
    assert_eq!(&m1.header[32..36], &1u32.to_le_bytes());
    // Same ratchet key for both messages of one sending chain.
    assert_eq!(&m0.header[..32], &m1.header[..32]);
    // Ciphertext: plaintext plus a 16-byte tag, and not the plaintext.
    assert_eq!(m0.ciphertext.len(), 3 + 16);
    assert_eq!(m1.ciphertext.len(), 4 + 16);
    assert_ne!(&m0.ciphertext[..3], b"abc");
}

#[test]
fn short_header_is_invalid_message() {
    let (_alice, mut bob) = init_pair();
    for len in [0usize, 1, 35] {
        let msg = RatchetMessage {
            header: vec![0u8; len],
            ciphertext: vec![],
        };
        assert_eq!(bob.decrypt(&msg), Err(RatchetError::InvalidMessage));
    }
}

#[test]
fn unknown_sender_is_decryption_error() {
    let (_alice, mut bob) = init_pair();
    let msg = RatchetMessage {
        header: vec![5u8; 36],
        ciphertext: vec![0u8; 20],
    };
    assert_eq!(bob.decrypt(&msg), Err(RatchetError::DecryptionError));
}

#[test]
fn receiver_without_chain_rejects_current_key() {
    // Bob never received anything, so he holds no receiving chain; a message
    // carrying Alice's initial ratchet key triggers no DH ratchet.
    let alice_sec = X25519StaticSecret::random();
    let alice_pub = X25519PublicKey::from_secret(&alice_sec);
    let bob_sec = X25519StaticSecret::random();
    let mut bob = RatchetState::new([3u8; 32], false, bob_sec, alice_pub);
    let mut header = alice_pub.to_bytes().to_vec();
    header.extend_from_slice(&0u32.to_le_bytes());
    let msg = RatchetMessage {
        header,
        ciphertext: vec![0u8; 16],
    };
    assert_eq!(bob.decrypt(&msg), Err(RatchetError::DecryptionError));
}

#[test]
fn longer_header_is_authenticated() {
    let (mut alice, mut bob) = init_pair();
    let mut enc = alice.encrypt(b"payload").unwrap();
    enc.header.push(0);
    assert_eq!(bob.decrypt(&enc), Err(RatchetError::DecryptionError));
}

#[test]
fn bob_may_speak_first() {
    let (mut alice, mut bob) = init_pair_with([7u8; 32]);
    let enc = bob.encrypt(b"Bob first").unwrap();
    assert_eq!(alice.decrypt(&enc).unwrap(), b"Bob first");
    let enc = alice.encrypt(b"Alice answers").unwrap();
    assert_eq!(bob.decrypt(&enc).unwrap(), b"Alice answers");
}

#[test]
fn wrong_shared_secret_cannot_decrypt() {
    let alice_sec = X25519StaticSecret::random();
    let alice_pub = X25519PublicKey::from_secret(&alice_sec);
    let bob_sec = X25519StaticSecret::random();
    let bob_pub = X25519PublicKey::from_secret(&bob_sec);
    let mut alice = RatchetState::new([1u8; 32], true, alice_sec, bob_pub);
    let mut bob = RatchetState::new([2u8; 32], false, bob_sec, alice_pub);
    let enc = alice.encrypt(b"hi").unwrap();
    assert_eq!(bob.decrypt(&enc), Err(RatchetError::DecryptionError));
}

#[test]
fn replayed_message_fails() {
    let (mut alice, mut bob) = init_pair();
    let enc = alice.encrypt(b"once").unwrap();
    assert_eq!(bob.decrypt(&enc).unwrap(), b"once");
    assert!(bob.decrypt(&enc).is_err());
}

#[test]
fn many_tampered_copies_then_genuine() {
    let (mut alice, mut bob) = init_pair();
    let enc1 = alice.encrypt(b"first").unwrap();
    assert_eq!(bob.decrypt(&enc1).unwrap(), b"first");
    let enc2 = alice.encrypt(b"second").unwrap();
    for i in 0..enc2.ciphertext.len() {
        let mut bad = enc2.ciphertext.clone();
        bad[i] ^= 0x80;
        let msg = RatchetMessage {
            header: enc2.header.clone(),
            ciphertext: bad,
        };
        assert_eq!(bob.decrypt(&msg), Err(RatchetError::DecryptionError));
    }
    assert_eq!(bob.decrypt(&enc2).unwrap(), b"second");
}

#[test]
fn forged_ratchet_key_does_not_desynchronize() {
    let sa = X25519StaticSecret::from_bytes([3u8; 32]);
    let sb = X25519StaticSecret::from_bytes([5u8; 32]);
    let pa = X25519PublicKey::from_secret(&sa);
    let pb = X25519PublicKey::from_secret(&sb);
    let mut alice = RatchetState::new([1u8; 32], true, sa, pb);
    let mut bob = RatchetState::new([1u8; 32], false, sb, pa);
    let m1 = alice.encrypt(b"msg1").unwrap();
    let mut forged_header = m1.header.clone();
    forged_header[0] ^= 0xff;
    let forged = RatchetMessage {
        header: forged_header,
        ciphertext: m1.ciphertext.clone(),
    };
    assert_eq!(bob.decrypt(&forged), Err(RatchetError::DecryptionError));
    assert_eq!(bob.decrypt(&m1).unwrap(), b"msg1");
    // The session goes on in both directions.
    let reply = bob.encrypt(b"reply").unwrap();
    assert_eq!(alice.decrypt(&reply).unwrap(), b"reply");
}

#[test]
fn forged_key_mid_conversation_then_genuine() {
    let (mut alice, mut bob) = init_pair();
    let m1 = alice.encrypt(b"one").unwrap();
    assert_eq!(bob.decrypt(&m1).unwrap(), b"one");
    let r1 = bob.encrypt(b"two").unwrap();
    assert_eq!(alice.decrypt(&r1).unwrap(), b"two");
    let m2 = alice.encrypt(b"three").unwrap();
    for i in 0..32 {
        let mut h = m2.header.clone();
        h[i] ^= 0x01;
        let forged = RatchetMessage {
            header: h,
            ciphertext: m2.ciphertext.clone(),
        };
        assert_eq!(bob.decrypt(&forged), Err(RatchetError::DecryptionError));
    }
    assert_eq!(bob.decrypt(&m2).unwrap(), b"three");
}
