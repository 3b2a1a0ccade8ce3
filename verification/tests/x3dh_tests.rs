#![allow(clippy::unwrap_used, clippy::expect_used, clippy::similar_names)]

use presidium_crypto::keys::{
    PublicKey as X25519PublicKey, SigningKey, StaticSecret as X25519StaticSecret, VerifyingKey,
};
use presidium_crypto::x3dh::{
    ed25519_public_to_x25519, ed25519_to_x25519_static, initiate, respond, OneTimePreKey,
    PreKeyBundle, SignedPreKey, X3DHError,
};

fn gen_x25519() -> (X25519StaticSecret, X25519PublicKey) {
    let secret = X25519StaticSecret::random();
    let public = X25519PublicKey::from_secret(&secret);
    (secret, public)
}

fn gen_ed25519() -> SigningKey {
    SigningKey::generate()
}

fn make_bundle(
    bob_signing: &SigningKey,
    spk_public: X25519PublicKey,
    opk_public: Option<X25519PublicKey>,
) -> PreKeyBundle {
    PreKeyBundle {
        identity_key: ed25519_public_to_x25519(bob_signing.verifying_key()).unwrap(),
        signed_pre_key: SignedPreKey { key: spk_public },
        one_time_pre_keys: opk_public
            .map(|k| vec![OneTimePreKey { key: k }])
            .unwrap_or_default(),
    }
}

#[test]
fn basic_handshake_with_one_time_prekey() {
    let alice_sk = gen_ed25519();
    let bob_sk = gen_ed25519();
    let (bob_spk, bob_spk_pub) = gen_x25519();
    let (bob_opk, bob_opk_pub) = gen_x25519();
    let bundle = make_bundle(&bob_sk, bob_spk_pub, Some(bob_opk_pub));
    let alice_eph = X25519StaticSecret::random();

    let (alice_shared, alice_eph_pub) = initiate(&alice_sk, &alice_eph, &bundle).unwrap();
    let bob_shared = respond(
        &bob_sk,
        &bob_spk,
        Some(&bob_opk),
        alice_sk.verifying_key(),
        &alice_eph_pub,
    )
    .unwrap();
    assert_eq!(alice_shared, bob_shared, "shared secrets must match");
}

#[test]
fn handshake_no_one_time_prekey() {
    let alice_sk = gen_ed25519();
    let bob_sk = gen_ed25519();
    let (bob_spk, bob_spk_pub) = gen_x25519();
    let bundle = make_bundle(&bob_sk, bob_spk_pub, None);
    let alice_eph = X25519StaticSecret::random();

    let (alice_shared, alice_eph_pub) = initiate(&alice_sk, &alice_eph, &bundle).unwrap();
    let bob_shared = respond(&bob_sk, &bob_spk, None, alice_sk.verifying_key(), &alice_eph_pub)
        .unwrap();
    assert_eq!(
        alice_shared, bob_shared,
        "shared secrets must match without OPK"
    );
}

#[test]
fn different_alices_produce_different_secrets() {
    let alice_sk = gen_ed25519();
    let carol_sk = gen_ed25519();
    let bob_sk = gen_ed25519();
    let (_bob_spk, bob_spk_pub) = gen_x25519();
    let (_bob_opk, bob_opk_pub) = gen_x25519();
    let bundle = make_bundle(&bob_sk, bob_spk_pub, Some(bob_opk_pub));

    let alice_eph = X25519StaticSecret::random();
    let (alice_shared, _) = initiate(&alice_sk, &alice_eph, &bundle).unwrap();
    let carol_eph = X25519StaticSecret::random();
    let (carol_shared, _) = initiate(&carol_sk, &carol_eph, &bundle).unwrap();
    assert_ne!(
        alice_shared, carol_shared,
        "different initiators must produce different shared secrets"
    );
}

#[test]
fn different_bobs_produce_different_secrets() {
    let alice_sk = gen_ed25519();
    let bob_sk = gen_ed25519();
    let dave_sk = gen_ed25519();
    let (_bob_spk, bob_spk_pub) = gen_x25519();
    let (_bob_opk, bob_opk_pub) = gen_x25519();
    let bundle_bob = make_bundle(&bob_sk, bob_spk_pub, Some(bob_opk_pub));
    let (_dave_spk, dave_spk_pub) = gen_x25519();
    let (_dave_opk, dave_opk_pub) = gen_x25519();
    let bundle_dave = make_bundle(&dave_sk, dave_spk_pub, Some(dave_opk_pub));

    let alice_eph = X25519StaticSecret::random();
    let (secret_bob, _) = initiate(&alice_sk, &alice_eph, &bundle_bob).unwrap();
    let alice_eph2 = X25519StaticSecret::random();
    let (secret_dave, _) = initiate(&alice_sk, &alice_eph2, &bundle_dave).unwrap();
    assert_ne!(secret_bob, secret_dave);
}

#[test]
fn shared_secret_is_32_bytes() {
    let alice_sk = gen_ed25519();
    let bob_sk = gen_ed25519();
    let (_bob_spk, bob_spk_pub) = gen_x25519();
    let bundle = make_bundle(&bob_sk, bob_spk_pub, None);
    let alice_eph = X25519StaticSecret::random();
    let (shared, _) = initiate(&alice_sk, &alice_eph, &bundle).unwrap();
    assert_eq!(shared.len(), 32);
}

#[test]
fn ed25519_public_to_x25519_roundtrip_consistency() {
    let sk = gen_ed25519();
    let vk = sk.verifying_key();
    let x1 = ed25519_public_to_x25519(vk).unwrap();
    let x2 = ed25519_public_to_x25519(vk).unwrap();
    assert_eq!(x1.as_bytes(), x2.as_bytes());
}

#[test]
fn ed25519_to_x25519_static_dh_consistency() {
    let sk = gen_ed25519();
    let secret1 = ed25519_to_x25519_static(&sk);
    let secret2 = ed25519_to_x25519_static(&sk);
    let public = ed25519_public_to_x25519(sk.verifying_key()).unwrap();
    let dh1 = secret1.diffie_hellman(&public);
    let dh2 = secret2.diffie_hellman(&public);
    assert_eq!(dh1.as_bytes(), dh2.as_bytes());
}

#[test]
fn multiple_sessions_same_bundle() {
    let alice_sk = gen_ed25519();
    let bob_sk = gen_ed25519();
    let (bob_spk, bob_spk_pub) = gen_x25519();
    let (bob_opk, bob_opk_pub) = gen_x25519();
    let bundle = make_bundle(&bob_sk, bob_spk_pub, Some(bob_opk_pub));

    let alice_eph1 = X25519StaticSecret::random();
    let (secret1, ek1) = initiate(&alice_sk, &alice_eph1, &bundle).unwrap();
    let bob_secret1 =
        respond(&bob_sk, &bob_spk, Some(&bob_opk), alice_sk.verifying_key(), &ek1).unwrap();
    assert_eq!(secret1, bob_secret1);

    let alice_eph2 = X25519StaticSecret::random();
    let (secret2, ek2) = initiate(&alice_sk, &alice_eph2, &bundle).unwrap();
    let bob_secret2 =
        respond(&bob_sk, &bob_spk, Some(&bob_opk), alice_sk.verifying_key(), &ek2).unwrap();
    assert_eq!(secret2, bob_secret2);

    assert_ne!(secret1, secret2);
}

#[test]
fn opk_mismatch_produces_different_secret() {
    let alice_sk = SigningKey::generate();
    let bob_sk = SigningKey::generate();
    let bob_spk = X25519StaticSecret::random();
    let bob_spk_pub = X25519PublicKey::from_secret(&bob_spk);
    let bob_opk_used = X25519StaticSecret::random();
    let bob_opk_used_pub = X25519PublicKey::from_secret(&bob_opk_used);
    let bob_opk_other = X25519StaticSecret::random();

    let bundle = PreKeyBundle {
        identity_key: ed25519_public_to_x25519(bob_sk.verifying_key()).unwrap(),
        signed_pre_key: SignedPreKey { key: bob_spk_pub },
        one_time_pre_keys: vec![OneTimePreKey {
            key: bob_opk_used_pub,
        }],
    };

    let alice_eph = X25519StaticSecret::random();
    let (alice_shared, ek_a) = initiate(&alice_sk, &alice_eph, &bundle).unwrap();

    let bob_shared_correct = respond(
        &bob_sk,
        &bob_spk,
        Some(&bob_opk_used),
        alice_sk.verifying_key(),
        &ek_a,
    )
    .unwrap();
    assert_eq!(alice_shared, bob_shared_correct);

    let bob_shared_wrong = respond(
        &bob_sk,
        &bob_spk,
        Some(&bob_opk_other),
        alice_sk.verifying_key(),
        &ek_a,
    )
    .unwrap();
    assert_ne!(alice_shared, bob_shared_wrong);
}

#[test]
fn opk_vs_no_opk_produces_different_secret() {
    let alice_sk = SigningKey::generate();
    let bob_sk = SigningKey::generate();
    let bob_spk = X25519StaticSecret::random();
    let bob_spk_pub = X25519PublicKey::from_secret(&bob_spk);
    let bob_opk = X25519StaticSecret::random();
    let bob_opk_pub = X25519PublicKey::from_secret(&bob_opk);
    let _ = bob_spk;
    let _ = bob_opk;

    let bundle_with_opk = PreKeyBundle {
        identity_key: ed25519_public_to_x25519(bob_sk.verifying_key()).unwrap(),
        signed_pre_key: SignedPreKey { key: bob_spk_pub },
        one_time_pre_keys: vec![OneTimePreKey { key: bob_opk_pub }],
    };
    let bundle_no_opk = PreKeyBundle {
        identity_key: ed25519_public_to_x25519(bob_sk.verifying_key()).unwrap(),
        signed_pre_key: SignedPreKey { key: bob_spk_pub },
        one_time_pre_keys: vec![],
    };

    let eph_seed = [42u8; 32];
    let alice_eph = X25519StaticSecret::from_bytes(eph_seed);
    let (secret_with_opk, _) = initiate(&alice_sk, &alice_eph, &bundle_with_opk).unwrap();
    let alice_eph2 = X25519StaticSecret::from_bytes(eph_seed);
    let (secret_no_opk, _) = initiate(&alice_sk, &alice_eph2, &bundle_no_opk).unwrap();

    assert_ne!(
        secret_with_opk, secret_no_opk,
        "OPK must change the shared secret even with the same ephemeral key"
    );
}

// ---------------------------------------------------------------------------
// Further cases
// ---------------------------------------------------------------------------

#[test]
fn handshake_from_fixed_seeds() {
    let alice_sk = SigningKey::from_bytes(&[1u8; 32]);
    let bob_sk = SigningKey::from_bytes(&[2u8; 32]);
    let bob_spk = X25519StaticSecret::from_bytes([3u8; 32]);
    let bob_opk = X25519StaticSecret::from_bytes([4u8; 32]);
    let alice_eph = X25519StaticSecret::from_bytes([5u8; 32]);
    let bundle = PreKeyBundle {
        identity_key: ed25519_public_to_x25519(bob_sk.verifying_key()).unwrap(),
        signed_pre_key: SignedPreKey {
            key: X25519PublicKey::from_secret(&bob_spk),
        },
        one_time_pre_keys: vec![
            OneTimePreKey {
                key: X25519PublicKey::from_secret(&bob_opk),
            },
            OneTimePreKey {
                key: X25519PublicKey::from_bytes([9u8; 32]),
            },
        ],
    };
    let (a, ek) = initiate(&alice_sk, &alice_eph, &bundle).unwrap();
    assert_eq!(ek.to_bytes(), X25519PublicKey::from_secret(&alice_eph).to_bytes());
    // Only the first one-time prekey is used.
    let b = respond(&bob_sk, &bob_spk, Some(&bob_opk), alice_sk.verifying_key(), &ek).unwrap();
    assert_eq!(a, b);
    // Deterministic for fixed inputs.
    let (a2, _) = initiate(&alice_sk, &alice_eph, &bundle).unwrap();
    assert_eq!(a, a2);
}

#[test]
fn converted_public_key_matches_converted_secret() {
    for seed in [[0u8; 32], [7u8; 32], [0xffu8; 32]] {
        let sk = SigningKey::from_bytes(&seed);
        let x_pub = ed25519_public_to_x25519(sk.verifying_key()).unwrap();
        let x_secret = ed25519_to_x25519_static(&sk);
        let x_pub_from_secret = X25519PublicKey::from_secret(&x_secret);
        assert_eq!(x_pub.to_bytes(), x_pub_from_secret.to_bytes());
        // The X25519 secret is a hash of the seed, not the seed.
        assert_ne!(x_secret.to_bytes(), seed);
        // The Montgomery form differs from the Edwards encoding.
        assert_ne!(x_pub.to_bytes(), sk.verifying_key().to_bytes());
    }
}

#[test]
fn ed25519_rfc8032_public_key() {
    // RFC 8032, section 7.1, test 1.
    let seed = hex32("9d61b19deffd5a60ba844af492ec2cc44449c5697b326919703bac031cae7f60");
    let sk = SigningKey::from_bytes(&seed);
    assert_eq!(
        sk.verifying_key().to_bytes(),
        hex32("d75a980182b10ab7d54bfed3c964073a0ee172f3daa62325af021a68f707511a")
    );
    assert_eq!(sk.to_bytes(), seed);
}

#[test]
fn x25519_rfc7748_vectors() {
    // RFC 7748, section 6.1.
    let alice = X25519StaticSecret::from_bytes(hex32(
        "77076d0a7318a57d3c16c17251b26645df4c2f87ebc0992ab177fba51db92c2a",
    ));
    let bob = X25519StaticSecret::from_bytes(hex32(
        "5dab087e624a8a4b79e17f8b83800ee66f3bb1292618b6fd1c2f8b27ff88e0eb",
    ));
    let alice_pub = X25519PublicKey::from_secret(&alice);
    let bob_pub = X25519PublicKey::from_secret(&bob);
    assert_eq!(
        alice_pub.to_bytes(),
        hex32("8520f0098930a754748b7ddcb43ef75a0dbf3a0d26381af4eba4a98eaa9b4e6a")
    );
    assert_eq!(
        bob_pub.to_bytes(),
        hex32("de9edb7d7b7dc1b4d35b61c2ece435373f8343c85b78674dadfc7e146f882b4f")
    );
    let shared = hex32("4a5d9d5ba4ce2de1728e3bf480350f25e07e21c947d19e3376f09b3c1e161742");
    assert_eq!(alice.diffie_hellman(&bob_pub).to_bytes(), shared);
    assert_eq!(bob.diffie_hellman(&alice_pub).to_bytes(), shared);
}

#[test]
fn verifying_keys_of_signing_keys_convert() {
    // The verifying key of a signing key has large order, so its conversion
    // succeeds; every signing key below is accepted.
    for seed in [[0u8; 32], [1u8; 32], [0x80u8; 32]] {
        let sk = SigningKey::from_bytes(&seed);
        assert!(ed25519_public_to_x25519(sk.verifying_key()).is_ok());
    }
}

/// The compressed Edwards identity point (y = 1).
fn edwards_identity() -> [u8; 32] {
    let mut b = [0u8; 32];
    b[0] = 1;
    b
}

#[test]
fn identity_point_has_no_x25519_form() {
    let vk = VerifyingKey::from_bytes(&edwards_identity()).unwrap();
    assert_eq!(ed25519_public_to_x25519(vk).unwrap_err(), X3DHError::InvalidPublicKey);
}

#[test]
fn low_order_edwards_point_has_no_x25519_form() {
    // The point of order 2, (0, -1): y = p - 1 = 2^255 - 20.
    let mut b = [0xffu8; 32];
    b[0] = 0xec;
    b[31] = 0x7f;
    let vk = VerifyingKey::from_bytes(&b).unwrap();
    assert_eq!(ed25519_public_to_x25519(vk).unwrap_err(), X3DHError::InvalidPublicKey);
}

#[test]
fn verifying_key_from_bytes_roundtrip_and_rejection() {
    let sk = SigningKey::from_bytes(&[3u8; 32]);
    let bytes = sk.verifying_key().to_bytes();
    let vk = VerifyingKey::from_bytes(&bytes).unwrap();
    assert_eq!(vk.to_bytes(), bytes);
    assert_eq!(
        ed25519_public_to_x25519(vk).unwrap().to_bytes(),
        ed25519_public_to_x25519(sk.verifying_key()).unwrap().to_bytes()
    );
    // About half of all y-coordinates are not on the curve.
    let rejected = (2u8..64)
        .filter(|&y| {
            let mut b = [0u8; 32];
            b[0] = y;
            VerifyingKey::from_bytes(&b).is_none()
        })
        .count();
    assert!(rejected > 0);
}

#[test]
fn initiate_rejects_low_order_identity_key() {
    let alice_sk = SigningKey::from_bytes(&[1u8; 32]);
    let alice_eph = X25519StaticSecret::from_bytes([5u8; 32]);
    let spk = X25519StaticSecret::from_bytes([3u8; 32]);
    // u = 0 (the image of the Edwards identity) and u = 1 (order 4).
    let mut one = [0u8; 32];
    one[0] = 1;
    for low in [[0u8; 32], one] {
        let bundle = PreKeyBundle {
            identity_key: X25519PublicKey::from_bytes(low),
            signed_pre_key: SignedPreKey {
                key: X25519PublicKey::from_secret(&spk),
            },
            one_time_pre_keys: vec![],
        };
        assert_eq!(
            initiate(&alice_sk, &alice_eph, &bundle).unwrap_err(),
            X3DHError::InvalidPublicKey
        );
    }
}

#[test]
fn respond_rejects_identity_point() {
    let bob_sk = SigningKey::from_bytes(&[2u8; 32]);
    let bob_spk = X25519StaticSecret::from_bytes([3u8; 32]);
    let ek = X25519PublicKey::from_secret(&X25519StaticSecret::from_bytes([5u8; 32]));
    let vk = VerifyingKey::from_bytes(&edwards_identity()).unwrap();
    assert_eq!(
        respond(&bob_sk, &bob_spk, None, vk, &ek).unwrap_err(),
        X3DHError::InvalidPublicKey
    );
}

#[test]
fn diffie_hellman_with_low_order_point_is_not_contributory() {
    let secret = X25519StaticSecret::from_bytes([5u8; 32]);
    let zero = secret.diffie_hellman(&X25519PublicKey::from_bytes([0u8; 32]));
    assert_eq!(zero.to_bytes(), [0u8; 32]);
    assert!(!zero.was_contributory());
    let other = X25519PublicKey::from_secret(&X25519StaticSecret::from_bytes([6u8; 32]));
    assert!(secret.diffie_hellman(&other).was_contributory());
}

fn hex32(s: &str) -> [u8; 32] {
    let mut out = [0u8; 32];
    for i in 0..32 {
        out[i] = u8::from_str_radix(&s[2 * i..2 * i + 2], 16).unwrap();
    }
    out
}
