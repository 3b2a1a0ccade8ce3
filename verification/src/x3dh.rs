//! Extended Triple Diffie-Hellman (X3DH) key agreement.
//!
//! Alice uses Bob's published prekey bundle to derive a shared secret without
//! online interaction.  Up to four Diffie-Hellman exchanges are made:
//!
//! 1. DH1: Alice's identity key with Bob's signed prekey.
//! 2. DH2: Alice's ephemeral key with Bob's identity key.
//! 3. DH3: Alice's ephemeral key with Bob's signed prekey.
//! 4. DH4 (optional): Alice's ephemeral key with a one-time prekey.
//!
//! Their concatenation goes through HKDF-SHA256 with the info string
//! `"Presidium-X3DH-v1"`.  Ed25519 identity keys are converted to X25519:
//! the secret is the first 32 bytes of `SHA-512(seed)`, the public key the
//! Montgomery form of the Edwards point.
//!
//! [`lemma_x3dh_agreement`] proves that Alice ([`initiate`]) and Bob
//! ([`respond`]) derive the same secret.
use vstd::prelude::*;

use crate::byteutil::{append_bytes, array32_at};
use crate::keys::{x25519_secret_of_seed, PublicKey, SharedSecret, SigningKey, StaticSecret, VerifyingKey};
use crate::primitives::{
    edwards_bytes_to_montgomery, edwards_is_small_order, edwards_to_montgomery, hkdf_sha256,
    hkdf_sha256_expand, montgomery_is_identity, sha512, sha512_digest, x25519_public_key,
    x25519_shared_secret,
    zeroize_bytes, zeroize_vec,
};

verus! {

/// HKDF info string of the X3DH shared secret.
pub const X3DH_INFO: [u8; 17] = [
    0x50u8, 0x72, 0x65, 0x73, 0x69, 0x64, 0x69, 0x75, 0x6d, 0x2d, 0x58, 0x33, 0x44, 0x48, 0x2d,
    0x76, 0x31,
];

/// Errors that can occur during X3DH operations.
#[derive(Debug, PartialEq, Eq, Structural)]
pub enum X3DHError {
    /// A public key cannot serve for X25519: an Ed25519 key that does not
    /// decompress or is a point of low order (e.g., the identity element), or
    /// an X25519 identity key of low order, with which Diffie-Hellman is not
    /// contributory.  Properly generated keys never give it.
    InvalidPublicKey,
    /// HKDF expansion failed.
    HkdfError,
}

/// A signed prekey of a prekey bundle.  (Its signature is checked by the
/// protocol layer, not here.)
#[derive(Clone, Copy, Debug)]
pub struct SignedPreKey {
    /// The X25519 public key of the signed prekey.
    pub key: PublicKey,
}

/// A one-time prekey of a prekey bundle, used for at most one session.
#[derive(Clone, Copy, Debug)]
pub struct OneTimePreKey {
    /// The X25519 public key of the one-time prekey.
    pub key: PublicKey,
}

/// A prekey bundle published by a user (Bob).
#[derive(Clone, Debug)]
pub struct PreKeyBundle {
    /// The X25519 form of the user's long-term Ed25519 identity key.
    pub identity_key: PublicKey,
    /// The signed prekey, rotated periodically.
    pub signed_pre_key: SignedPreKey,
    /// One-time prekeys; the first one, if any, is used by [`initiate`].
    pub one_time_pre_keys: Vec<OneTimePreKey>,
}

/// The public one-time prekey [`initiate`] uses: the bundle's first, if any.
pub open spec fn first_one_time_key(bundle: PreKeyBundle) -> Option<Seq<u8>> {
    if bundle.one_time_pre_keys@.len() > 0 {
        Some(bundle.one_time_pre_keys@[0].key@)
    } else {
        None
    }
}

/// The X3DH shared secret of the DH outputs `DH1 || DH2 || DH3 [|| DH4]`.
pub open spec fn x3dh_secret(dh1: Seq<u8>, dh2: Seq<u8>, dh3: Seq<u8>, dh4: Option<Seq<u8>>) -> Seq<
    u8,
> {
    let tail = match dh4 {
        Some(d) => d,
        None => Seq::empty(),
    };
    hkdf_sha256(None, dh1 + dh2 + dh3 + tail, X3DH_INFO@)
}

/// The secret Alice derives from her identity seed, her ephemeral secret and
/// Bob's identity key, signed prekey and optional one-time prekey.
pub open spec fn initiator_secret(
    identity_seed: Seq<u8>,
    ephemeral: Seq<u8>,
    their_identity: Seq<u8>,
    their_signed_pre_key: Seq<u8>,
    their_one_time_key: Option<Seq<u8>>,
) -> Seq<u8> {
    let ik = x25519_secret_of_seed(identity_seed);
    let dh4 = match their_one_time_key {
        Some(o) => Some(x25519_shared_secret(ephemeral, o)),
        None => None,
    };
    x3dh_secret(
        x25519_shared_secret(ik, their_signed_pre_key),
        x25519_shared_secret(ephemeral, their_identity),
        x25519_shared_secret(ephemeral, their_signed_pre_key),
        dh4,
    )
}

/// The secret Bob derives from his identity seed, signed prekey secret and
/// optional one-time prekey secret, Alice's X25519 identity key and her
/// ephemeral public key.
pub open spec fn responder_secret(
    identity_seed: Seq<u8>,
    signed_pre_secret: Seq<u8>,
    one_time_secret: Option<Seq<u8>>,
    their_identity: Seq<u8>,
    their_ephemeral: Seq<u8>,
) -> Seq<u8> {
    let ik = x25519_secret_of_seed(identity_seed);
    let dh4 = match one_time_secret {
        Some(o) => Some(x25519_shared_secret(o, their_ephemeral)),
        None => None,
    };
    x3dh_secret(
        x25519_shared_secret(signed_pre_secret, their_identity),
        x25519_shared_secret(ik, their_ephemeral),
        x25519_shared_secret(signed_pre_secret, their_ephemeral),
        dh4,
    )
}

/// The X25519 form of the Ed25519 public key `point`: its Montgomery form,
/// when it decompresses to a point that is not of small order.
pub open spec fn x25519_form_of(point: Seq<u8>) -> Option<Seq<u8>> {
    match edwards_to_montgomery(point) {
        Some(m) => if edwards_is_small_order(point) {
            None
        } else {
            Some(m)
        },
        None => None,
    }
}

/// Whether Diffie-Hellman between `secret` and `public` is contributory: its
/// output is not the identity, as it is exactly when `public` has low order.
pub open spec fn contributory(secret: Seq<u8>, public: Seq<u8>) -> bool {
    !montgomery_is_identity(x25519_shared_secret(secret, public))
}

/// Alice's secret in terms of the primitives: HKDF-SHA256 (no salt, info
/// `"Presidium-X3DH-v1"`) of `DH1 || DH2 || DH3 [|| DH4]` with
/// DH1 = IK_A . SPK_B (IK_A the first 32 bytes of `SHA-512(seed)`),
/// DH2 = EK_A . IK_B, DH3 = EK_A . SPK_B and DH4 = EK_A . OPK_B, so Alice's
/// identity key, her ephemeral key and each of Bob's keys enter it.
pub proof fn lemma_initiator_secret_formula(
    identity_seed: Seq<u8>,
    ephemeral: Seq<u8>,
    their_identity: Seq<u8>,
    their_signed_pre_key: Seq<u8>,
    their_one_time_key: Option<Seq<u8>>,
)
    ensures
        initiator_secret(
            identity_seed,
            ephemeral,
            their_identity,
            their_signed_pre_key,
            their_one_time_key,
        ) == hkdf_sha256(
            None,
            x25519_shared_secret(sha512_digest(identity_seed).subrange(0, 32), their_signed_pre_key)
                + x25519_shared_secret(ephemeral, their_identity) + x25519_shared_secret(
                ephemeral,
                their_signed_pre_key,
            ) + match their_one_time_key {
                Some(o) => x25519_shared_secret(ephemeral, o),
                None => Seq::<u8>::empty(),
            },
            X3DH_INFO@,
        ),
{
}

/// Bob's secret in terms of the primitives: HKDF-SHA256 (no salt, info
/// `"Presidium-X3DH-v1"`) of `DH1 || DH2 || DH3 [|| DH4]` with
/// DH1 = SPK_B . IK_A, DH2 = IK_B . EK_A (IK_B the first 32 bytes of
/// `SHA-512(seed)`), DH3 = SPK_B . EK_A and DH4 = OPK_B . EK_A, so Bob's
/// identity key, his prekeys and both of Alice's keys enter it.
pub proof fn lemma_responder_secret_formula(
    identity_seed: Seq<u8>,
    signed_pre_secret: Seq<u8>,
    one_time_secret: Option<Seq<u8>>,
    their_identity: Seq<u8>,
    their_ephemeral: Seq<u8>,
)
    ensures
        responder_secret(
            identity_seed,
            signed_pre_secret,
            one_time_secret,
            their_identity,
            their_ephemeral,
        ) == hkdf_sha256(
            None,
            x25519_shared_secret(signed_pre_secret, their_identity) + x25519_shared_secret(
                sha512_digest(identity_seed).subrange(0, 32),
                their_ephemeral,
            ) + x25519_shared_secret(signed_pre_secret, their_ephemeral) + match one_time_secret {
                Some(o) => x25519_shared_secret(o, their_ephemeral),
                None => Seq::<u8>::empty(),
            },
            X3DH_INFO@,
        ),
{
}

/// The secret bytes of an optional secret key.
pub open spec fn opt_secret(s: Option<&StaticSecret>) -> Option<Seq<u8>> {
    match s {
        Some(k) => Some(k.secret()),
        None => None,
    }
}

/// X3DH initiation (Alice's side): from Alice's identity key, an ephemeral
/// secret and Bob's bundle, the 32-byte shared secret and the ephemeral
/// public key to send to Bob.  The bundle's first one-time prekey, if any,
/// is used for DH4.  Fails with `InvalidPublicKey` exactly when Bob's
/// identity key has low order, so that DH2 is not contributory.
pub fn initiate(
    our_identity_secret: &SigningKey,
    our_ephemeral_secret: &StaticSecret,
    bundle: &PreKeyBundle,
) -> (res: Result<([u8; 32], PublicKey), X3DHError>)
    ensures
        res is Ok <==> contributory(our_ephemeral_secret.secret(), bundle.identity_key@),
        res matches Err(e) ==> e == X3DHError::InvalidPublicKey,
        res matches Ok((secret, ek)) ==> {
            &&& secret@ == initiator_secret(
                our_identity_secret.seed(),
                our_ephemeral_secret.secret(),
                bundle.identity_key@,
                bundle.signed_pre_key.key@,
                first_one_time_key(*bundle),
            )
            &&& ek@ == x25519_public_key(our_ephemeral_secret.secret())
        },
{
    let ik_a = ed25519_to_x25519_static(our_identity_secret);
    let ek_a = our_ephemeral_secret;
    let ik_b = bundle.identity_key;
    let spk_b = bundle.signed_pre_key.key;

    // DH1 = IK_A . SPK_B, DH2 = EK_A . IK_B, DH3 = EK_A . SPK_B
    let dh1 = ik_a.diffie_hellman(&spk_b);
    let dh2 = ek_a.diffie_hellman(&ik_b);
    if !dh2.was_contributory() {
        return Err(X3DHError::InvalidPublicKey);
    }
    let dh3 = ek_a.diffie_hellman(&spk_b);

    // DH4 = EK_A . OPK_B, only if a one-time prekey is available.
    let dh4 = if bundle.one_time_pre_keys.len() > 0 {
        Some(ek_a.diffie_hellman(&bundle.one_time_pre_keys[0].key))
    } else {
        None
    };
    let shared_secret = match derive_shared_secret(&dh1, &dh2, &dh3, dh4.as_ref()) {
        Ok(s) => s,
        Err(e) => return Err(e),
    };
    let ek_a_public = PublicKey::from_secret(ek_a);
    Ok((shared_secret, ek_a_public))
}

/// X3DH response (Bob's side): from Bob's identity key, signed prekey
/// secret, the one-time prekey secret Alice used (if any), Alice's identity
/// key and her ephemeral public key, the same shared secret Alice derived.
/// Fails with `InvalidPublicKey` exactly when Alice's identity key has no
/// X25519 form: it has small order (a verifying key always decompresses).
pub fn respond(
    our_identity_secret: &SigningKey,
    our_signed_pre_secret: &StaticSecret,
    our_one_time_pre_secret: Option<&StaticSecret>,
    their_identity_key: VerifyingKey,
    their_ephemeral_key: &PublicKey,
) -> (res: Result<[u8; 32], X3DHError>)
    ensures
        match res {
            Ok(secret) => {
                &&& x25519_form_of(their_identity_key@) is Some
                &&& secret@ == responder_secret(
                    our_identity_secret.seed(),
                    our_signed_pre_secret.secret(),
                    opt_secret(our_one_time_pre_secret),
                    x25519_form_of(their_identity_key@)->0,
                    their_ephemeral_key@,
                )
            },
            Err(e) => e == X3DHError::InvalidPublicKey && x25519_form_of(their_identity_key@) is None,
        },
        res is Err <==> edwards_is_small_order(their_identity_key@),
{
    let ik_b = ed25519_to_x25519_static(our_identity_secret);
    let spk_b = our_signed_pre_secret;
    let ik_a = match ed25519_public_to_x25519(their_identity_key) {
        Ok(k) => k,
        Err(e) => return Err(e),
    };
    let ek_a = their_ephemeral_key;

    // DH1 = SPK_B . IK_A, DH2 = IK_B . EK_A, DH3 = SPK_B . EK_A
    let dh1 = spk_b.diffie_hellman(&ik_a);
    let dh2 = ik_b.diffie_hellman(ek_a);
    let dh3 = spk_b.diffie_hellman(ek_a);

    // DH4 = OPK_B . EK_A, only if a one-time prekey was used.
    let dh4 = match our_one_time_pre_secret {
        Some(opk_b) => Some(opk_b.diffie_hellman(ek_a)),
        None => None,
    };
    derive_shared_secret(&dh1, &dh2, &dh3, dh4.as_ref())
}

/// Converts an Ed25519 signing key to an X25519 secret: the first 32 bytes
/// of `SHA-512(seed)` (the scalar Ed25519 signing uses; X25519 clamps it).
/// The full hash output is wiped before returning.
pub fn ed25519_to_x25519_static(secret: &SigningKey) -> (res: StaticSecret)
    ensures
        res.secret() == x25519_secret_of_seed(secret.seed()),
{
    let result = sha512(secret.as_bytes());
    let scalar_bytes = array32_at(&result, 0);
    let mut full_hash = result;
    zeroize_bytes(&mut full_hash);
    StaticSecret::from_bytes(scalar_bytes)
}

/// Converts an Ed25519 verifying key to an X25519 public key: decompression
/// of the Edwards point, then its Montgomery form.  Fails with
/// `InvalidPublicKey` exactly when the point is of small order (the
/// identity element among them); a verifying key always decompresses.
pub fn ed25519_public_to_x25519(public: VerifyingKey) -> (res: Result<PublicKey, X3DHError>)
    ensures
        edwards_to_montgomery(public@) is Some,
        res is Err <==> edwards_is_small_order(public@),
        match res {
            Ok(pk) => x25519_form_of(public@) == Some(pk@),
            Err(e) => e == X3DHError::InvalidPublicKey && x25519_form_of(public@) is None,
        },
{
    match edwards_bytes_to_montgomery(public.as_bytes()) {
        Some((m, small_order)) => if small_order {
            Err(X3DHError::InvalidPublicKey)
        } else {
            Ok(PublicKey::from_bytes(m))
        },
        None => Err(X3DHError::InvalidPublicKey),
    }
}

/// View of an optional DH output.
pub open spec fn opt_shared(s: Option<&SharedSecret>) -> Option<Seq<u8>> {
    match s {
        Some(d) => Some(d@),
        None => None,
    }
}

/// The X3DH shared secret of `DH1 || DH2 || DH3 [|| DH4]` by HKDF-SHA256; the
/// concatenation is wiped afterwards.
fn derive_shared_secret(
    dh1: &SharedSecret,
    dh2: &SharedSecret,
    dh3: &SharedSecret,
    dh4: Option<&SharedSecret>,
) -> (res: Result<[u8; 32], X3DHError>)
    ensures
        res is Ok,
        res matches Ok(s) ==> s@ == x3dh_secret(dh1@, dh2@, dh3@, opt_shared(dh4)),
{
    let mut shared_input: Vec<u8> = Vec::with_capacity(128);
    append_bytes(&mut shared_input, dh1.as_bytes());
    append_bytes(&mut shared_input, dh2.as_bytes());
    append_bytes(&mut shared_input, dh3.as_bytes());
    match dh4 {
        Some(dh4_val) => append_bytes(&mut shared_input, dh4_val.as_bytes()),
        None => {},
    }
    assert(shared_input@ =~= dh1@ + dh2@ + dh3@ + match opt_shared(dh4) {
        Some(d) => d,
        None => Seq::<u8>::empty(),
    });
    let shared_secret = match hkdf_sha256_expand(None, shared_input.as_slice(), &X3DH_INFO) {
        Some(s) => s,
        None => return Err(X3DHError::HkdfError),
    };
    zeroize_vec(&mut shared_input);
    Ok(shared_secret)
}

/// The two key conversions agree: the X25519 public key converted from a
/// signing key's verifying key is the public key of the X25519 secret
/// converted from its seed.  Both conversions are functions of their input.
pub proof fn lemma_conversions_agree(key: SigningKey, public1: Seq<u8>, public2: Seq<u8>)
    requires
        key.wf(),
        x25519_form_of(key.public_key()) == Some(public1),
        x25519_form_of(key.public_key()) == Some(public2),
    ensures
        public1 == public2,
        public1 == x25519_public_key(x25519_secret_of_seed(key.seed())),
{
}

/// X3DH agreement: when Bob's bundle holds the X25519 form of Bob's identity
/// key, the public key of his signed prekey and, exactly when Bob uses a
/// one-time prekey, that prekey's public key first, then the secret Alice
/// derives with any ephemeral secret equals the one Bob derives from Alice's
/// identity key and her ephemeral public key (the X25519 form that
/// [`respond`] uses, whenever Alice's key has one).
pub proof fn lemma_x3dh_agreement(
    alice: SigningKey,
    ephemeral: StaticSecret,
    bob: SigningKey,
    signed_pre: StaticSecret,
    one_time: Option<StaticSecret>,
    bundle: PreKeyBundle,
)
    requires
        alice.wf(),
        ephemeral.wf(),
        bob.wf(),
        signed_pre.wf(),
        one_time matches Some(o) ==> o.wf(),
        edwards_to_montgomery(bob.public_key()) == Some(bundle.identity_key@),
        bundle.signed_pre_key.key@ == x25519_public_key(signed_pre.secret()),
        match one_time {
            Some(o) => first_one_time_key(bundle) == Some(x25519_public_key(o.secret())),
            None => first_one_time_key(bundle) is None,
        },
    ensures
        edwards_to_montgomery(alice.public_key()) is Some,
        x25519_form_of(alice.public_key()) is Some ==> x25519_form_of(alice.public_key())
            == edwards_to_montgomery(alice.public_key()),
        initiator_secret(
            alice.seed(),
            ephemeral.secret(),
            bundle.identity_key@,
            bundle.signed_pre_key.key@,
            first_one_time_key(bundle),
        ) == responder_secret(
            bob.seed(),
            signed_pre.secret(),
            match one_time {
                Some(o) => Some(o.secret()),
                None => None,
            },
            edwards_to_montgomery(alice.public_key())->0,
            x25519_public_key(ephemeral.secret()),
        ),
{
    let ik_a = x25519_secret_of_seed(alice.seed());
    let ik_b = x25519_secret_of_seed(bob.seed());
    let e = ephemeral.secret();
    let spk = signed_pre.secret();
    // DH1: IK_A . SPK_B == SPK_B . IK_A
    assert(x25519_shared_secret(ik_a, x25519_public_key(spk)) == x25519_shared_secret(
        spk,
        x25519_public_key(ik_a),
    ));
    // DH2: EK_A . IK_B == IK_B . EK_A
    assert(x25519_shared_secret(ik_b, x25519_public_key(e)) == x25519_shared_secret(
        e,
        x25519_public_key(ik_b),
    ));
    // DH3: EK_A . SPK_B == SPK_B . EK_A
    assert(x25519_shared_secret(spk, x25519_public_key(e)) == x25519_shared_secret(
        e,
        x25519_public_key(spk),
    ));
    match one_time {
        Some(o) => {
            // DH4: EK_A . OPK_B == OPK_B . EK_A
            assert(x25519_shared_secret(o.secret(), x25519_public_key(e)) == x25519_shared_secret(
                e,
                x25519_public_key(o.secret()),
            ));
        },
        None => {},
    }
}

} // verus!
