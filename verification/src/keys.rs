//! Key types: Ed25519 signing and verifying keys, X25519 secrets, public keys
//! and shared secrets, each held as plain bytes.
//!
//! A key value always carries the facts its construction established
//! through the primitives (its type invariant): a [`StaticSecret`] agrees
//! with every other secret in Diffie-Hellman, a [`VerifyingKey`]
//! decompresses to a curve point, and a [`SigningKey`]'s public key converts
//! to the X25519 public key of its hashed seed.
//!
//! The secret types ([`StaticSecret`], [`SigningKey`]) are plain byte
//! holders: unlike the outside key types they stand for, they are not
//! overwritten when dropped, since a `Drop` implementation cannot be
//! verified.
use vstd::prelude::*;

use crate::primitives::{
    dh_agrees, ed25519_public_key, ed25519_verifying_key_accepts, ed25519_verifying_key_bytes,
    edwards_to_montgomery, montgomery_is_identity, montgomery_point_is_identity, os_fill_bytes, sha512,
    sha512_digest, x25519_diffie_hellman, x25519_public_from_secret, x25519_public_key,
    x25519_random_secret, x25519_shared_secret,
};

verus! {

/// A secret that is valid for X25519: 32 bytes, with a 32-byte public key,
/// that agree in Diffie-Hellman with every other secret.
pub open spec fn secret_ok(s: Seq<u8>) -> bool {
    &&& s.len() == 32
    &&& x25519_public_key(s).len() == 32
    &&& dh_agrees(s)
}

/// The X25519 secret that corresponds to an Ed25519 seed: the first 32 bytes
/// of `SHA-512(seed)`.
pub open spec fn x25519_secret_of_seed(seed: Seq<u8>) -> Seq<u8> {
    sha512_digest(seed).subrange(0, 32)
}

/// An X25519 public key.
#[derive(Clone, Copy, Debug)]
pub struct PublicKey {
    bytes: [u8; 32],
}

impl View for PublicKey {
    type V = Seq<u8>;

    closed spec fn view(&self) -> Seq<u8> {
        self.bytes@
    }
}

impl PublicKey {
    /// Builds a public key from its 32 bytes.
    pub fn from_bytes(bytes: [u8; 32]) -> (res: PublicKey)
        ensures
            res@ == bytes@,
    {
        PublicKey { bytes }
    }

    /// The public key of `secret`.
    pub fn from_secret(secret: &StaticSecret) -> (res: PublicKey)
        ensures
            res@ == x25519_public_key(secret.secret()),
    {
        secret.public_key()
    }

    /// The 32 bytes of this public key.
    pub fn to_bytes(&self) -> (res: [u8; 32])
        ensures
            res@ == self@,
    {
        self.bytes
    }

    /// The 32 bytes of this public key, borrowed.
    pub fn as_bytes(&self) -> (res: &[u8; 32])
        ensures
            res@ == self@,
    {
        &self.bytes
    }
}

/// The output of an X25519 Diffie-Hellman exchange.
pub struct SharedSecret {
    bytes: [u8; 32],
}

impl View for SharedSecret {
    type V = Seq<u8>;

    closed spec fn view(&self) -> Seq<u8> {
        self.bytes@
    }
}

impl SharedSecret {
    /// The 32 bytes of the shared secret, borrowed.
    pub fn as_bytes(&self) -> (res: &[u8; 32])
        ensures
            res@ == self@,
    {
        &self.bytes
    }

    /// The 32 bytes of the shared secret.
    pub fn to_bytes(&self) -> (res: [u8; 32])
        ensures
            res@ == self@,
    {
        self.bytes
    }

    /// Whether the exchange was contributory: the output is not the identity
    /// element, as it is when the peer's public key has low order.
    pub fn was_contributory(&self) -> (res: bool)
        ensures
            res == !montgomery_is_identity(self@),
    {
        !montgomery_point_is_identity(&self.bytes)
    }
}

/// A static X25519 secret key.  It keeps its public key beside it.
pub struct StaticSecret {
    bytes: [u8; 32],
    public: [u8; 32],
}

impl StaticSecret {
    /// The 32 secret bytes.
    pub closed spec fn secret(&self) -> Seq<u8> {
        self.bytes@
    }

    /// The public key kept beside the secret.
    pub closed spec fn kept_public(&self) -> Seq<u8> {
        self.public@
    }

    /// Validity of a secret key: it is usable for X25519 and keeps its own
    /// public key.
    #[verifier::type_invariant]
    pub open spec fn wf(&self) -> bool {
        &&& secret_ok(self.secret())
        &&& self.kept_public() == x25519_public_key(self.secret())
    }

    /// Loads a secret key from its 32 bytes.
    pub fn from_bytes(bytes: [u8; 32]) -> (res: StaticSecret)
        ensures
            res.secret() == bytes@,
            res.wf(),
    {
        let public = x25519_public_from_secret(&bytes);
        StaticSecret { bytes, public }
    }

    /// A fresh secret key drawn from the operating system's random source.
    pub fn random() -> (res: StaticSecret)
        ensures
            res.wf(),
    {
        let bytes = x25519_random_secret();
        StaticSecret::from_bytes(bytes)
    }

    /// The 32 secret bytes.
    pub fn to_bytes(&self) -> (res: [u8; 32])
        ensures
            res@ == self.secret(),
            self.wf(),
    {
        proof {
            use_type_invariant(self);
        }
        self.bytes
    }

    /// The 32 secret bytes, borrowed.
    pub fn as_bytes(&self) -> (res: &[u8; 32])
        ensures
            res@ == self.secret(),
            self.wf(),
    {
        proof {
            use_type_invariant(self);
        }
        &self.bytes
    }

    /// The public key of this secret.
    pub fn public_key(&self) -> (res: PublicKey)
        ensures
            res@ == x25519_public_key(self.secret()),
            self.wf(),
    {
        proof {
            use_type_invariant(self);
        }
        PublicKey { bytes: self.public }
    }

    /// Diffie-Hellman between this secret and `their_public`.
    pub fn diffie_hellman(&self, their_public: &PublicKey) -> (res: SharedSecret)
        ensures
            res@ == x25519_shared_secret(self.secret(), their_public@),
            self.wf(),
    {
        proof {
            use_type_invariant(self);
        }
        SharedSecret { bytes: x25519_diffie_hellman(&self.bytes, &their_public.bytes) }
    }
}

impl Clone for StaticSecret {
    fn clone(&self) -> (res: Self)
        ensures
            res == *self,
    {
        proof {
            use_type_invariant(self);
        }
        StaticSecret { bytes: self.bytes, public: self.public }
    }
}

/// An Ed25519 verifying (public) key.
#[derive(Clone, Copy, Debug)]
pub struct VerifyingKey {
    bytes: [u8; 32],
}

impl View for VerifyingKey {
    type V = Seq<u8>;

    closed spec fn view(&self) -> Seq<u8> {
        self.bytes@
    }
}

impl VerifyingKey {
    /// Validity of a verifying key: its bytes decompress to a curve point.
    #[verifier::type_invariant]
    pub open spec fn decompresses(&self) -> bool {
        edwards_to_montgomery(self@) is Some
    }

    /// Loads a verifying key from its 32 compressed bytes; `None` exactly
    /// when they do not decompress to a curve point.
    pub fn from_bytes(bytes: &[u8; 32]) -> (res: Option<VerifyingKey>)
        ensures
            res is Some <==> edwards_to_montgomery(bytes@) is Some,
            res matches Some(k) ==> k@ == bytes@,
    {
        if ed25519_verifying_key_accepts(bytes) {
            Some(VerifyingKey { bytes: *bytes })
        } else {
            None
        }
    }

    /// The 32 bytes of the compressed public key.
    pub fn to_bytes(&self) -> (res: [u8; 32])
        ensures
            res@ == self@,
            self.decompresses(),
    {
        proof {
            use_type_invariant(self);
        }
        self.bytes
    }

    /// The 32 bytes of the compressed public key, borrowed.
    pub fn as_bytes(&self) -> (res: &[u8; 32])
        ensures
            res@ == self@,
            self.decompresses(),
    {
        proof {
            use_type_invariant(self);
        }
        &self.bytes
    }
}

/// An Ed25519 signing key: a 32-byte secret seed and its verifying key.
pub struct SigningKey {
    seed: [u8; 32],
    verifying: VerifyingKey,
}

impl SigningKey {
    /// The 32-byte secret seed.
    pub closed spec fn seed(&self) -> Seq<u8> {
        self.seed@
    }

    /// The verifying key kept beside the seed.
    pub closed spec fn public_key(&self) -> Seq<u8> {
        self.verifying@
    }

    /// Validity of a signing key: its verifying key is the one of its seed,
    /// and that key's Montgomery form is the X25519 public key of the secret
    /// derived from the seed.
    #[verifier::type_invariant]
    pub open spec fn wf(&self) -> bool {
        &&& self.seed().len() == 32
        &&& x25519_secret_of_seed(self.seed()).len() == 32
        &&& self.public_key().len() == 32
        &&& self.public_key() == ed25519_public_key(self.seed())
        &&& edwards_to_montgomery(self.public_key()) == Some(
            x25519_public_key(x25519_secret_of_seed(self.seed())),
        )
    }

    /// Builds the signing key of a 32-byte seed.
    pub fn from_bytes(seed: &[u8; 32]) -> (res: SigningKey)
        ensures
            res.seed() == seed@,
            res.wf(),
    {
        // The SHA-512 expansion of the seed carries the X25519 form of the key.
        let expanded = sha512(seed);
        assert(expanded@.len() == 64);
        let vk = ed25519_verifying_key_bytes(seed);
        SigningKey { seed: *seed, verifying: VerifyingKey { bytes: vk } }
    }

    /// A fresh signing key whose seed is drawn from the operating system's
    /// random source.
    pub fn generate() -> (res: SigningKey)
        ensures
            res.wf(),
    {
        let mut seed = [0u8; 32];
        os_fill_bytes(&mut seed);
        SigningKey::from_bytes(&seed)
    }

    /// The 32-byte seed.
    pub fn to_bytes(&self) -> (res: [u8; 32])
        ensures
            res@ == self.seed(),
            self.wf(),
    {
        proof {
            use_type_invariant(self);
        }
        self.seed
    }

    /// The 32-byte seed, borrowed.
    pub fn as_bytes(&self) -> (res: &[u8; 32])
        ensures
            res@ == self.seed(),
            self.wf(),
    {
        proof {
            use_type_invariant(self);
        }
        &self.seed
    }

    /// The verifying key.
    pub fn verifying_key(&self) -> (res: VerifyingKey)
        ensures
            res@ == self.public_key(),
            self.wf(),
    {
        proof {
            use_type_invariant(self);
        }
        self.verifying
    }
}

impl Clone for SigningKey {
    fn clone(&self) -> (res: Self)
        ensures
            res == *self,
    {
        proof {
            use_type_invariant(self);
        }
        SigningKey { seed: self.seed, verifying: self.verifying }
    }
}

} // verus!
