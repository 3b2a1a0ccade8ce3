//! Double Ratchet protocol for continuous forward secrecy.
//!
//! Each message advances the sending or receiving chain by HMAC-SHA256, and a
//! Diffie-Hellman ratchet runs whenever a new ratchet public key arrives from
//! the peer.  The ratchet is seeded with a 32-byte shared secret (typically
//! from X3DH) and each party's initial X25519 ratchet key.
//!
//! The state is described by [`RatchetModel`]; [`RatchetState::encrypt`] and
//! [`RatchetState::decrypt`] are specified over it, and the delivery law
//! ([`lemma_delivery`]) shows that a message one party encrypts decrypts to
//! its plaintext at a peer in sync with it, leaving the two in sync.
use vstd::prelude::*;

use vstd::bytes::{
    lemma_auto_spec_u32_to_from_le_bytes, spec_u32_from_le_bytes, spec_u32_to_le_bytes,
    u32_from_le_bytes, u32_to_le_bytes,
};

use crate::byteutil::{append_bytes, array32_at, bytes32_eq};
use crate::keys::{secret_ok, PublicKey, StaticSecret};
use crate::primitives::{
    aead_accepts_len, aead_open, aead_seal, chacha20poly1305_open, chacha20poly1305_seal,
    hkdf_sha256, hkdf_sha256_expand, hmac_sha256, hmac_sha256_tag, x25519_public_key,
    x25519_shared_secret,
};

verus! {

/// Errors for ratchet operations.
#[derive(Debug, PartialEq, Eq, Structural)]
pub enum RatchetError {
    /// The message header is malformed (too short).
    InvalidMessage,
    /// AEAD encryption failed.
    EncryptionError,
    /// AEAD decryption failed (wrong key, tampered message) or no receiving chain.
    DecryptionError,
    /// Key derivation (HKDF or HMAC) failed.
    KdfError,
}

/// HKDF info label for the root key derived by a DH ratchet step.
pub const RATCHET_ROOT_LABEL: [u8; 22] = [
    0x50u8, 0x72, 0x65, 0x73, 0x69, 0x64, 0x69, 0x75, 0x6d, 0x2d, 0x52, 0x61, 0x74, 0x63, 0x68,
    0x65, 0x74, 0x2d, 0x72, 0x6f, 0x6f, 0x74,
];

/// HKDF info label for the chain key derived by a DH ratchet step.
pub const RATCHET_CHAIN_LABEL: [u8; 23] = [
    0x50u8, 0x72, 0x65, 0x73, 0x69, 0x64, 0x69, 0x75, 0x6d, 0x2d, 0x52, 0x61, 0x74, 0x63, 0x68,
    0x65, 0x74, 0x2d, 0x63, 0x68, 0x61, 0x69, 0x6e,
];

/// Length of a message header: ratchet public key (32) and message number (4).
pub const HEADER_LEN: usize = 36;

/// A message produced by [`RatchetState::encrypt`].
///
/// The header holds the sender's current ratchet public key (32 bytes) and
/// the message number (4 bytes, little-endian); the ciphertext is the AEAD
/// output (plaintext and a 16-byte tag) with the header as associated data.
pub struct RatchetMessage {
    /// Ratchet public key (32 bytes) followed by the message number (4 bytes).
    pub header: Vec<u8>,
    /// AEAD ciphertext (plaintext and a 16-byte Poly1305 tag).
    pub ciphertext: Vec<u8>,
}

// ---------------------------------------------------------------------------
// The model
// ---------------------------------------------------------------------------

/// The abstract state of one party's ratchet.
pub struct RatchetModel {
    pub root: Seq<u8>,
    pub send_chain: Option<Seq<u8>>,
    pub recv_chain: Option<Seq<u8>>,
    /// Our current ratchet secret.
    pub send_secret: Seq<u8>,
    /// The peer's ratchet public key we last saw.
    pub recv_public: Seq<u8>,
    pub send_count: u32,
    pub recv_count: u32,
}

impl RatchetModel {
    /// The state is usable: our ratchet secret is a valid X25519 secret.
    pub open spec fn valid(self) -> bool {
        secret_ok(self.send_secret)
    }
}

/// Root key derived from the old root key and a DH output.
pub open spec fn kdf_root(root: Seq<u8>, dh: Seq<u8>) -> Seq<u8> {
    hkdf_sha256(Some(root), dh, RATCHET_ROOT_LABEL@)
}

/// Chain key derived from the old root key and a DH output.
pub open spec fn kdf_chain(root: Seq<u8>, dh: Seq<u8>) -> Seq<u8> {
    hkdf_sha256(Some(root), dh, RATCHET_CHAIN_LABEL@)
}

/// Message key of a chain step (HMAC label `0x01`).
pub open spec fn message_key(chain: Seq<u8>) -> Seq<u8> {
    hmac_sha256(chain, seq![0x01u8])
}

/// Next chain key of a chain step (HMAC label `0x02`).
pub open spec fn next_chain_key(chain: Seq<u8>) -> Seq<u8> {
    hmac_sha256(chain, seq![0x02u8])
}

/// The 12-byte nonce of message number `n`: `n` little-endian, then zeros.
pub open spec fn nonce_for(n: u32) -> Seq<u8> {
    spec_u32_to_le_bytes(n) + Seq::new(8, |i: int| 0u8)
}

/// A header: ratchet public key followed by the message number.
pub open spec fn header_for(public: Seq<u8>, n: u32) -> Seq<u8> {
    public + spec_u32_to_le_bytes(n)
}

/// The ratchet public key of a header.
pub open spec fn header_key(h: Seq<u8>) -> Seq<u8> {
    h.subrange(0, 32)
}

/// The message number of a header.
pub open spec fn header_number(h: Seq<u8>) -> u32 {
    spec_u32_from_le_bytes(h.subrange(32, 36))
}

/// The state after the initial sending ratchet, taken only when there is no
/// sending chain yet; `fresh` is the new ratchet secret.
pub open spec fn after_send_init(s: RatchetModel, fresh: Seq<u8>) -> RatchetModel {
    if s.send_chain is Some {
        s
    } else {
        let dh = x25519_shared_secret(fresh, s.recv_public);
        RatchetModel {
            root: kdf_root(s.root, dh),
            send_chain: Some(kdf_chain(s.root, dh)),
            send_secret: fresh,
            ..s
        }
    }
}

/// The message key the next encryption uses.
pub open spec fn sending_key(s: RatchetModel, fresh: Seq<u8>) -> Seq<u8> {
    message_key(after_send_init(s, fresh).send_chain->0)
}

/// The header the next encryption produces.
pub open spec fn sending_header(s: RatchetModel, fresh: Seq<u8>) -> Seq<u8> {
    header_for(x25519_public_key(after_send_init(s, fresh).send_secret), s.send_count)
}

/// The state after an encryption.
pub open spec fn after_encrypt(s: RatchetModel, fresh: Seq<u8>) -> RatchetModel {
    let s1 = after_send_init(s, fresh);
    RatchetModel {
        send_chain: Some(next_chain_key(s1.send_chain->0)),
        send_count: (s.send_count + 1) as u32,
        ..s1
    }
}

/// What an encryption of `pt` from state `s` (with `fresh` as the new
/// ratchet secret, used only if a sending chain must be started) returns and
/// leaves behind.
pub open spec fn encrypt_outcome(
    s: RatchetModel,
    pt: Seq<u8>,
    fresh: Seq<u8>,
    res: Result<RatchetMessage, RatchetError>,
    s2: RatchetModel,
) -> bool {
    &&& s2 == after_encrypt(s, fresh)
    &&& match res {
        Ok(m) => {
            &&& aead_accepts_len(pt.len() as int)
            &&& m.header@ == sending_header(s, fresh)
            &&& m.ciphertext@.len() == pt.len() + 16
            &&& m.ciphertext@ == chacha20poly1305_seal(
                sending_key(s, fresh),
                nonce_for(s.send_count),
                sending_header(s, fresh),
                pt,
            )
            &&& chacha20poly1305_open(
                sending_key(s, fresh),
                nonce_for(s.send_count),
                sending_header(s, fresh),
                m.ciphertext@,
            ) == Some(pt)
        },
        Err(e) => e == RatchetError::EncryptionError && !aead_accepts_len(pt.len() as int),
    }
}

/// Whether a message with header `h` makes state `s` run a DH ratchet.
pub open spec fn needs_dh_ratchet(s: RatchetModel, h: Seq<u8>) -> bool {
    s.recv_public != header_key(h)
}

/// The state after a DH ratchet on the peer's new key `their`; `fresh` is our
/// new ratchet secret.
pub open spec fn after_dh_ratchet(s: RatchetModel, their: Seq<u8>, fresh: Seq<u8>) -> RatchetModel {
    let dh1 = x25519_shared_secret(s.send_secret, their);
    let root1 = kdf_root(s.root, dh1);
    let dh2 = x25519_shared_secret(fresh, their);
    RatchetModel {
        root: kdf_root(root1, dh2),
        recv_chain: Some(kdf_chain(s.root, dh1)),
        recv_public: their,
        send_secret: fresh,
        send_chain: Some(kdf_chain(root1, dh2)),
        ..s
    }
}

/// The message number after `n`, wrapping at `u32::MAX`.
pub open spec fn count_after(n: u32) -> u32 {
    if n < u32::MAX {
        (n + 1) as u32
    } else {
        0
    }
}

/// What a decryption of the message (`h`, `ct`) from state `s` returns and
/// leaves behind; `fresh` is the new ratchet secret, used only if a DH
/// ratchet runs.  The DH ratchet and the chain step are kept only when the
/// message authenticates: a rejected message leaves `s` as it was.
pub open spec fn decrypt_model(s: RatchetModel, h: Seq<u8>, ct: Seq<u8>, fresh: Seq<u8>) -> (
    Result<Seq<u8>, RatchetError>,
    RatchetModel,
) {
    if h.len() < 36 {
        (Err(RatchetError::InvalidMessage), s)
    } else {
        let s1 = if needs_dh_ratchet(s, h) {
            after_dh_ratchet(s, header_key(h), fresh)
        } else {
            s
        };
        match s1.recv_chain {
            None => (Err(RatchetError::DecryptionError), s),
            Some(ck) => match chacha20poly1305_open(
                message_key(ck),
                nonce_for(header_number(h)),
                h,
                ct,
            ) {
                None => (Err(RatchetError::DecryptionError), s),
                Some(pt) => (
                    Ok(pt),
                    RatchetModel {
                        recv_chain: Some(next_chain_key(ck)),
                        recv_count: count_after(header_number(h)),
                        ..s1
                    },
                ),
            },
        }
    }
}

/// View of a decryption result.
pub open spec fn plaintext_view(res: Result<Vec<u8>, RatchetError>) -> Result<
    Seq<u8>,
    RatchetError,
> {
    match res {
        Ok(p) => Ok(p@),
        Err(e) => Err(e),
    }
}

/// The initial state of [`RatchetState::new`].
pub open spec fn initial_model(shared: Seq<u8>, our_secret: Seq<u8>, their_public: Seq<u8>) -> RatchetModel {
    RatchetModel {
        root: shared,
        send_chain: None,
        recv_chain: None,
        send_secret: our_secret,
        recv_public: their_public,
        send_count: 0,
        recv_count: 0,
    }
}

// ---------------------------------------------------------------------------
// Relation between two parties
// ---------------------------------------------------------------------------

/// Neither party has a sending chain yet; they share the root key and each
/// knows the other's ratchet public key.
pub open spec fn fresh_session(a: RatchetModel, b: RatchetModel) -> bool {
    &&& a.send_chain is None
    &&& b.send_chain is None
    &&& a.root == b.root
    &&& a.recv_public == x25519_public_key(b.send_secret)
    &&& b.recv_public == x25519_public_key(a.send_secret)
}

/// `s`'s next message needs no DH ratchet at `r`: `r` receives on `s`'s
/// sending chain and knows `s`'s ratchet key.
pub open spec fn chain_delivers(s: RatchetModel, r: RatchetModel) -> bool {
    &&& s.send_chain is Some
    &&& r.recv_chain == s.send_chain
    &&& r.recv_public == x25519_public_key(s.send_secret)
}

/// `s` has started a new sending chain that `r` will derive by a DH ratchet
/// from its own root key when `s`'s next message arrives.
pub open spec fn ratchet_pending(s: RatchetModel, r: RatchetModel) -> bool {
    let dh = x25519_shared_secret(s.send_secret, x25519_public_key(r.send_secret));
    &&& s.send_chain == Some(kdf_chain(r.root, dh))
    &&& s.root == kdf_root(r.root, dh)
    &&& s.recv_public == x25519_public_key(r.send_secret)
    &&& r.recv_public != x25519_public_key(s.send_secret)
}

/// Two parties are in sync: at the start of a session, or after `b` last
/// received from `a` (or the other way round).
pub open spec fn in_sync(a: RatchetModel, b: RatchetModel) -> bool {
    ||| fresh_session(a, b)
    ||| (chain_delivers(a, b) && ratchet_pending(b, a))
    ||| (chain_delivers(b, a) && ratchet_pending(a, b))
}

// ---------------------------------------------------------------------------
// Laws
// ---------------------------------------------------------------------------

/// Two parties created by [`RatchetState::new`] from the same shared secret,
/// each with its own ratchet secret and the other's public key, are in sync.
pub proof fn lemma_new_pair_in_sync(shared: Seq<u8>, a_secret: Seq<u8>, b_secret: Seq<u8>)
    ensures
        in_sync(
            initial_model(shared, a_secret, x25519_public_key(b_secret)),
            initial_model(shared, b_secret, x25519_public_key(a_secret)),
        ),
{
}

/// Being in sync is symmetric, so a reply is covered by [`lemma_delivery`]
/// with the roles exchanged.
pub proof fn lemma_in_sync_symmetric(a: RatchetModel, b: RatchetModel)
    requires
        in_sync(a, b),
    ensures
        in_sync(b, a),
{
}

/// Delivery: if `a` and `b` are in sync and `ct` is what `a`'s next
/// encryption of `pt` produced (it opens to `pt` under `a`'s message key,
/// nonce and header, as [`RatchetState::encrypt`] ensures), then `b` decrypts
/// `a`'s header and `ct` to `pt`, and afterwards the two are again in sync.
/// Fresh ratchet keys must differ in their public keys from the key the peer
/// currently holds (otherwise the peer would not notice the new key).
pub proof fn lemma_delivery(
    a: RatchetModel,
    b: RatchetModel,
    pt: Seq<u8>,
    ct: Seq<u8>,
    fa: Seq<u8>,
    fb: Seq<u8>,
)
    requires
        a.valid(),
        b.valid(),
        secret_ok(fa),
        secret_ok(fb),
        in_sync(a, b),
        a.send_chain is None ==> x25519_public_key(fa) != b.recv_public,
        needs_dh_ratchet(b, sending_header(a, fa)) ==> x25519_public_key(fb) != a.recv_public,
        chacha20poly1305_open(sending_key(a, fa), nonce_for(a.send_count), sending_header(a, fa), ct)
            == Some(pt),
    ensures
        decrypt_model(b, sending_header(a, fa), ct, fb).0 == Ok::<Seq<u8>, RatchetError>(pt),
        in_sync(after_encrypt(a, fa), decrypt_model(b, sending_header(a, fa), ct, fb).1),
        after_encrypt(a, fa).valid(),
        decrypt_model(b, sending_header(a, fa), ct, fb).1.valid(),
{
    lemma_auto_spec_u32_to_from_le_bytes();
    let a1 = after_send_init(a, fa);
    let h = sending_header(a, fa);
    let pk = x25519_public_key(a1.send_secret);
    assert(pk.len() == 32);
    assert(h.len() == 36);
    assert(header_key(h) =~= pk);
    assert(h.subrange(32, 36) =~= spec_u32_to_le_bytes(a.send_count));
    assert(header_number(h) == a.send_count);
    if fresh_session(a, b) {
        // a starts its sending chain with fa; b ratchets on fa's public key.
        assert(dh_agrees_at(fa, b.send_secret));
    } else if chain_delivers(a, b) && ratchet_pending(b, a) {
        assert(!needs_dh_ratchet(b, h));
    } else {
        assert(chain_delivers(b, a) && ratchet_pending(a, b));
        assert(dh_agrees_at(a.send_secret, b.send_secret));
    }
}

/// Encrypting touches only the sending side: the receiving chain, the peer's
/// ratchet key and the receive count stay as they were.  So messages cross
/// safely: a message the peer sent on the chain we receive on (one that needs
/// no DH ratchet) decrypts to the same result after we encrypt as before,
/// and a peer whose chain we receive on still delivers to us.
pub proof fn lemma_encrypt_keeps_receiving(
    a: RatchetModel,
    fa: Seq<u8>,
    peer: RatchetModel,
    h: Seq<u8>,
    ct: Seq<u8>,
    f: Seq<u8>,
)
    ensures
        after_encrypt(a, fa).recv_chain == a.recv_chain,
        after_encrypt(a, fa).recv_public == a.recv_public,
        after_encrypt(a, fa).recv_count == a.recv_count,
        needs_dh_ratchet(after_encrypt(a, fa), h) == needs_dh_ratchet(a, h),
        !needs_dh_ratchet(a, h) ==> decrypt_model(after_encrypt(a, fa), h, ct, f).0 == decrypt_model(
            a,
            h,
            ct,
            f,
        ).0,
        chain_delivers(peer, a) ==> chain_delivers(peer, after_encrypt(a, fa)),
{
}

/// DH ratchet agreement: when Alice, sharing Bob's root key and holding his
/// ratchet public key, starts a sending chain with a fresh secret `a1` (as
/// her first encryption does), Bob's DH ratchet on `a1`'s public key gives
/// him that chain as his receiving chain, because `DH(b, A1) == DH(a1, B)`.
pub proof fn lemma_dh_ratchet_matches(alice: RatchetModel, bob: RatchetModel, a1: Seq<u8>, fresh: Seq<u8>)
    requires
        bob.valid(),
        secret_ok(a1),
        alice.send_chain is None,
        alice.root == bob.root,
        alice.recv_public == x25519_public_key(bob.send_secret),
    ensures
        after_dh_ratchet(bob, x25519_public_key(a1), fresh).recv_chain == after_send_init(
            alice,
            a1,
        ).send_chain,
{
    assert(dh_agrees_at(a1, bob.send_secret));
}

/// The Diffie-Hellman agreement of `s` instantiated at `t`.
pub open spec fn dh_agrees_at(s: Seq<u8>, t: Seq<u8>) -> bool {
    x25519_shared_secret(t, x25519_public_key(s)) == x25519_shared_secret(
        s,
        x25519_public_key(t),
    )
}

/// A rejected message does not desynchronise the receiver: whatever its
/// header (a forged ratchet key included), a decryption that fails leaves the
/// state as it was, so the genuine message still decrypts afterwards.
pub proof fn lemma_rejection_is_harmless(s: RatchetModel, h: Seq<u8>, ct: Seq<u8>, fresh: Seq<u8>)
    requires
        decrypt_model(s, h, ct, fresh).0 is Err,
    ensures
        decrypt_model(s, h, ct, fresh).1 == s,
{
}

// ---------------------------------------------------------------------------
// The implementation
// ---------------------------------------------------------------------------

/// A chain key of a sending or receiving chain.
struct ChainKey {
    key: [u8; 32],
}

impl ChainKey {
    /// Advances the chain: the message key (HMAC label `0x01`) and the next
    /// chain key (HMAC label `0x02`).
    fn step(&self) -> (res: Result<([u8; 32], ChainKey), RatchetError>)
        ensures
            res is Ok,
            res matches Ok((mk, next)) ==> mk@ == message_key(self.key@) && next.key@
                == next_chain_key(self.key@),
    {
        let label_msg = [0x01u8];
        let label_chain = [0x02u8];
        assert(label_msg@ =~= seq![0x01u8]);
        assert(label_chain@ =~= seq![0x02u8]);
        let msg_key = match hmac_sha256_tag(&self.key, &label_msg) {
            Some(t) => t,
            None => return Err(RatchetError::KdfError),
        };
        let next_chain = match hmac_sha256_tag(&self.key, &label_chain) {
            Some(t) => t,
            None => return Err(RatchetError::KdfError),
        };
        Ok((msg_key, ChainKey { key: next_chain }))
    }
}

/// A DH ratchet step computed from a received ratchet key but not yet
/// applied: the new root key, both chain keys and both ratchet keys.
struct PendingRatchet {
    root_key: [u8; 32],
    receiving_chain: [u8; 32],
    sending_chain: [u8; 32],
    send_ratchet_key: StaticSecret,
    recv_ratchet_key: PublicKey,
}

/// The state `s` with the pending DH ratchet `p` applied.
spec fn with_pending(s: RatchetModel, p: PendingRatchet) -> RatchetModel {
    RatchetModel {
        root: p.root_key@,
        recv_chain: Some(p.receiving_chain@),
        send_chain: Some(p.sending_chain@),
        send_secret: p.send_ratchet_key.secret(),
        recv_public: p.recv_ratchet_key@,
        ..s
    }
}

/// Ratchet state for a single peer session: root key, sending and receiving
/// chain keys, DH ratchet keys and message numbers.
pub struct RatchetState {
    root_key: [u8; 32],
    sending_chain: Option<ChainKey>,
    receiving_chain: Option<ChainKey>,
    send_ratchet_key: Option<StaticSecret>,
    recv_ratchet_key: Option<PublicKey>,
    send_message_number: u32,
    recv_message_number: u32,
}

/// View of an optional chain key.
spec fn chain_view(c: Option<ChainKey>) -> Option<Seq<u8>> {
    match c {
        Some(k) => Some(k.key@),
        None => None,
    }
}

impl View for RatchetState {
    type V = RatchetModel;

    closed spec fn view(&self) -> RatchetModel {
        RatchetModel {
            root: self.root_key@,
            send_chain: chain_view(self.sending_chain),
            recv_chain: chain_view(self.receiving_chain),
            send_secret: self.send_ratchet_key->0.secret(),
            recv_public: self.recv_ratchet_key->0@,
            send_count: self.send_message_number,
            recv_count: self.recv_message_number,
        }
    }
}

impl RatchetState {
    /// Both ratchet keys are present, and our secret is valid.
    #[verifier::type_invariant]
    spec fn keys_present(&self) -> bool {
        &&& self.send_ratchet_key is Some
        &&& self.recv_ratchet_key is Some
        &&& self.send_ratchet_key->0.wf()
    }

    /// Initializes the ratchet from a shared secret (the output of X3DH),
    /// our initial ratchet secret and the peer's initial ratchet public key.
    /// Both parties start without chains; whoever sends first starts a
    /// sending chain, and the peer derives the matching receiving chain.
    pub fn new(
        shared_secret: [u8; 32],
        _is_initiator: bool,
        our_key: StaticSecret,
        their_key: PublicKey,
    ) -> (res: RatchetState)
        ensures
            res@ == initial_model(shared_secret@, our_key.secret(), their_key@),
            res@.valid(),
    {
        proof {
            use_type_invariant(&our_key);
        }
        RatchetState {
            root_key: shared_secret,
            sending_chain: None,
            receiving_chain: None,
            send_ratchet_key: Some(our_key),
            recv_ratchet_key: Some(their_key),
            send_message_number: 0,
            recv_message_number: 0,
        }
    }

    /// The number the next sent message carries.  [`RatchetState::encrypt`]
    /// needs it below `u32::MAX`.
    pub fn send_message_number(&self) -> (res: u32)
        ensures
            res == self@.send_count,
    {
        self.send_message_number
    }

    /// Encrypts `plaintext`, advancing the sending chain.  Without a sending
    /// chain, a fresh ratchet key is drawn first and the chain is derived by
    /// DH with the peer's key.  The ciphertext authenticates the header.
    ///
    /// The outcome is the one [`encrypt_outcome`] describes for some valid
    /// fresh secret (the one drawn, when one is).
    pub fn encrypt(&mut self, plaintext: &[u8]) -> (res: Result<RatchetMessage, RatchetError>)
        requires
            old(self)@.send_count < u32::MAX,
        ensures
            final(self)@.valid(),
            final(self)@.recv_chain == old(self)@.recv_chain,
            final(self)@.recv_public == old(self)@.recv_public,
            final(self)@.recv_count == old(self)@.recv_count,
            exists|fresh: Seq<u8>|
                secret_ok(fresh) && #[trigger] encrypt_outcome(
                    old(self)@,
                    plaintext@,
                    fresh,
                    res,
                    final(self)@,
                ),
    {
        proof {
            use_type_invariant(&*self);
        }
        let ghost s0 = self@;
        let ghost mut fresh: Seq<u8> = self@.send_secret;
        if self.sending_chain.is_none() {
            let new_key = StaticSecret::random();
            proof {
                use_type_invariant(&new_key);
                fresh = new_key.secret();
            }
            match self.init_send_ratchet(new_key) {
                Ok(()) => {},
                Err(e) => return Err(e),
            }
        }
        proof {
            use_type_invariant(&*self);
        }
        assert(self@ == after_send_init(s0, fresh));
        let (msg_key, next_chain) = match &self.sending_chain {
            Some(chain) => match chain.step() {
                Ok(p) => p,
                Err(e) => return Err(e),
            },
            None => return Err(RatchetError::EncryptionError),
        };
        self.sending_chain = Some(next_chain);
        let msg_number = self.send_message_number;
        self.send_message_number = msg_number + 1;
        assert(self@ == after_encrypt(s0, fresh));

        // The header is the AEAD's associated data, which binds the ratchet
        // key and the message number to the ciphertext.
        let mut header: Vec<u8> = Vec::with_capacity(HEADER_LEN);
        match &self.send_ratchet_key {
            Some(key) => {
                let pk = key.public_key();
                append_bytes(&mut header, pk.as_bytes());
            },
            None => {},
        }
        let number_bytes = u32_to_le_bytes(msg_number);
        append_bytes(&mut header, number_bytes.as_slice());
        assert(header@ == sending_header(s0, fresh));

        let nonce = Self::make_nonce(msg_number);
        let ct = match aead_seal(&msg_key, &nonce, header.as_slice(), plaintext) {
            Some(c) => c,
            None => {
                let r = Err(RatchetError::EncryptionError);
                assert(encrypt_outcome(s0, plaintext@, fresh, r, self@));
                return r;
            },
        };
        let r = Ok(RatchetMessage { header, ciphertext: ct });
        assert(encrypt_outcome(s0, plaintext@, fresh, r, self@));
        r
    }

    /// Decrypts `message`.  If its ratchet key differs from the peer key we
    /// hold, a DH ratchet is computed first (with a freshly drawn ratchet
    /// secret).  The DH ratchet and the step of the receiving chain are kept
    /// only when the AEAD check succeeds, so a corrupted or tampered message
    /// (a forged ratchet key included) does not desynchronise the session.
    ///
    /// The outcome is the one [`decrypt_model`] gives for some valid fresh
    /// secret (the one drawn, when one is).  In particular a header shorter
    /// than 36 bytes gives `InvalidMessage` and a rejected message leaves
    /// the state unchanged.
    pub fn decrypt(&mut self, message: &RatchetMessage) -> (res: Result<Vec<u8>, RatchetError>)
        ensures
            final(self)@.valid(),
            exists|fresh: Seq<u8>|
                secret_ok(fresh) && #[trigger] decrypt_model(
                    old(self)@,
                    message.header@,
                    message.ciphertext@,
                    fresh,
                ) == (plaintext_view(res), final(self)@),
            message.header@.len() < 36 ==> res == Err::<Vec<u8>, RatchetError>(
                RatchetError::InvalidMessage,
            ),
            res is Err ==> final(self)@ == old(self)@,
    {
        proof {
            use_type_invariant(&*self);
        }
        let ghost s0 = self@;
        let ghost mut fresh: Seq<u8> = self@.send_secret;
        if message.header.len() < HEADER_LEN {
            assert(decrypt_model(s0, message.header@, message.ciphertext@, fresh) == (
                plaintext_view(Err(RatchetError::InvalidMessage)),
                self@,
            ));
            return Err(RatchetError::InvalidMessage);
        }
        let header = message.header.as_slice();
        let their_bytes = array32_at(header, 0);
        let msg_number = u32_from_le_bytes(&header[32..36]);
        let their_ratchet_key = PublicKey::from_bytes(their_bytes);
        assert(their_ratchet_key@ == header_key(message.header@));

        let dh_ratchet_needed = match &self.recv_ratchet_key {
            Some(pk) => !bytes32_eq(pk.as_bytes(), their_ratchet_key.as_bytes()),
            None => true,
        };
        let mut pending: Option<PendingRatchet> = None;
        if dh_ratchet_needed {
            let new_key = StaticSecret::random();
            proof {
                use_type_invariant(&new_key);
                fresh = new_key.secret();
            }
            match self.dh_ratchet(&their_ratchet_key, new_key) {
                Ok(p) => {
                    pending = Some(p);
                },
                Err(e) => return Err(e),
            }
        }
        let ghost s1 = if pending is Some {
            with_pending(s0, pending->0)
        } else {
            s0
        };
        assert(s1 == (if needs_dh_ratchet(s0, message.header@) {
            after_dh_ratchet(s0, header_key(message.header@), fresh)
        } else {
            s0
        }));

        // Step the receiving chain (the pending one, after a DH ratchet), but
        // keep nothing until the AEAD check succeeds.
        let chain = match &pending {
            Some(p) => ChainKey { key: p.receiving_chain },
            None => match &self.receiving_chain {
                Some(c) => ChainKey { key: c.key },
                None => {
                    let r = Err(RatchetError::DecryptionError);
                    assert(decrypt_model(s0, message.header@, message.ciphertext@, fresh) == (
                        plaintext_view(r),
                        self@,
                    ));
                    return r;
                },
            },
        };
        assert(s1.recv_chain == Some(chain.key@));
        let (msg_key, next_chain) = match chain.step() {
            Ok(p) => p,
            Err(e) => return Err(e),
        };
        let nonce = Self::make_nonce(msg_number);
        let plaintext = match aead_open(
            &msg_key,
            &nonce,
            header,
            message.ciphertext.as_slice(),
        ) {
            Some(p) => p,
            None => {
                let r = Err(RatchetError::DecryptionError);
                assert(decrypt_model(s0, message.header@, message.ciphertext@, fresh) == (
                    plaintext_view(r),
                    self@,
                ));
                return r;
            },
        };

        // Authenticated: apply the DH ratchet, if any, and the chain step.
        match pending {
            Some(p) => {
                proof {
                    use_type_invariant(&p.send_ratchet_key);
                }
                self.root_key = p.root_key;
                self.recv_ratchet_key = Some(p.recv_ratchet_key);
                self.sending_chain = Some(ChainKey { key: p.sending_chain });
                self.send_ratchet_key = Some(p.send_ratchet_key);
            },
            None => {},
        }
        self.receiving_chain = Some(next_chain);
        self.recv_message_number = msg_number.wrapping_add(1);
        let r = Ok(plaintext);
        assert(decrypt_model(s0, message.header@, message.ciphertext@, fresh) == (
            plaintext_view(r),
            self@,
        ));
        r
    }

    /// Starts the sending chain with the new ratchet secret `new_send_key`:
    /// DH with the peer's key gives the new root key and the chain key.
    fn init_send_ratchet(&mut self, new_send_key: StaticSecret) -> (res: Result<(), RatchetError>)
        requires
            old(self)@.send_chain is None,
        ensures
            res is Ok,
            final(self)@ == after_send_init(old(self)@, new_send_key.secret()),
    {
        proof {
            use_type_invariant(&*self);
            use_type_invariant(&new_send_key);
        }
        let their_key = match &self.recv_ratchet_key {
            Some(k) => *k,
            None => return Err(RatchetError::KdfError),
        };
        let dh_output = new_send_key.diffie_hellman(&their_key);
        let new_root = match hkdf_sha256_expand(
            Some(self.root_key.as_slice()),
            dh_output.as_bytes(),
            &RATCHET_ROOT_LABEL,
        ) {
            Some(k) => k,
            None => return Err(RatchetError::KdfError),
        };
        let chain_bytes = match hkdf_sha256_expand(
            Some(self.root_key.as_slice()),
            dh_output.as_bytes(),
            &RATCHET_CHAIN_LABEL,
        ) {
            Some(k) => k,
            None => return Err(RatchetError::KdfError),
        };
        self.root_key = new_root;
        self.send_ratchet_key = Some(new_send_key);
        self.sending_chain = Some(ChainKey { key: chain_bytes });
        Ok(())
    }

    /// A DH ratchet step on the peer's new key, computed without applying
    /// it: DH with our current secret gives a new root key and the receiving
    /// chain; DH with the new secret `new_send_key` then gives a newer root
    /// key and the sending chain.
    fn dh_ratchet(&self, their_new_key: &PublicKey, new_send_key: StaticSecret) -> (res: Result<
        PendingRatchet,
        RatchetError,
    >)
        ensures
            res is Ok,
            res matches Ok(p) ==> with_pending(self@, p) == after_dh_ratchet(
                self@,
                their_new_key@,
                new_send_key.secret(),
            ),
    {
        proof {
            use_type_invariant(self);
            use_type_invariant(&new_send_key);
        }
        let dh_output = match &self.send_ratchet_key {
            Some(our_key) => our_key.diffie_hellman(their_new_key),
            None => return Err(RatchetError::KdfError),
        };
        let new_root = match hkdf_sha256_expand(
            Some(self.root_key.as_slice()),
            dh_output.as_bytes(),
            &RATCHET_ROOT_LABEL,
        ) {
            Some(k) => k,
            None => return Err(RatchetError::KdfError),
        };
        let recv_chain_bytes = match hkdf_sha256_expand(
            Some(self.root_key.as_slice()),
            dh_output.as_bytes(),
            &RATCHET_CHAIN_LABEL,
        ) {
            Some(k) => k,
            None => return Err(RatchetError::KdfError),
        };

        let dh_output2 = new_send_key.diffie_hellman(their_new_key);
        let newer_root = match hkdf_sha256_expand(
            Some(new_root.as_slice()),
            dh_output2.as_bytes(),
            &RATCHET_ROOT_LABEL,
        ) {
            Some(k) => k,
            None => return Err(RatchetError::KdfError),
        };
        let send_chain_bytes = match hkdf_sha256_expand(
            Some(new_root.as_slice()),
            dh_output2.as_bytes(),
            &RATCHET_CHAIN_LABEL,
        ) {
            Some(k) => k,
            None => return Err(RatchetError::KdfError),
        };
        Ok(
            PendingRatchet {
                root_key: newer_root,
                receiving_chain: recv_chain_bytes,
                sending_chain: send_chain_bytes,
                send_ratchet_key: new_send_key,
                recv_ratchet_key: *their_new_key,
            },
        )
    }

    /// The 12-byte nonce of a message number: the number little-endian in
    /// the first 4 bytes, zeros after.  The chain key changes with every
    /// message, so (key, nonce) pairs never repeat.
    fn make_nonce(counter: u32) -> (res: [u8; 12])
        ensures
            res@ == nonce_for(counter),
    {
        let b = u32_to_le_bytes(counter);
        let nonce = [b[0], b[1], b[2], b[3], 0u8, 0u8, 0u8, 0u8, 0u8, 0u8, 0u8, 0u8];
        assert(nonce@ =~= nonce_for(counter));
        nonce
    }
}

} // verus!
