//! The cryptographic primitives this library builds on, each computed by an
//! outside crate.  Every function here is trusted: its contract is believed,
//! not proved, and its doc comment says what it claims of the outside code.
//! Results that take pages to define are given a name (an uninterpreted spec
//! function); the library's own contracts are stated over those names.
use vstd::prelude::*;

use chacha20poly1305::aead::{Aead, KeyInit, Payload};
use hmac::Mac;
use rand::RngCore;
use sha2::Digest;
use zeroize::Zeroize;

verus! {

// ---------------------------------------------------------------------------
// Names for results of outside functions
// ---------------------------------------------------------------------------

/// The SHA-512 digest of `data` (64 bytes).
pub uninterp spec fn sha512_digest(data: Seq<u8>) -> Seq<u8>;

/// The compressed Ed25519 public key of the 32-byte secret seed `seed`.
pub uninterp spec fn ed25519_public_key(seed: Seq<u8>) -> Seq<u8>;

/// Decompression of the compressed Edwards-Y point `point` followed by the
/// birational map to the Montgomery u-coordinate; `None` when `point` does
/// not decompress.
pub uninterp spec fn edwards_to_montgomery(point: Seq<u8>) -> Option<Seq<u8>>;

/// Whether the decompressed Edwards point of `point` has small order (its
/// multiple by the cofactor 8 is the identity).
pub uninterp spec fn edwards_is_small_order(point: Seq<u8>) -> bool;

/// Whether the Montgomery u-coordinate `u` is the identity element (the
/// encoding of zero).
pub uninterp spec fn montgomery_is_identity(u: Seq<u8>) -> bool;

/// The X25519 public key (u-coordinate of the clamped scalar times the base
/// point) of the 32-byte secret `secret`.
pub uninterp spec fn x25519_public_key(secret: Seq<u8>) -> Seq<u8>;

/// The X25519 Diffie-Hellman output of secret `secret` and public key `public`.
pub uninterp spec fn x25519_shared_secret(secret: Seq<u8>, public: Seq<u8>) -> Seq<u8>;

/// 32 bytes of HKDF-SHA256 output for the given salt, input key material and info.
pub uninterp spec fn hkdf_sha256(salt: Option<Seq<u8>>, ikm: Seq<u8>, info: Seq<u8>) -> Seq<u8>;

/// The HMAC-SHA256 tag of `data` under `key`.
pub uninterp spec fn hmac_sha256(key: Seq<u8>, data: Seq<u8>) -> Seq<u8>;

/// The ChaCha20-Poly1305 ciphertext (with its 16-byte tag appended) of `msg`.
pub uninterp spec fn chacha20poly1305_seal(
    key: Seq<u8>,
    nonce: Seq<u8>,
    aad: Seq<u8>,
    msg: Seq<u8>,
) -> Seq<u8>;

/// ChaCha20-Poly1305 decryption of `ct`; `None` when authentication fails.
pub uninterp spec fn chacha20poly1305_open(
    key: Seq<u8>,
    nonce: Seq<u8>,
    aad: Seq<u8>,
    ct: Seq<u8>,
) -> Option<Seq<u8>>;

/// The 32-byte Argon2id (version 0x13) hash of `password` and `salt` with the
/// given memory, time and parallelism costs.
pub uninterp spec fn argon2id_hash(
    password: Seq<u8>,
    salt: Seq<u8>,
    m_cost: u32,
    t_cost: u32,
    p_cost: u32,
) -> Seq<u8>;

/// The Base58 (Bitcoin alphabet) encoding of `data`.
pub uninterp spec fn base58_encode(data: Seq<u8>) -> Seq<char>;

/// The Base58 (Bitcoin alphabet) decoding of `text`; `None` when `text` holds
/// a character outside the alphabet.
pub uninterp spec fn base58_decode(text: Seq<char>) -> Option<Seq<u8>>;

/// The 64-byte BIP39 seed of the English mnemonic of `entropy`, salted with
/// `passphrase`.
pub uninterp spec fn bip39_seed(entropy: Seq<u8>, passphrase: Seq<char>) -> Seq<u8>;

/// The English BIP39 phrase (words separated by spaces) of `entropy`.
pub uninterp spec fn bip39_phrase(entropy: Seq<u8>) -> Seq<char>;

/// The entropy of the BIP39 phrase `phrase`; `None` when `phrase` is not a
/// valid mnemonic (word count, unknown word or checksum).
pub uninterp spec fn bip39_entropy_of(phrase: Seq<char>) -> Option<Seq<u8>>;

// ---------------------------------------------------------------------------
// Plain definitions used in the contracts below
// ---------------------------------------------------------------------------

/// BIP39 accepts 128 to 256 bits of entropy, in steps of 32 bits.
pub open spec fn valid_entropy_len(n: int) -> bool {
    n % 4 == 0 && 16 <= n <= 32
}

/// The largest plaintext ChaCha20-Poly1305 accepts is one byte under
/// `64 * u32::MAX`.
pub open spec fn aead_accepts_len(n: int) -> bool {
    n < 64 * 0xffff_ffffint
}

/// View of an optional byte slice.
pub open spec fn opt_bytes(o: Option<&[u8]>) -> Option<Seq<u8>> {
    match o {
        Some(s) => Some(s@),
        None => None,
    }
}

/// X25519 key agreement for the secret `s`: whatever secret `t` meets the
/// public key of `s`, the output is the one `s` computes with `t`'s public key.
pub open spec fn dh_agrees(s: Seq<u8>) -> bool {
    forall|t: Seq<u8>|
        t.len() == 32 ==> #[trigger] x25519_shared_secret(t, x25519_public_key(s))
            == x25519_shared_secret(s, x25519_public_key(t))
}

// ---------------------------------------------------------------------------
// Trusted wrappers
// ---------------------------------------------------------------------------

/// Calls `sha2::Sha512::digest`. Claims the result is the digest named
/// `sha512_digest(data)`.
#[verifier::external_body]
pub(crate) fn sha512(data: &[u8]) -> (res: [u8; 64])
    ensures
        res@ == sha512_digest(data@),
{
    sha2::Sha512::digest(data).into()
}

/// Calls `ed25519_dalek::SigningKey::from_bytes(seed).verifying_key()`.
/// Claims the result is the public key named `ed25519_public_key(seed)` and,
/// as the documentation of `SigningKey::to_scalar_bytes` and
/// `VerifyingKey::to_montgomery` states, that its Montgomery form is the
/// X25519 public key of the first 32 bytes of `SHA-512(seed)`.
#[verifier::external_body]
pub(crate) fn ed25519_verifying_key_bytes(seed: &[u8; 32]) -> (res: [u8; 32])
    ensures
        res@ == ed25519_public_key(seed@),
        edwards_to_montgomery(res@) == Some(
            x25519_public_key(sha512_digest(seed@).subrange(0, 32)),
        ),
{
    ed25519_dalek::SigningKey::from_bytes(seed).verifying_key().to_bytes()
}

/// Calls `curve25519_dalek::edwards::CompressedEdwardsY::from_slice`, then
/// `decompress`, and on the point `to_montgomery` and `is_small_order`.
/// Claims the Montgomery form is the value named
/// `edwards_to_montgomery(bytes)` (`None` exactly when the point does not
/// decompress) and the flag is `edwards_is_small_order(bytes)`.
#[verifier::external_body]
pub(crate) fn edwards_bytes_to_montgomery(bytes: &[u8; 32]) -> (res: Option<([u8; 32], bool)>)
    ensures
        match res {
            Some((m, small)) => {
                &&& edwards_to_montgomery(bytes@) == Some(m@)
                &&& small == edwards_is_small_order(bytes@)
            },
            None => edwards_to_montgomery(bytes@) is None,
        },
{
    match curve25519_dalek::edwards::CompressedEdwardsY::from_slice(bytes) {
        Ok(compressed) => match compressed.decompress() {
            Some(point) => Some((point.to_montgomery().to_bytes(), point.is_small_order())),
            None => None,
        },
        Err(_) => None,
    }
}

/// Calls `ed25519_dalek::VerifyingKey::from_bytes`.  Claims, as its source
/// shows, that it accepts the bytes exactly when they decompress to an
/// Edwards point (small-order points included).
#[verifier::external_body]
pub(crate) fn ed25519_verifying_key_accepts(bytes: &[u8; 32]) -> (res: bool)
    ensures
        res == (edwards_to_montgomery(bytes@) is Some),
{
    ed25519_dalek::VerifyingKey::from_bytes(bytes).is_ok()
}

/// Calls `IsIdentity::is_identity` on `curve25519_dalek::MontgomeryPoint(u)`,
/// the check `x25519_dalek::SharedSecret::was_contributory` makes on a
/// Diffie-Hellman output.  Claims the result is `montgomery_is_identity(u)`
/// and, as the source's `identity()` is `MontgomeryPoint([0; 32])`, that
/// the all-zero encoding is the identity.
#[verifier::external_body]
pub(crate) fn montgomery_point_is_identity(u: &[u8; 32]) -> (res: bool)
    ensures
        res == montgomery_is_identity(u@),
        u@ == Seq::new(32, |i: int| 0u8) ==> res,
{
    curve25519_dalek::traits::IsIdentity::is_identity(&curve25519_dalek::montgomery::MontgomeryPoint(*u))
}

/// Calls `x25519_dalek::PublicKey::from(&StaticSecret::from(secret))`.
/// Claims the result is `x25519_public_key(secret)` and, as the crate's
/// documentation shows ("These secrets are the same"), that any other secret
/// combined with it gives what `secret` gives with that secret's public key.
#[verifier::external_body]
pub(crate) fn x25519_public_from_secret(secret: &[u8; 32]) -> (res: [u8; 32])
    ensures
        res@ == x25519_public_key(secret@),
        forall|other: Seq<u8>|
            other.len() == 32 ==> #[trigger] x25519_shared_secret(other, res@)
                == x25519_shared_secret(secret@, x25519_public_key(other)),
{
    x25519_dalek::PublicKey::from(&x25519_dalek::StaticSecret::from(*secret)).to_bytes()
}

/// Calls `x25519_dalek::StaticSecret::diffie_hellman`. Claims the result is
/// `x25519_shared_secret(secret, public)`.
#[verifier::external_body]
pub(crate) fn x25519_diffie_hellman(secret: &[u8; 32], public: &[u8; 32]) -> (res: [u8; 32])
    ensures
        res@ == x25519_shared_secret(secret@, public@),
{
    x25519_dalek::StaticSecret::from(*secret).diffie_hellman(
        &x25519_dalek::PublicKey::from(*public),
    ).to_bytes()
}

/// Calls `x25519_dalek::StaticSecret::random_from_rng(OsRng)`. The result is
/// random: nothing is claimed of it.  (Like every draw from `OsRng`, it
/// panics if the operating system's random source fails; no precondition
/// can rule that out.)
#[verifier::external_body]
pub(crate) fn x25519_random_secret() -> (res: [u8; 32]) {
    x25519_dalek::StaticSecret::random_from_rng(rand::rngs::OsRng).to_bytes()
}

/// Calls `rand::rngs::OsRng.fill_bytes`. The bytes are random: only the
/// length of the buffer is claimed to be kept.  (It panics if the operating
/// system's random source fails; no precondition can rule that out.)
#[verifier::external_body]
pub(crate) fn os_fill_bytes(dest: &mut [u8])
    ensures
        final(dest)@.len() == old(dest)@.len(),
{
    rand::rngs::OsRng.fill_bytes(dest)
}

/// Calls `hkdf::Hkdf::<Sha256>::new(salt, ikm)` and `expand(info, ..)` into
/// 32 bytes. Claims the expansion succeeds (the source rejects only outputs
/// longer than 255 blocks) and yields `hkdf_sha256(salt, ikm, info)`.
#[verifier::external_body]
pub(crate) fn hkdf_sha256_expand(salt: Option<&[u8]>, ikm: &[u8], info: &[u8]) -> (res: Option<
    [u8; 32],
>)
    ensures
        res is Some,
        res matches Some(okm) ==> okm@ == hkdf_sha256(opt_bytes(salt), ikm@, info@),
{
    let mut okm = [0u8; 32];
    match hkdf::Hkdf::<sha2::Sha256>::new(salt, ikm).expand(info, &mut okm) {
        Ok(()) => Some(okm),
        Err(_) => None,
    }
}

/// Calls `<Hmac<Sha256> as Mac>::new_from_slice(key)`, `update(data)` and
/// `finalize`. Claims success (the source accepts keys of any length) and
/// that the tag is `hmac_sha256(key, data)`.
#[verifier::external_body]
pub(crate) fn hmac_sha256_tag(key: &[u8], data: &[u8]) -> (res: Option<[u8; 32]>)
    ensures
        res is Some,
        res matches Some(tag) ==> tag@ == hmac_sha256(key@, data@),
{
    match <hmac::Hmac<sha2::Sha256> as Mac>::new_from_slice(key) {
        Ok(mut mac) => {
            mac.update(data);
            Some(mac.finalize().into_bytes().into())
        },
        Err(_) => None,
    }
}

/// Calls `ChaCha20Poly1305::encrypt` with `Payload { msg, aad }`. Claims, as
/// the source shows, that it fails exactly for messages of `64 * u32::MAX`
/// bytes or more, that the ciphertext is `chacha20poly1305_seal(..)` with a
/// 16-byte tag appended, and (AEAD correctness) that it opens to `msg` under
/// the same key, nonce and associated data.
#[verifier::external_body]
pub(crate) fn aead_seal(key: &[u8; 32], nonce: &[u8; 12], aad: &[u8], msg: &[u8]) -> (res: Option<
    Vec<u8>,
>)
    ensures
        res is Some <==> aead_accepts_len(msg@.len() as int),
        res matches Some(ct) ==> {
            &&& ct@ == chacha20poly1305_seal(key@, nonce@, aad@, msg@)
            &&& ct@.len() == msg@.len() + 16
            &&& chacha20poly1305_open(key@, nonce@, aad@, ct@) == Some(msg@)
        },
{
    let cipher = chacha20poly1305::ChaCha20Poly1305::new(&(*key).into());
    match cipher.encrypt(&(*nonce).into(), Payload { msg, aad }) {
        Ok(ct) => Some(ct),
        Err(_) => None,
    }
}

/// Calls `ChaCha20Poly1305::decrypt` with `Payload { msg: ct, aad }`. Claims
/// the result is `chacha20poly1305_open(key, nonce, aad, ct)`.
#[verifier::external_body]
pub(crate) fn aead_open(key: &[u8; 32], nonce: &[u8; 12], aad: &[u8], ct: &[u8]) -> (res: Option<
    Vec<u8>,
>)
    ensures
        match res {
            Some(pt) => chacha20poly1305_open(key@, nonce@, aad@, ct@) == Some(pt@),
            None => chacha20poly1305_open(key@, nonce@, aad@, ct@) is None,
        },
{
    let cipher = chacha20poly1305::ChaCha20Poly1305::new(&(*key).into());
    match cipher.decrypt(&(*nonce).into(), Payload { msg: ct, aad }) {
        Ok(pt) => Some(pt),
        Err(_) => None,
    }
}

/// Calls `argon2::Params::new(m_cost, t_cost, p_cost, Some(32))`,
/// `Argon2::new(Argon2id, V0x13, params)` and `hash_password_into`. Claims the
/// output is `argon2id_hash(..)` and, as the source's checks show, that it
/// succeeds exactly when the costs, the salt length (8 to 2^32 - 1 bytes) and
/// the password length (under 2^32 bytes) are in range.
#[verifier::external_body]
pub(crate) fn argon2id_derive(
    password: &[u8],
    salt: &[u8],
    m_cost: u32,
    t_cost: u32,
    p_cost: u32,
) -> (res: Option<[u8; 32]>)
    requires
        p_cost <= 0xff_ffff,
    ensures
        res matches Some(key) ==> key@ == argon2id_hash(password@, salt@, m_cost, t_cost, p_cost),
        res is Some <==> (8 <= m_cost && 8 * p_cost <= m_cost && 1 <= t_cost && 1 <= p_cost
            && 8 <= salt@.len() <= 0xffff_ffff && password@.len() <= 0xffff_ffff),
{
    let params = match argon2::Params::new(m_cost, t_cost, p_cost, Some(32)) {
        Ok(p) => p,
        Err(_) => return None,
    };
    let hasher = argon2::Argon2::new(argon2::Algorithm::Argon2id, argon2::Version::V0x13, params);
    let mut key = [0u8; 32];
    match hasher.hash_password_into(password, salt, &mut key) {
        Ok(()) => Some(key),
        Err(_) => None,
    }
}

/// Calls `bs58::encode(data).into_string()`. Claims the result is
/// `base58_encode(data)`, that Base58 decoding gives `data` back, and that a
/// non-empty input has a non-empty encoding.
#[verifier::external_body]
pub(crate) fn base58_encode_string(data: &[u8]) -> (res: String)
    ensures
        res@ == base58_encode(data@),
        base58_decode(res@) == Some(data@),
        data@.len() > 0 ==> res@.len() > 0,
{
    bs58::encode(data).into_string()
}

/// Calls `bs58::decode(text).into_vec()`. Claims the result is
/// `base58_decode(text)`.
#[verifier::external_body]
pub(crate) fn base58_decode_vec(text: &str) -> (res: Option<Vec<u8>>)
    ensures
        match res {
            Some(v) => base58_decode(text@) == Some(v@),
            None => base58_decode(text@) is None,
        },
{
    match bs58::decode(text).into_vec() {
        Ok(v) => Some(v),
        Err(_) => None,
    }
}

/// Calls `bip39::Mnemonic::from_entropy(entropy)`. Claims, as the source
/// checks, that it succeeds exactly for 16 to 32 bytes in steps of 4.
#[verifier::external_body]
pub(crate) fn bip39_entropy_accepted(entropy: &[u8]) -> (res: bool)
    ensures
        res == valid_entropy_len(entropy@.len() as int),
{
    bip39::Mnemonic::from_entropy(entropy).is_ok()
}

/// Calls `bip39::Mnemonic::word_count` on the mnemonic of `entropy`. Claims,
/// per BIP39, three words per four bytes of entropy.
#[verifier::external_body]
pub(crate) fn bip39_word_count(entropy: &[u8]) -> (res: usize)
    requires
        valid_entropy_len(entropy@.len() as int),
    ensures
        res == entropy@.len() * 3 / 4,
{
    match bip39::Mnemonic::from_entropy(entropy) {
        Ok(m) => m.word_count(),
        Err(_) => 0,
    }
}

/// Calls `bip39::Mnemonic::to_seed(passphrase)` on the mnemonic of `entropy`.
/// Claims the result is `bip39_seed(entropy, passphrase)`.
#[verifier::external_body]
pub(crate) fn bip39_to_seed(entropy: &[u8], passphrase: &str) -> (res: [u8; 64])
    requires
        valid_entropy_len(entropy@.len() as int),
    ensures
        res@ == bip39_seed(entropy@, passphrase@),
{
    match bip39::Mnemonic::from_entropy(entropy) {
        Ok(m) => m.to_seed(passphrase),
        Err(_) => [0u8; 64],
    }
}

/// Calls `bip39::Mnemonic::to_string` on the mnemonic of `entropy`. Claims the
/// result is `bip39_phrase(entropy)`.
#[verifier::external_body]
pub(crate) fn bip39_to_phrase(entropy: &[u8]) -> (res: String)
    requires
        valid_entropy_len(entropy@.len() as int),
    ensures
        res@ == bip39_phrase(entropy@),
{
    match bip39::Mnemonic::from_entropy(entropy) {
        Ok(m) => m.to_string(),
        Err(_) => String::new(),
    }
}

/// Calls `bip39::Mnemonic::parse(phrase)` and `to_entropy`. Claims the result
/// is `bip39_entropy_of(phrase)` and, as the source's word-count check shows,
/// that accepted entropy has a valid length.
#[verifier::external_body]
pub(crate) fn bip39_parse_phrase(phrase: &str) -> (res: Option<Vec<u8>>)
    ensures
        match res {
            Some(e) => bip39_entropy_of(phrase@) == Some(e@) && valid_entropy_len(e@.len() as int),
            None => bip39_entropy_of(phrase@) is None,
        },
{
    match bip39::Mnemonic::parse(phrase) {
        Ok(m) => Some(m.to_entropy()),
        Err(_) => None,
    }
}

/// Calls `zeroize::Zeroize::zeroize` on a byte slice. Claims every byte is
/// then zero.
#[verifier::external_body]
pub(crate) fn zeroize_bytes(buf: &mut [u8])
    ensures
        final(buf)@ == Seq::new(old(buf)@.len(), |i: int| 0u8),
{
    buf.zeroize()
}

/// Calls `zeroize::Zeroize::zeroize` on a byte vector. Claims the vector is
/// then empty (its contents are wiped and it is cleared).
#[verifier::external_body]
pub(crate) fn zeroize_vec(buf: &mut Vec<u8>)
    ensures
        final(buf)@.len() == 0,
{
    buf.zeroize()
}

} // verus!
