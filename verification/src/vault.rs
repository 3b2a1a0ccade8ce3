//! Vault: password-based encryption for sensitive user data.
//!
//! Argon2id (64 MiB memory, 3 iterations, 4 lanes) derives a 256-bit key
//! from the password and a fresh random salt; ChaCha20-Poly1305 encrypts
//! with a fresh random nonce.  The wire format is
//! `salt (16 B) || nonce (12 B) || ciphertext+tag`.
//!
//! [`encrypt`] ensures that [`decrypt`] with the same password gives the
//! plaintext back.
use vstd::prelude::*;

use vstd::string::StringSliceAdditionalSpecFns;

use crate::byteutil::{append_bytes, array12_at, array16_at};
use crate::primitives::{
    aead_accepts_len, aead_open, aead_seal, argon2id_derive, argon2id_hash, chacha20poly1305_open,
    chacha20poly1305_seal, os_fill_bytes, zeroize_bytes,
};

verus! {

/// Errors that can occur during vault operations.
#[derive(Debug, PartialEq, Eq, Structural)]
pub enum VaultError {
    /// Key derivation or AEAD encryption failed.
    EncryptionFailed,
    /// The input is too short to hold the salt and nonce.
    DecryptionFailed,
    /// The password is wrong or the ciphertext has been tampered with.
    InvalidPassword,
}

/// Argon2id memory cost in kibibytes (64 MiB).
pub const ARGON2_M_COST: u32 = 65536;
/// Argon2id time cost (iterations).
pub const ARGON2_T_COST: u32 = 3;
/// Argon2id parallelism (lanes).
pub const ARGON2_P_COST: u32 = 4;
/// Salt length in bytes.
pub const SALT_LENGTH: usize = 16;
/// Nonce length in bytes.
pub const NONCE_LENGTH: usize = 12;

/// Length of the vault header: salt and nonce.
pub open spec fn header_len() -> int {
    28
}

/// Argon2id accepts the password: it is shorter than 2^32 bytes.
pub open spec fn password_accepted(password: Seq<u8>) -> bool {
    password.len() <= 0xffff_ffff
}

/// The key the vault derives from a password and a salt.
pub open spec fn vault_key(password: Seq<u8>, salt: Seq<u8>) -> Seq<u8> {
    argon2id_hash(password, salt, ARGON2_M_COST, ARGON2_T_COST, ARGON2_P_COST)
}

/// The vault ciphertext of `pt` under `password` with the given salt and
/// nonce.
pub open spec fn vault_sealed(pt: Seq<u8>, password: Seq<u8>, salt: Seq<u8>, nonce: Seq<u8>) -> Seq<
    u8,
> {
    salt + nonce + chacha20poly1305_seal(vault_key(password, salt), nonce, Seq::empty(), pt)
}

/// What [`decrypt`] gives for the vault ciphertext `ct` and the password's
/// bytes.
pub open spec fn vault_opened(ct: Seq<u8>, password: Seq<u8>) -> Result<Seq<u8>, VaultError> {
    if ct.len() < header_len() {
        Err(VaultError::DecryptionFailed)
    } else if !password_accepted(password) {
        Err(VaultError::EncryptionFailed)
    } else {
        match chacha20poly1305_open(
            vault_key(password, ct.subrange(0, 16)),
            ct.subrange(16, 28),
            Seq::empty(),
            ct.subrange(28, ct.len() as int),
        ) {
            Some(pt) => Ok(pt),
            None => Err(VaultError::InvalidPassword),
        }
    }
}

/// The vault key is Argon2id (64 MiB, 3 iterations, 4 lanes) of the
/// password's bytes exactly as given, so decryption opens the AEAD under
/// that key: passwords whose bytes differ (in letter case, say) give
/// different Argon2id inputs.
pub proof fn lemma_vault_key_is_argon2id_of_password(password: Seq<u8>, ct: Seq<u8>)
    requires
        ct.len() >= 28,
        password_accepted(password),
    ensures
        vault_key(password, ct.subrange(0, 16)) == argon2id_hash(
            password,
            ct.subrange(0, 16),
            65536,
            3,
            4,
        ),
        vault_opened(ct, password) == match chacha20poly1305_open(
            argon2id_hash(password, ct.subrange(0, 16), 65536, 3, 4),
            ct.subrange(16, 28),
            Seq::empty(),
            ct.subrange(28, ct.len() as int),
        ) {
            Some(pt) => Ok::<Seq<u8>, VaultError>(pt),
            None => Err(VaultError::InvalidPassword),
        },
{
}

/// View of a decryption result.
pub open spec fn result_view(res: Result<Vec<u8>, VaultError>) -> Result<Seq<u8>, VaultError> {
    match res {
        Ok(v) => Ok(v@),
        Err(e) => Err(e),
    }
}

/// Encrypts `plaintext` with `password`: a fresh random salt and nonce, the
/// Argon2id key of the password and salt, then ChaCha20-Poly1305.  Returns
/// `salt || nonce || ciphertext+tag`.
///
/// It succeeds exactly when the password is shorter than 2^32 bytes and the
/// plaintext is within the AEAD's limit; then the output is 44 bytes longer
/// than the plaintext and [`decrypt`] with the same password gives the
/// plaintext back.
pub fn encrypt(plaintext: &[u8], password: &str) -> (res: Result<Vec<u8>, VaultError>)
    ensures
        res is Ok <==> (password_accepted(password.spec_bytes()) && aead_accepts_len(
            plaintext@.len() as int,
        )),
        match res {
            Ok(ct) => {
                &&& ct@ == vault_sealed(
                    plaintext@,
                    password.spec_bytes(),
                    ct@.subrange(0, 16),
                    ct@.subrange(16, 28),
                )
                &&& ct@.len() == plaintext@.len() + 44
                &&& vault_opened(ct@, password.spec_bytes()) == Ok::<Seq<u8>, VaultError>(
                    plaintext@,
                )
            },
            Err(e) => e == VaultError::EncryptionFailed,
        },
{
    let mut salt = [0u8; 16];
    os_fill_bytes(&mut salt);
    let mut nonce_bytes = [0u8; 12];
    os_fill_bytes(&mut nonce_bytes);

    let mut key = match derive_key(password, &salt) {
        Ok(k) => k,
        Err(e) => return Err(e),
    };
    let empty: [u8; 0] = [];
    let ciphertext = match aead_seal(&key, &nonce_bytes, &empty, plaintext) {
        Some(c) => c,
        None => return Err(VaultError::EncryptionFailed),
    };

    // Assemble: salt || nonce || ciphertext
    let mut output: Vec<u8> = Vec::with_capacity(
        ciphertext.len().saturating_add(SALT_LENGTH + NONCE_LENGTH),
    );
    append_bytes(&mut output, &salt);
    append_bytes(&mut output, &nonce_bytes);
    append_bytes(&mut output, ciphertext.as_slice());

    // Wipe the derived key.
    zeroize_bytes(&mut key);

    proof {
        assert(empty@ =~= Seq::<u8>::empty());
        assert(output@.subrange(0, 16) =~= salt@);
        assert(output@.subrange(16, 28) =~= nonce_bytes@);
        assert(output@.subrange(28, output@.len() as int) =~= ciphertext@);
    }
    Ok(output)
}

/// Decrypts `ciphertext` (produced by [`encrypt`]) with `password`: the salt
/// and nonce are read from its head, the key is derived again, and the rest
/// is opened by ChaCha20-Poly1305.
///
/// Returns `DecryptionFailed` for an input shorter than 28 bytes,
/// `InvalidPassword` when authentication fails (wrong password or tampered
/// data), and the plaintext otherwise; see [`vault_opened`].
pub fn decrypt(ciphertext: &[u8], password: &str) -> (res: Result<Vec<u8>, VaultError>)
    ensures
        result_view(res) == vault_opened(ciphertext@, password.spec_bytes()),
{
    let header_size = SALT_LENGTH + NONCE_LENGTH;
    if ciphertext.len() < header_size {
        return Err(VaultError::DecryptionFailed);
    }
    let salt_array = array16_at(ciphertext, 0);
    let nonce = array12_at(ciphertext, SALT_LENGTH);
    let encrypted = &ciphertext[header_size..ciphertext.len()];

    let mut key = match derive_key(password, &salt_array) {
        Ok(k) => k,
        Err(e) => return Err(e),
    };
    let empty: [u8; 0] = [];
    assert(empty@ =~= Seq::<u8>::empty());
    let plaintext = match aead_open(&key, &nonce, &empty, encrypted) {
        Some(p) => p,
        None => return Err(VaultError::InvalidPassword),
    };

    // Wipe the derived key.
    zeroize_bytes(&mut key);

    Ok(plaintext)
}

/// Derives the 256-bit AEAD key from a password and salt with Argon2id
/// (64 MiB, 3 iterations, 4 lanes).  Fails with `EncryptionFailed` exactly
/// when the password is too long for Argon2.
fn derive_key(password: &str, salt: &[u8; 16]) -> (res: Result<[u8; 32], VaultError>)
    ensures
        res is Ok <==> password_accepted(password.spec_bytes()),
        match res {
            Ok(k) => k@ == vault_key(password.spec_bytes(), salt@),
            Err(e) => e == VaultError::EncryptionFailed,
        },
        res matches Ok(k) ==> k@ == argon2id_hash(password.spec_bytes(), salt@, 65536, 3, 4),
{
    match argon2id_derive(password.as_bytes(), salt, ARGON2_M_COST, ARGON2_T_COST, ARGON2_P_COST) {
        Some(k) => Ok(k),
        None => Err(VaultError::EncryptionFailed),
    }
}

} // verus!
