# presidium-crypto

Cryptographic building blocks of Presidium, written in Verus:

- `identity` — Ed25519 identities backed by a 24-word BIP39 mnemonic, and
  their `did:presidium:<base58 key>` identifiers;
- `x3dh` — X3DH key agreement between an initiator and a prekey bundle;
- `ratchet` — the Double Ratchet session (`RatchetState`), specified over an
  abstract model (`RatchetModel`) with a proved delivery law;
- `vault` — password-based encryption (Argon2id and ChaCha20-Poly1305);
- `keys` — Ed25519 and X25519 key types held as bytes;
- `primitives` — the trusted interface to the outside crates (hashes, KDFs,
  AEAD, curve operations, Base58, BIP39, randomness, zeroization).

`app/` holds copies of the error types with `thiserror` derives.
