//! Identity management: Ed25519 signing key, DID, BIP39 seed phrase.
//!
//! An identity is an Ed25519 key pair tied to a Decentralized Identifier
//! `did:presidium:<base58 public key>`, backed by a 24-word BIP39 mnemonic.
//! The signing key is the first 32 bytes of the mnemonic's BIP39 seed (empty
//! passphrase), so an identity is determined by its mnemonic
//! ([`lemma_identity_determined_by_seed`]), and [`parse_did`] gives back the
//! public key of an identity's DID ([`Identity::did`]).
use vstd::prelude::*;

use crate::byteutil::{append_bytes, array32_at};
use crate::keys::{SigningKey, VerifyingKey};
use crate::primitives::{
    base58_decode, base58_decode_vec, base58_encode, base58_encode_string, bip39_entropy_accepted,
    bip39_entropy_of, bip39_parse_phrase, bip39_phrase, bip39_seed, bip39_to_phrase,
    bip39_to_seed, bip39_word_count, ed25519_public_key, os_fill_bytes, valid_entropy_len,
};

verus! {

/// Errors that can occur during identity operations.
#[derive(Debug, PartialEq, Eq, Structural)]
pub enum IdentityError {
    /// The seed phrase has the wrong word count (expected 24); holds the count.
    InvalidSeedPhrase(usize),
}

/// A BIP39 mnemonic (English word list), held as its entropy.
pub struct Mnemonic {
    entropy: Vec<u8>,
}

impl View for Mnemonic {
    type V = Seq<u8>;

    closed spec fn view(&self) -> Seq<u8> {
        self.entropy@
    }
}

/// The number of words of the mnemonic of `entropy`.
pub open spec fn word_count_of(entropy: Seq<u8>) -> int {
    (entropy.len() * 3 / 4) as int
}

impl Mnemonic {
    /// The entropy has a length BIP39 accepts (12 to 24 words).
    #[verifier::type_invariant]
    pub open spec fn wf(&self) -> bool {
        valid_entropy_len(self@.len() as int)
    }

    /// The mnemonic of `entropy`; `None` unless it has 16 to 32 bytes in
    /// steps of 4.
    pub fn from_entropy(entropy: &[u8]) -> (res: Option<Mnemonic>)
        ensures
            res is Some <==> valid_entropy_len(entropy@.len() as int),
            res matches Some(m) ==> m@ == entropy@,
    {
        if bip39_entropy_accepted(entropy) {
            let mut v: Vec<u8> = Vec::new();
            append_bytes(&mut v, entropy);
            Some(Mnemonic { entropy: v })
        } else {
            None
        }
    }

    /// Parses an English mnemonic phrase; `None` when it is not a valid
    /// mnemonic (word count, unknown word or checksum).
    pub fn parse(phrase: &str) -> (res: Option<Mnemonic>)
        ensures
            match res {
                Some(m) => bip39_entropy_of(phrase@) == Some(m@),
                None => bip39_entropy_of(phrase@) is None,
            },
    {
        match bip39_parse_phrase(phrase) {
            Some(e) => Some(Mnemonic { entropy: e }),
            None => None,
        }
    }

    /// The number of words: three per four bytes of entropy.
    pub fn word_count(&self) -> (res: usize)
        ensures
            res == word_count_of(self@),
    {
        proof {
            use_type_invariant(self);
        }
        bip39_word_count(self.entropy.as_slice())
    }

    /// The 64-byte BIP39 seed with the given passphrase.
    pub fn to_seed(&self, passphrase: &str) -> (res: [u8; 64])
        ensures
            res@ == bip39_seed(self@, passphrase@),
    {
        proof {
            use_type_invariant(self);
        }
        bip39_to_seed(self.entropy.as_slice(), passphrase)
    }

    /// The phrase: the words separated by spaces.
    pub fn to_phrase(&self) -> (res: String)
        ensures
            res@ == bip39_phrase(self@),
    {
        proof {
            use_type_invariant(self);
        }
        bip39_to_phrase(self.entropy.as_slice())
    }

    /// The entropy.
    pub fn to_entropy(&self) -> (res: Vec<u8>)
        ensures
            res@ == self@,
            valid_entropy_len(res@.len() as int),
    {
        proof {
            use_type_invariant(self);
        }
        let mut v: Vec<u8> = Vec::new();
        append_bytes(&mut v, self.entropy.as_slice());
        v
    }
}

/// The DID prefix `did:presidium:`.
pub open spec fn did_prefix() -> Seq<char> {
    seq!['d', 'i', 'd', ':', 'p', 'r', 'e', 's', 'i', 'd', 'i', 'u', 'm', ':']
}

/// The DID of a public key: the prefix and the key in Base58.
pub open spec fn did_of(public_key: Seq<u8>) -> Seq<char> {
    did_prefix() + base58_encode(public_key)
}

/// The Ed25519 seed of an identity recovered from a mnemonic: the first 32
/// bytes of its BIP39 seed with an empty passphrase.
pub open spec fn seed_of_mnemonic(entropy: Seq<u8>) -> Seq<u8> {
    bip39_seed(entropy, Seq::empty()).subrange(0, 32)
}

/// What [`parse_did`] gives: the 32-byte key of a DID with the right prefix
/// and a non-empty Base58 payload that decodes to exactly 32 bytes.
pub open spec fn parsed_did(did: Seq<char>) -> Option<Seq<u8>> {
    if did.len() > 14 && did.subrange(0, 14) == did_prefix() {
        match base58_decode(did.subrange(14, did.len() as int)) {
            Some(b) => if b.len() == 32 {
                Some(b)
            } else {
                None
            },
            None => None,
        }
    } else {
        None
    }
}

/// A Presidium identity: Ed25519 signing key, its verifying key and DID.
pub struct Identity {
    signing_key: SigningKey,
    verifying_key: VerifyingKey,
    did: String,
}

impl Identity {
    /// The Ed25519 seed of the signing key.
    pub closed spec fn seed(&self) -> Seq<u8> {
        self.signing_key.seed()
    }

    /// The public key.
    pub closed spec fn public_key(&self) -> Seq<u8> {
        self.verifying_key@
    }

    /// The DID string.
    pub closed spec fn did_text(&self) -> Seq<char> {
        self.did@
    }

    /// The signing key.
    pub closed spec fn signing(&self) -> SigningKey {
        self.signing_key
    }

    /// Validity: the public key is the one of the seed, the DID is built
    /// from the public key, and its Base58 payload decodes back to the key.
    #[verifier::type_invariant]
    pub open spec fn wf(&self) -> bool {
        &&& self.signing().wf()
        &&& self.signing().seed() == self.seed()
        &&& self.signing().public_key() == self.public_key()
        &&& self.public_key() == ed25519_public_key(self.seed())
        &&& self.public_key().len() == 32
        &&& self.did_text() == did_of(self.public_key())
        &&& base58_encode(self.public_key()).len() > 0
        &&& base58_decode(base58_encode(self.public_key())) == Some(self.public_key())
    }

    /// A new random identity and its 24-word mnemonic.  The entropy comes
    /// from the operating system's random source; the identity is the one
    /// [`Identity::recover`] gives for the mnemonic.
    pub fn generate() -> (res: (Identity, Mnemonic))
        ensures
            word_count_of(res.1@) == 24,
            res.0.seed() == seed_of_mnemonic(res.1@),
            res.0.wf(),
    {
        let mut entropy = [0u8; 32];
        os_fill_bytes(&mut entropy);
        let mut words: Vec<u8> = Vec::new();
        append_bytes(&mut words, &entropy);
        assert(valid_entropy_len(words@.len() as int));
        let mnemonic = Mnemonic { entropy: words };
        let identity = Self::from_mnemonic_internal(&mnemonic);
        (identity, mnemonic)
    }

    /// Recovers an identity from a 24-word mnemonic.  Shorter mnemonics are
    /// rejected with their word count: Presidium requires 256 bits of
    /// entropy.
    pub fn recover(mnemonic: &Mnemonic) -> (res: Result<Identity, IdentityError>)
        ensures
            match res {
                Ok(id) => word_count_of(mnemonic@) == 24 && id.seed() == seed_of_mnemonic(
                    mnemonic@,
                ) && id.wf(),
                Err(IdentityError::InvalidSeedPhrase(wc)) => wc == word_count_of(mnemonic@) && wc
                    != 24,
            },
    {
        let wc = mnemonic.word_count();
        if wc != 24 {
            return Err(IdentityError::InvalidSeedPhrase(wc));
        }
        Ok(Self::from_mnemonic_internal(mnemonic))
    }

    /// The public (verifying) key bytes.
    pub fn public_key_bytes(&self) -> (res: [u8; 32])
        ensures
            res@ == self.public_key(),
    {
        self.verifying_key.to_bytes()
    }

    /// The DID, `did:presidium:<base58 public key>`; [`parse_did`] gives the
    /// public key back from it.
    pub fn did(&self) -> (res: &str)
        ensures
            res@ == self.did_text(),
            res@ == did_of(self.public_key()),
            parsed_did(res@) == Some(self.public_key()),
    {
        proof {
            use_type_invariant(self);
            lemma_parse_own_did(self.public_key());
        }
        self.did.as_str()
    }

    /// The signing key.
    pub fn signing_key(&self) -> (res: &SigningKey)
        ensures
            res.seed() == self.seed(),
            res.public_key() == self.public_key(),
    {
        proof {
            use_type_invariant(self);
        }
        &self.signing_key
    }

    /// The verifying key.
    pub fn verifying_key(&self) -> (res: &VerifyingKey)
        ensures
            res@ == self.public_key(),
    {
        &self.verifying_key
    }

    /// The identity of a mnemonic: the signing key of the first 32 bytes of
    /// its BIP39 seed (empty passphrase), and the DID of its public key.
    fn from_mnemonic_internal(mnemonic: &Mnemonic) -> (res: Identity)
        ensures
            res.seed() == seed_of_mnemonic(mnemonic@),
            res.wf(),
    {
        let passphrase = "";
        proof {
            reveal_strlit("");
        }
        assert(passphrase@ =~= Seq::<char>::empty());
        let seed = mnemonic.to_seed(passphrase);
        let sk_bytes = array32_at(&seed, 0);
        let signing_key = SigningKey::from_bytes(&sk_bytes);
        let verifying_key = signing_key.verifying_key();
        let did = Self::build_did(&verifying_key);
        Identity { signing_key, verifying_key, did }
    }

    /// The DID of a verifying key; the Base58 payload decodes back to it.
    fn build_did(vk: &VerifyingKey) -> (res: String)
        ensures
            res@ == did_of(vk@),
            base58_encode(vk@).len() > 0,
            base58_decode(base58_encode(vk@)) == Some(vk@),
    {
        let encoded = base58_encode_string(vk.as_bytes());
        let prefix = "did:presidium:";
        proof {
            reveal_strlit("did:presidium:");
        }
        assert(prefix@ =~= did_prefix());
        let mut did = prefix.to_owned();
        did.append(encoded.as_str());
        did
    }
}

impl Clone for Identity {
    fn clone(&self) -> (res: Self)
        ensures
            res.seed() == self.seed(),
            res.public_key() == self.public_key(),
            res.did_text() == self.did_text(),
    {
        proof {
            use_type_invariant(self);
        }
        Identity {
            signing_key: self.signing_key.clone(),
            verifying_key: self.verifying_key,
            did: self.did.clone(),
        }
    }
}

/// Parsing a DID is exact: a key comes out only for `did:presidium:`
/// followed by a payload whose Base58 decoding is exactly that key, 32 bytes
/// long; a payload decoding to any other length gives `None`, never a
/// shortened or padded key.
pub proof fn lemma_parsed_did_exact(did: Seq<char>)
    ensures
        parsed_did(did) matches Some(pk) ==> {
            &&& did.len() > 14
            &&& did.subrange(0, 14) == did_prefix()
            &&& base58_decode(did.subrange(14, did.len() as int)) == Some(pk)
            &&& pk.len() == 32
        },
        did.len() > 14 && did.subrange(0, 14) == did_prefix() ==> match base58_decode(
            did.subrange(14, did.len() as int),
        ) {
            Some(b) => (b.len() == 32 ==> parsed_did(did) == Some(b)) && (b.len() != 32
                ==> parsed_did(did) is None),
            None => parsed_did(did) is None,
        },
{
}

/// The DID of a 32-byte public key whose Base58 encoding is non-empty and
/// decodes back to it parses to that key.
pub proof fn lemma_parse_own_did(public_key: Seq<u8>)
    requires
        public_key.len() == 32,
        base58_encode(public_key).len() > 0,
        base58_decode(base58_encode(public_key)) == Some(public_key),
    ensures
        parsed_did(did_of(public_key)) == Some(public_key),
{
    let d = did_of(public_key);
    assert(d.subrange(0, 14) =~= did_prefix());
    assert(d.subrange(14, d.len() as int) =~= base58_encode(public_key));
}

/// An identity is determined by its seed (and so by its mnemonic): two valid
/// identities with the same seed have the same public key and DID.
pub proof fn lemma_identity_determined_by_seed(a: Identity, b: Identity)
    requires
        a.wf(),
        b.wf(),
        a.seed() == b.seed(),
    ensures
        a.public_key() == b.public_key(),
        a.did_text() == b.did_text(),
{
}

/// Parses a DID and extracts the 32-byte public key: `Some` exactly when the
/// DID is `did:presidium:` followed by a non-empty Base58 payload that
/// decodes to 32 bytes.
pub fn parse_did(did: &str) -> (res: Option<[u8; 32]>)
    ensures
        match res {
            Some(pk) => parsed_did(did@) == Some(pk@),
            None => parsed_did(did@) is None,
        },
        res matches Some(pk) ==> base58_decode(did@.subrange(14, did@.len() as int)) == Some(
            pk@,
        ),
{
    let n = did.unicode_len();
    let prefix = "did:presidium:";
    proof {
        reveal_strlit("did:presidium:");
    }
    assert(prefix@ =~= did_prefix());
    if n <= 14 {
        return None;
    }
    let mut i: usize = 0;
    while i < 14
        invariant
            i <= 14,
            n == did@.len(),
            n > 14,
            prefix@ == did_prefix(),
            forall|j: int| 0 <= j < i ==> did@[j] == did_prefix()[j],
        decreases 14 - i,
    {
        if did.get_char(i) != prefix.get_char(i) {
            assert(did@.subrange(0, 14)[i as int] != did_prefix()[i as int]);
            return None;
        }
        i = i + 1;
    }
    assert(did@.subrange(0, 14) =~= did_prefix());
    let encoded = did.substring_char(14, n);
    let bytes = match base58_decode_vec(encoded) {
        Some(b) => b,
        None => return None,
    };
    if bytes.len() != 32 {
        return None;
    }
    Some(array32_at(bytes.as_slice(), 0))
}

} // verus!
