//! Presidium cryptographic primitives: identities, X3DH key agreement,
//! the Double Ratchet and a password-protected vault, with their contracts
//! proved by Verus.
use vstd::prelude::*;

mod byteutil;
pub mod identity;
pub mod keys;
pub mod primitives;
pub mod ratchet;
pub mod vault;
pub mod x3dh;

verus! {

/// Accepts any byte string and does nothing with it; it exists so that fuzzing
/// harnesses have a trivial entry point.
pub fn dummy_function(_data: &[u8]) {
}

} // verus!
