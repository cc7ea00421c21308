//! Threshold signatures and threshold encryption over the BLS12-381 pairing.
//!
//! A dealer draws a secret polynomial of degree `t`; its value at zero is the master secret key
//! and its values at `i + 1` are the key shares. Any `t + 1` signature or decryption shares are
//! combined by Lagrange interpolation at zero into the master signature or the plaintext.

pub mod display;
pub mod error;
pub mod field;
pub mod group;
pub mod hash;
pub mod interpolate;
pub mod keys;
pub mod laws;
pub mod poly;
pub mod sets;

pub use error::Error;
pub use field::Scalar;
pub use group::{G1, G2};
pub use hash::{hash_g1_g2, hash_g2, xor_with_hash};
pub use interpolate::{interpolate, interpolate_g2};
pub use keys::{
    Ciphertext, DecryptionShare, PublicKey, PublicKeyShare, SecretKey, SecretKeyShare, Signature,
    SignatureShare,
};
pub use poly::{Commitment, Poly};
pub use sets::{PublicKeySet, SecretKeySet};
