//! Laws relating signing to verification and encryption to decryption.

use crate::field::modulus;
use crate::hash::{hash_g2_log, xor_bytes};
use crate::interpolate::is_field_inv;
use crate::keys::{Ciphertext, PublicKey, SecretKey};
use crate::sets::{PublicKeySet, SecretKeySet};
use vstd::arithmetic::div_mod::{lemma_mul_mod_noop_left, lemma_mul_mod_noop_right};
use vstd::prelude::*;

verus! {

/// Multiplying both sides by an invertible factor can be undone:
/// `a·h ≡ b·h` with `h` invertible gives `a ≡ b`.
proof fn lemma_cancel_factor(a: int, b: int, h: int, hinv: int)
    requires
        is_field_inv(h, hinv),
        (a * h) % modulus() == (b * h) % modulus(),
    ensures
        a % modulus() == b % modulus(),
{
    let m = modulus();
    lemma_mul_mod_noop_left(a * h, hinv, m);
    lemma_mul_mod_noop_left(b * h, hinv, m);
    assert((a * h) * hinv == a * (h * hinv)) by (nonlinear_arith);
    assert((b * h) * hinv == b * (h * hinv)) by (nonlinear_arith);
    lemma_mul_mod_noop_right(a, h * hinv, m);
    lemma_mul_mod_noop_right(b, h * hinv, m);
    assert(a * 1 == a);
    assert(b * 1 == b);
}

/// A signature made with a secret key verifies, under the matching public key, for the message
/// that was signed.
pub proof fn lemma_signature_verifies(sk: &SecretKey, pk: &PublicKey, msg: Seq<u8>)
    requires
        pk.log() == sk.value(),
    ensures
        pk.accepts(sk.signature_log(msg), msg),
{
    assert(pk.log() * hash_g2_log(msg) == hash_g2_log(msg) * sk.value()) by (nonlinear_arith)
        requires
            pk.log() == sk.value(),
    ;
}

/// A signature made with another secret key does not verify. (The message's hash is invertible
/// as every non-zero element of the prime field is; that fact is taken here as a premise.)
pub proof fn lemma_other_key_rejected(sk: &SecretKey, other: &SecretKey, pk: &PublicKey, msg: Seq<u8>)
    requires
        sk.wf(),
        other.wf(),
        pk.log() == sk.value(),
        sk.value() != other.value(),
        exists|v: int| is_field_inv(hash_g2_log(msg), v),
    ensures
        !pk.accepts(other.signature_log(msg), msg),
{
    let h = hash_g2_log(msg);
    let hinv = choose|v: int| is_field_inv(h, v);
    if pk.accepts(other.signature_log(msg), msg) {
        assert(h * other.value() == other.value() * h) by (nonlinear_arith);
        lemma_cancel_factor(sk.value(), other.value(), h, hinv);
        assert(sk.value() % modulus() == sk.value());
        assert(other.value() % modulus() == other.value());
    }
}

/// A signature of one message does not verify for a message of another hash, under a key with
/// a non-zero (invertible) secret.
pub proof fn lemma_other_message_rejected(sk: &SecretKey, pk: &PublicKey, msg: Seq<u8>, other: Seq<u8>)
    requires
        pk.log() == sk.value(),
        exists|v: int| is_field_inv(sk.value(), v),
        hash_g2_log(msg) % modulus() != hash_g2_log(other) % modulus(),
    ensures
        !pk.accepts(sk.signature_log(other), msg),
{
    let s = sk.value();
    let sinv = choose|v: int| is_field_inv(s, v);
    if pk.accepts(sk.signature_log(other), msg) {
        assert(s * hash_g2_log(msg) == hash_g2_log(msg) * s) by (nonlinear_arith);
        lemma_cancel_factor(hash_g2_log(msg), hash_g2_log(other), s, sinv);
    }
}

/// Masking twice with the same keystream gives the bytes back.
pub proof fn lemma_xor_twice(a: Seq<u8>, k: Seq<u8>)
    ensures
        xor_bytes(xor_bytes(a, k), k) == a,
{
    assert forall|i: int| 0 <= i < a.len() implies #[trigger] xor_bytes(xor_bytes(a, k), k)[i]
        == a[i] by {
        let x = a[i];
        let y = k[i];
        assert((x ^ y) ^ y == x) by (bit_vector);
    }
    assert(xor_bytes(xor_bytes(a, k), k) =~= a);
}

/// Decrypting what was encrypted for a secret key's public key gives the message back.
pub proof fn lemma_decrypt_inverts_encrypt(sk: &SecretKey, ct: &Ciphertext, msg: Seq<u8>)
    requires
        ct.valid(),
        ct.encrypts(sk.value(), msg),
    ensures
        sk.decryption(ct) == Some(msg),
{
    assert(ct.u_log() * sk.value() == sk.value() * ct.u_log()) by (nonlinear_arith);
    let g = crate::group::g1_encoding((sk.value() * ct.u_log()) % modulus());
    let ks = crate::hash::keystream(
        crate::hash::digest_seed(crate::hash::sha3_digest(g)),
        msg.len(),
    );
    lemma_xor_twice(msg, ks);
}

/// A key set's public keys agree with its secret keys: the public key share of every index is
/// the lift of the secret key share, and the master public key the lift of the master secret.
pub proof fn lemma_key_sets_agree(sks: &SecretKeySet, pks: &PublicKeySet, i: int)
    requires
        sks.wf(),
        pks.commitment().logs() == sks.polynomial().values(),
    ensures
        pks.commitment().log_at(i + 1) == sks.polynomial().value_at(i + 1),
        pks.commitment().log_at(0) == sks.polynomial().value_at(0),
{
}

} // verus!
