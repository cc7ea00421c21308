//! Hashing into `G2`, and the keystream that masks encrypted messages.
//!
//! Each construction hashes its input with SHA3-256, reads the digest as eight big-endian
//! 32-bit words, and seeds a ChaCha generator with them.

use crate::group::{g2_log_is, G1, G2};
use pairing::{CurveAffine, CurveProjective};
use rand::{ChaChaRng, Rng, SeedableRng};
use vstd::prelude::*;

verus! {

/// The SHA3-256 digest of `b`.
pub uninterp spec fn sha3_digest(b: Seq<u8>) -> Seq<u8>;

/// The compressed encoding of the `G2` element that a ChaCha generator seeded with `seed` draws.
pub uninterp spec fn seeded_g2(seed: Seq<u32>) -> Seq<u8>;

/// The first `n` bytes that a ChaCha generator seeded with `seed` draws.
pub uninterp spec fn keystream(seed: Seq<u32>, n: nat) -> Seq<u8>;

/// The `i`-th big-endian 32-bit word of `d`.
pub open spec fn be_word(d: Seq<u8>, i: int) -> u32 {
    (d[4 * i] * 0x100_0000 + d[4 * i + 1] * 0x1_0000 + d[4 * i + 2] * 0x100 + d[4 * i + 3]) as u32
}

/// The ChaCha seed taken from a 32-byte digest: its eight big-endian words, in order.
pub open spec fn digest_seed(d: Seq<u8>) -> Seq<u32> {
    Seq::new(8, |i: int| be_word(d, i))
}

/// `H2`: the point of `G2` that a message hashes to.
pub open spec fn hash_g2_spec(msg: Seq<u8>) -> Seq<u8> {
    seeded_g2(digest_seed(sha3_digest(msg)))
}

/// The discrete logarithm of `H2(msg)`.
pub open spec fn hash_g2_log(msg: Seq<u8>) -> int {
    choose|v: int| g2_log_is(hash_g2_spec(msg), v)
}

/// What `H12(u, v)` hashes: `v`, or its digest where `v` is longer than 64 bytes, followed by
/// the compressed encoding `u` of a `G1` element.
pub open spec fn h12_input(u: Seq<u8>, v: Seq<u8>) -> Seq<u8> {
    (if v.len() > 64 {
        sha3_digest(v)
    } else {
        v
    }) + u
}

/// Bytewise exclusive or of `a` with the first `a.len()` bytes of `k`.
pub open spec fn xor_bytes(a: Seq<u8>, k: Seq<u8>) -> Seq<u8> {
    Seq::new(a.len(), |i: int| a[i] ^ k[i])
}

/// `X(u, bytes)`: `bytes` masked with the keystream seeded from the digest of `u`'s encoding.
pub open spec fn xor_with_hash_spec(u: Seq<u8>, bytes: Seq<u8>) -> Seq<u8> {
    xor_bytes(bytes, keystream(digest_seed(sha3_digest(u)), bytes.len()))
}

/// Relies on `tiny_keccak::sha3_256`: the SHA3-256 digest, 32 bytes.
#[verifier::external_body]
fn sha3(b: &[u8]) -> (r: Vec<u8>)
    ensures
        r@ == sha3_digest(b@),
        r@.len() == 32,
{
    tiny_keccak::sha3_256(b).to_vec()
}

/// Relies on `ChaChaRng::from_seed` and `Rng::gen` of `rand`, with the `Rand` impl of `G2` of
/// `pairing`, which draws points until it finds a non-zero one of the prime-order subgroup.
#[verifier::external_body]
fn g2_from_seed(seed: &Vec<u32>) -> (r: G2)
    ensures
        r@ == seeded_g2(seed@),
        r.wf(),
        r.log() != 0,
{
    let p: pairing::bls12_381::G2 = ChaChaRng::from_seed(&seed[..]).gen();
    G2 { bytes: p.into_affine().into_compressed().as_ref().to_vec() }
}

/// Relies on `ChaChaRng::from_seed` and `Rng::gen_iter` of `rand`: the first `n` bytes drawn.
#[verifier::external_body]
fn chacha_bytes(seed: &Vec<u32>, n: usize) -> (r: Vec<u8>)
    ensures
        r@ == keystream(seed@, n as nat),
        r@.len() == n,
{
    ChaChaRng::from_seed(&seed[..]).gen_iter::<u8>().take(n).collect()
}

/// Appends the bytes of `src` to `dst`.
fn append_bytes(dst: &mut Vec<u8>, src: &[u8])
    ensures
        final(dst)@ == old(dst)@ + src@,
{
    let mut i: usize = 0;
    while i < src.len()
        invariant
            i <= src@.len(),
            dst@ == old(dst)@ + src@.subrange(0, i as int),
        decreases src@.len() - i,
    {
        dst.push(src[i]);
        i = i + 1;
        proof {
            assert(src@.subrange(0, i as int) =~= src@.subrange(0, i - 1) + seq![src@[i - 1]]);
        }
    }
    proof {
        assert(src@.subrange(0, src@.len() as int) =~= src@);
    }
}

/// The eight big-endian words of a 32-byte digest.
fn seed_from_digest(d: &Vec<u8>) -> (r: Vec<u32>)
    requires
        d@.len() == 32,
    ensures
        r@ == digest_seed(d@),
{
    let mut r: Vec<u32> = Vec::new();
    let mut i: usize = 0;
    while i < 8
        invariant
            i <= 8,
            d@.len() == 32,
            r@.len() == i,
            forall|j: int| 0 <= j < i ==> r@[j] == be_word(d@, j),
        decreases 8 - i,
    {
        let w: u32 = (d[4 * i] as u32) * 0x100_0000 + (d[4 * i + 1] as u32) * 0x1_0000 + (d[4 * i
            + 2] as u32) * 0x100 + (d[4 * i + 3] as u32);
        r.push(w);
        i = i + 1;
    }
    assert(r@ =~= digest_seed(d@));
    r
}

/// `H2`: hashes a message to a non-zero element of `G2`.
pub fn hash_g2(msg: &[u8]) -> (r: G2)
    ensures
        r@ == hash_g2_spec(msg@),
        r.wf(),
        r.log() == hash_g2_log(msg@),
        r.log() != 0,
{
    let digest = sha3(msg);
    let seed = seed_from_digest(&digest);
    g2_from_seed(&seed)
}

/// `H12`: hashes a `G1` element together with a message to an element of `G2`.
pub fn hash_g1_g2(g1: &G1, msg: &[u8]) -> (r: G2)
    ensures
        r@ == hash_g2_spec(h12_input(g1@, msg@)),
        r.wf(),
        r.log() == hash_g2_log(h12_input(g1@, msg@)),
{
    let mut m = if msg.len() > 64 {
        sha3(msg)
    } else {
        let mut m: Vec<u8> = Vec::new();
        append_bytes(&mut m, msg);
        assert(m@ =~= msg@);
        m
    };
    let u = g1.to_bytes();
    append_bytes(&mut m, u.as_slice());
    assert(m@ =~= h12_input(g1@, msg@));
    hash_g2(m.as_slice())
}

/// `X`: masks `bytes` with a keystream determined by the `G1` element; the same call unmasks.
pub fn xor_with_hash(g1: &G1, bytes: &[u8]) -> (r: Vec<u8>)
    ensures
        r@ == xor_with_hash_spec(g1@, bytes@),
        r@.len() == bytes@.len(),
{
    let u = g1.to_bytes();
    let digest = sha3(u.as_slice());
    let seed = seed_from_digest(&digest);
    let ks = chacha_bytes(&seed, bytes.len());
    let mut r: Vec<u8> = Vec::new();
    let mut i: usize = 0;
    while i < bytes.len()
        invariant
            i <= bytes@.len(),
            ks@.len() == bytes@.len(),
            ks@ == keystream(digest_seed(sha3_digest(g1@)), bytes@.len()),
            r@.len() == i,
            forall|j: int| 0 <= j < i ==> r@[j] == bytes@[j] ^ ks@[j],
        decreases bytes@.len() - i,
    {
        r.push(bytes[i] ^ ks[i]);
        i = i + 1;
    }
    assert(r@ =~= xor_with_hash_spec(g1@, bytes@));
    r
}

} // verus!
