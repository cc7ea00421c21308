//! The two curve groups `G1` and `G2` of BLS12-381 and their pairing.
//!
//! A point is held as its compressed encoding. Both groups are cyclic of the prime order
//! `modulus()`, generated by the base points `B1` of `G1` and `B2` of `G2`, so each point is
//! `k·B` for exactly one `k` in `0..modulus()`, where `B` is the group's base point: that `k` is
//! the point's discrete logarithm, the model of the point.

use crate::field::{modulus, Scalar};
use pairing::bls12_381::{Bls12, FrRepr, G1Affine, G1Compressed, G2Affine, G2Compressed};
use pairing::{CurveAffine, CurveProjective, EncodedPoint, Engine};
use vstd::prelude::*;

verus! {

/// The compressed encoding of `k·B1`, for `k` in `0..modulus()`.
pub uninterp spec fn g1_encoding(k: int) -> Seq<u8>;

/// The compressed encoding of `k·B2`, for `k` in `0..modulus()`.
pub uninterp spec fn g2_encoding(k: int) -> Seq<u8>;

/// The uncompressed encoding of `k·B1`, for `k` in `0..modulus()`.
pub uninterp spec fn g1_uncompressed(k: int) -> Seq<u8>;

/// The uncompressed encoding of `k·B2`, for `k` in `0..modulus()`.
pub uninterp spec fn g2_uncompressed(k: int) -> Seq<u8>;

/// `b` encodes `v·B1`, and no other multiple of `B1`.
pub open spec fn g1_log_is(b: Seq<u8>, v: int) -> bool {
    &&& b.len() == 48
    &&& 0 <= v < modulus()
    &&& g1_encoding(v) == b
    &&& forall|k: int| 0 <= k < modulus() && #[trigger] g1_encoding(k) == b ==> k == v
}

/// `b` encodes `v·B2`, and no other multiple of `B2`.
pub open spec fn g2_log_is(b: Seq<u8>, v: int) -> bool {
    &&& b.len() == 96
    &&& 0 <= v < modulus()
    &&& g2_encoding(v) == b
    &&& forall|k: int| 0 <= k < modulus() && #[trigger] g2_encoding(k) == b ==> k == v
}

/// `b` is the compressed encoding of a point of `G1`.
pub open spec fn is_g1_encoding(b: Seq<u8>) -> bool {
    exists|v: int| g1_log_is(b, v)
}

/// `b` is the compressed encoding of a point of `G2`.
pub open spec fn is_g2_encoding(b: Seq<u8>) -> bool {
    exists|v: int| g2_log_is(b, v)
}

/// An element of `G1`, in compressed form.
#[derive(Clone, PartialEq, Eq, Debug, Hash)]
pub struct G1 {
    pub(crate) bytes: Vec<u8>,
}

/// An element of `G2`, in compressed form.
#[derive(Clone, PartialEq, Eq, Debug, Hash)]
pub struct G2 {
    pub(crate) bytes: Vec<u8>,
}

impl View for G1 {
    type V = Seq<u8>;

    closed spec fn view(&self) -> Seq<u8> {
        self.bytes@
    }
}

impl View for G2 {
    type V = Seq<u8>;

    closed spec fn view(&self) -> Seq<u8> {
        self.bytes@
    }
}

impl G1 {
    /// The uncompressed encoding, 96 bytes.
    pub fn to_uncompressed(&self) -> (r: Vec<u8>)
        requires
            self.wf(),
        ensures
            r@ == g1_uncompressed(self.log()),
            r@.len() == 96,
    {
        g1_uncompress(self)
    }

    /// Decodes a compressed encoding; `None` for bytes that encode no point of the group.
    pub fn from_bytes(b: &[u8]) -> (r: Option<G1>)
        ensures
            r is Some <==> is_g1_encoding(b@),
            r matches Some(p) ==> p.wf() && p@ == b@,
    {
        if b.len() != 48 {
            return None;
        }
        g1_decode(b)
    }

    /// A copy of the point.
    pub fn copied(&self) -> (r: G1)
        ensures
            r@ == self@,
    {
        G1 { bytes: self.bytes.clone() }
    }

    pub open spec fn wf(&self) -> bool {
        exists|v: int| g1_log_is(self@, v)
    }

    /// The discrete logarithm of the point to the base `B1`.
    pub open spec fn log(&self) -> int {
        choose|v: int| g1_log_is(self@, v)
    }

    pub proof fn lemma_log(&self, v: int)
        requires
            g1_log_is(self@, v),
        ensures
            self.wf(),
            self.log() == v,
    {
        let w = self.log();
        assert(g1_log_is(self@, w));
        assert(g1_encoding(w) == self@);
    }

    /// The compressed encoding.
    pub fn to_bytes(&self) -> (r: Vec<u8>)
        ensures
            r@ == self@,
    {
        self.bytes.clone()
    }

    /// `s·B1`.
    pub fn from_scalar(s: &Scalar) -> (r: G1)
        requires
            s.wf(),
        ensures
            r.wf(),
            r.log() == s.value(),
    {
        let r = g1_mul_generator(s);
        proof {
            r.lemma_log(s.value());
        }
        r
    }

    /// `s·self`.
    pub fn mul(&self, s: &Scalar) -> (r: G1)
        requires
            self.wf(),
            s.wf(),
        ensures
            r.wf(),
            r.log() == (self.log() * s.value()) % modulus(),
    {
        let r = g1_mul(self, s);
        proof {
            r.lemma_log((self.log() * s.value()) % modulus());
        }
        r
    }

    /// `self + other`.
    pub fn add(&self, other: &G1) -> (r: G1)
        requires
            self.wf(),
            other.wf(),
        ensures
            r.wf(),
            r.log() == (self.log() + other.log()) % modulus(),
    {
        let r = g1_add(self, other);
        proof {
            r.lemma_log((self.log() + other.log()) % modulus());
        }
        r
    }
}

impl G2 {
    /// The uncompressed encoding, 192 bytes.
    pub fn to_uncompressed(&self) -> (r: Vec<u8>)
        requires
            self.wf(),
        ensures
            r@ == g2_uncompressed(self.log()),
            r@.len() == 192,
    {
        g2_uncompress(self)
    }

    /// Decodes a compressed encoding; `None` for bytes that encode no point of the group.
    pub fn from_bytes(b: &[u8]) -> (r: Option<G2>)
        ensures
            r is Some <==> is_g2_encoding(b@),
            r matches Some(p) ==> p.wf() && p@ == b@,
    {
        if b.len() != 96 {
            return None;
        }
        g2_decode(b)
    }

    /// A copy of the point.
    pub fn copied(&self) -> (r: G2)
        ensures
            r@ == self@,
    {
        G2 { bytes: self.bytes.clone() }
    }

    pub open spec fn wf(&self) -> bool {
        exists|v: int| g2_log_is(self@, v)
    }

    /// The discrete logarithm of the point to the base `B2`.
    pub open spec fn log(&self) -> int {
        choose|v: int| g2_log_is(self@, v)
    }

    pub proof fn lemma_log(&self, v: int)
        requires
            g2_log_is(self@, v),
        ensures
            self.wf(),
            self.log() == v,
    {
        let w = self.log();
        assert(g2_log_is(self@, w));
        assert(g2_encoding(w) == self@);
    }

    /// The compressed encoding.
    pub fn to_bytes(&self) -> (r: Vec<u8>)
        ensures
            r@ == self@,
    {
        self.bytes.clone()
    }

    /// `s·self`.
    pub fn mul(&self, s: &Scalar) -> (r: G2)
        requires
            self.wf(),
            s.wf(),
        ensures
            r.wf(),
            r.log() == (self.log() * s.value()) % modulus(),
    {
        let r = g2_mul(self, s);
        proof {
            r.lemma_log((self.log() * s.value()) % modulus());
        }
        r
    }

    /// `self + other`.
    pub fn add(&self, other: &G2) -> (r: G2)
        requires
            self.wf(),
            other.wf(),
        ensures
            r.wf(),
            r.log() == (self.log() + other.log()) % modulus(),
    {
        let r = g2_add(self, other);
        proof {
            r.lemma_log((self.log() + other.log()) % modulus());
        }
        r
    }
}

/// Relies on `EncodedPoint::into_affine` of `G1Compressed`, which accepts exactly the
/// canonical compressed encodings of points of the prime-order subgroup.
#[verifier::external_body]
fn g1_decode(b: &[u8]) -> (r: Option<G1>)
    requires
        b@.len() == 48,
    ensures
        r is Some <==> is_g1_encoding(b@),
        r matches Some(p) ==> p@ == b@,
{
    let mut e = G1Compressed::empty();
    e.as_mut().copy_from_slice(b);
    e.into_affine().ok().map(|_| G1 { bytes: b.to_vec() })
}

/// Relies on `EncodedPoint::into_affine` of `G2Compressed`, which accepts exactly the
/// canonical compressed encodings of points of the prime-order subgroup.
#[verifier::external_body]
fn g2_decode(b: &[u8]) -> (r: Option<G2>)
    requires
        b@.len() == 96,
    ensures
        r is Some <==> is_g2_encoding(b@),
        r matches Some(p) ==> p@ == b@,
{
    let mut e = G2Compressed::empty();
    e.as_mut().copy_from_slice(b);
    e.into_affine().ok().map(|_| G2 { bytes: b.to_vec() })
}

/// Relies on `CurveAffine::into_uncompressed` of `pairing` for `G1`: 96 bytes.
#[verifier::external_body]
fn g1_uncompress(p: &G1) -> (r: Vec<u8>)
    requires
        p.wf(),
    ensures
        r@ == g1_uncompressed(p.log()),
        r@.len() == 96,
{
    let mut e = G1Compressed::empty();
    e.as_mut().copy_from_slice(&p.bytes);
    e.into_affine().expect("valid point").into_uncompressed().as_ref().to_vec()
}

/// Relies on `CurveAffine::into_uncompressed` of `pairing` for `G2`: 192 bytes.
#[verifier::external_body]
fn g2_uncompress(p: &G2) -> (r: Vec<u8>)
    requires
        p.wf(),
    ensures
        r@ == g2_uncompressed(p.log()),
        r@.len() == 192,
{
    let mut e = G2Compressed::empty();
    e.as_mut().copy_from_slice(&p.bytes);
    e.into_affine().expect("valid point").into_uncompressed().as_ref().to_vec()
}

/// Whether `e(a, b) = e(c, d)`. The pairing is bilinear and non-degenerate with a target group
/// of order `modulus()`, so this holds exactly when the products of the logarithms agree.
pub fn pairings_match(a: &G1, b: &G2, c: &G1, d: &G2) -> (r: bool)
    requires
        a.wf(),
        b.wf(),
        c.wf(),
        d.wf(),
    ensures
        r == ((a.log() * b.log()) % modulus() == (c.log() * d.log()) % modulus()),
{
    pairing_eq(a, b, c, d)
}

/// Relies on `G1Affine::one` and `CurveAffine::mul` of `pairing`, and on the compressed
/// encoding of `G1`: the result encodes `s·B1`, and `G1` has prime order `modulus()`.
#[verifier::external_body]
fn g1_mul_generator(s: &Scalar) -> (r: G1)
    requires
        s.wf(),
    ensures
        r@ == g1_encoding(s.value()),
        g1_log_is(r@, s.value()),
{
    let p = G1Affine::one().mul(FrRepr([s.l0, s.l1, s.l2, s.l3]));
    G1 { bytes: p.into_affine().into_compressed().as_ref().to_vec() }
}

/// Relies on `CurveAffine::mul` of `pairing` on `G1`, through the compressed encoding.
#[verifier::external_body]
fn g1_mul(p: &G1, s: &Scalar) -> (r: G1)
    requires
        p.wf(),
        s.wf(),
    ensures
        g1_log_is(r@, (p.log() * s.value()) % modulus()),
{
    let mut e = G1Compressed::empty();
    e.as_mut().copy_from_slice(&p.bytes);
    let a = e.into_affine().expect("valid point").mul(FrRepr([s.l0, s.l1, s.l2, s.l3]));
    G1 { bytes: a.into_affine().into_compressed().as_ref().to_vec() }
}

/// Relies on `CurveProjective::add_assign` of `pairing` on `G1`, through the compressed encoding.
#[verifier::external_body]
fn g1_add(p: &G1, q: &G1) -> (r: G1)
    requires
        p.wf(),
        q.wf(),
    ensures
        g1_log_is(r@, (p.log() + q.log()) % modulus()),
{
    let (mut e, mut f) = (G1Compressed::empty(), G1Compressed::empty());
    e.as_mut().copy_from_slice(&p.bytes);
    f.as_mut().copy_from_slice(&q.bytes);
    let mut a = e.into_affine().expect("valid point").into_projective();
    a.add_assign(&f.into_affine().expect("valid point").into_projective());
    G1 { bytes: a.into_affine().into_compressed().as_ref().to_vec() }
}

/// Relies on `CurveAffine::mul` of `pairing` on `G2`, through the compressed encoding.
#[verifier::external_body]
fn g2_mul(p: &G2, s: &Scalar) -> (r: G2)
    requires
        p.wf(),
        s.wf(),
    ensures
        r@ == g2_encoding((p.log() * s.value()) % modulus()),
        g2_log_is(r@, (p.log() * s.value()) % modulus()),
{
    let mut e = G2Compressed::empty();
    e.as_mut().copy_from_slice(&p.bytes);
    let a = e.into_affine().expect("valid point").mul(FrRepr([s.l0, s.l1, s.l2, s.l3]));
    G2 { bytes: a.into_affine().into_compressed().as_ref().to_vec() }
}

/// Relies on `CurveProjective::add_assign` of `pairing` on `G2`, through the compressed encoding.
#[verifier::external_body]
fn g2_add(p: &G2, q: &G2) -> (r: G2)
    requires
        p.wf(),
        q.wf(),
    ensures
        g2_log_is(r@, (p.log() + q.log()) % modulus()),
{
    let (mut e, mut f) = (G2Compressed::empty(), G2Compressed::empty());
    e.as_mut().copy_from_slice(&p.bytes);
    f.as_mut().copy_from_slice(&q.bytes);
    let mut a = e.into_affine().expect("valid point").into_projective();
    a.add_assign(&f.into_affine().expect("valid point").into_projective());
    G2 { bytes: a.into_affine().into_compressed().as_ref().to_vec() }
}

/// Relies on `Engine::pairing` of `pairing` for `Bls12` and on equality in its target group:
/// `e(x·B1, y·B2) = e(B1, B2)^(x·y)` with `e(B1, B2)` of order `modulus()`.
#[verifier::external_body]
fn pairing_eq(a: &G1, b: &G2, c: &G1, d: &G2) -> (r: bool)
    requires
        a.wf(),
        b.wf(),
        c.wf(),
        d.wf(),
    ensures
        r == ((a.log() * b.log()) % modulus() == (c.log() * d.log()) % modulus()),
{
    let (mut ea, mut ec) = (G1Compressed::empty(), G1Compressed::empty());
    let (mut eb, mut ed) = (G2Compressed::empty(), G2Compressed::empty());
    ea.as_mut().copy_from_slice(&a.bytes);
    eb.as_mut().copy_from_slice(&b.bytes);
    ec.as_mut().copy_from_slice(&c.bytes);
    ed.as_mut().copy_from_slice(&d.bytes);
    let lhs = Bls12::pairing(ea.into_affine().expect("valid point"), eb.into_affine().expect("valid point"));
    lhs == Bls12::pairing(ec.into_affine().expect("valid point"), ed.into_affine().expect("valid point"))
}

} // verus!
