//! Polynomials over the scalar field, and their commitments in `G1`.

use crate::error::Error;
use crate::field::{modulus, random_scalar, Scalar};
use crate::group::G1;
use rand::ThreadRng;
use vstd::arithmetic::div_mod::lemma_add_mod_noop;
use vstd::prelude::*;

verus! {

/// The value at `x` of the polynomial with coefficients `c` (constant term first), modulo the
/// field order, in Horner's form.
pub open spec fn poly_eval(c: Seq<int>, x: int) -> int
    decreases c.len(),
{
    if c.len() == 0 {
        0
    } else {
        (c[0] + x * poly_eval(c.drop_first(), x)) % modulus()
    }
}

/// One step of Horner's rule, from the coefficients `c[i..]` to `c[i - 1..]`.
proof fn lemma_horner_step(c: Seq<int>, i: int, x: int, acc: int)
    requires
        0 < i <= c.len(),
        0 <= c[i - 1] < modulus(),
        acc == poly_eval(c.subrange(i, c.len() as int), x),
    ensures
        ((acc * x) % modulus() + c[i - 1]) % modulus() == poly_eval(
            c.subrange(i - 1, c.len() as int),
            x,
        ),
{
    let s = c.subrange(i - 1, c.len() as int);
    assert(s.drop_first() =~= c.subrange(i, c.len() as int));
    lemma_add_mod_noop(acc * x, c[i - 1], modulus());
    assert(c[i - 1] % modulus() == c[i - 1]);
    assert(acc * x == x * acc) by (nonlinear_arith);
}

/// A polynomial over the scalar field, given by its coefficients, constant term first. Its
/// degree is one less than the number of coefficients. The coefficients are secret material.
pub struct Poly {
    coeff: Vec<Scalar>,
}

impl Poly {
    /// The coefficients as integers.
    pub closed spec fn values(&self) -> Seq<int> {
        self.coeff@.map_values(|s: Scalar| s.value())
    }

    pub closed spec fn wf(&self) -> bool {
        &&& self.coeff@.len() >= 1
        &&& forall|i: int| 0 <= i < self.coeff@.len() ==> (#[trigger] self.coeff@[i]).wf()
    }

    pub open spec fn degree_spec(&self) -> int {
        self.values().len() - 1
    }

    /// The value at `x`.
    pub open spec fn value_at(&self, x: int) -> int {
        poly_eval(self.values(), x)
    }

    /// A polynomial of degree `degree` with coefficients drawn from `rng`. Fails where
    /// `degree + 1` coefficients cannot be counted in a `usize`.
    pub fn try_random(degree: usize, rng: &mut ThreadRng) -> (r: Result<Poly, Error>)
        ensures
            r is Err <==> degree == usize::MAX,
            r matches Err(e) ==> e == Error::MutableAllocationFailed,
            r matches Ok(p) ==> p.wf() && p.degree_spec() == degree,
    {
        if degree == usize::MAX {
            return Err(Error::MutableAllocationFailed);
        }
        Ok(Poly::random(degree, rng))
    }

    /// A polynomial of degree `degree` with coefficients drawn from `rng`.
    pub fn random(degree: usize, rng: &mut ThreadRng) -> (r: Poly)
        requires
            degree < usize::MAX,
        ensures
            r.wf(),
            r.degree_spec() == degree,
    {
        let mut coeff: Vec<Scalar> = Vec::new();
        let mut i: usize = 0;
        while i <= degree
            invariant
                degree < usize::MAX,
                i <= degree + 1,
                coeff@.len() == i,
                forall|j: int| 0 <= j < coeff@.len() ==> (#[trigger] coeff@[j]).wf(),
            decreases degree + 1 - i,
        {
            coeff.push(random_scalar(rng));
            i = i + 1;
        }
        Poly { coeff }
    }

    /// The degree: the number of coefficients less one.
    pub fn degree(&self) -> (r: usize)
        requires
            self.wf(),
        ensures
            r == self.degree_spec(),
    {
        self.coeff.len() - 1
    }

    /// The value at `x`, by Horner's rule.
    pub fn evaluate(&self, x: &Scalar) -> (r: Scalar)
        requires
            self.wf(),
            x.wf(),
        ensures
            r.wf(),
            r.value() == self.value_at(x.value()),
    {
        let c = Ghost(self.values());
        let mut acc = Scalar::zero();
        let mut i: usize = self.coeff.len();
        proof {
            assert(c@.subrange(i as int, c@.len() as int) =~= Seq::<int>::empty());
        }
        while i > 0
            invariant
                self.wf(),
                x.wf(),
                c@ == self.values(),
                i <= self.coeff@.len(),
                acc.wf(),
                acc.value() == poly_eval(c@.subrange(i as int, c@.len() as int), x.value()),
            decreases i,
        {
            let prod = acc.mul(x);
            let next = prod.add(&self.coeff[i - 1]);
            proof {
                assert(self.coeff@[i - 1].wf());
                assert(c@[i - 1] == self.coeff@[i - 1].value());
                lemma_horner_step(c@, i as int, x.value(), acc.value());
            }
            acc = next;
            i = i - 1;
        }
        proof {
            assert(c@.subrange(0, c@.len() as int) =~= c@);
        }
        acc
    }

    /// The commitment: each coefficient `c` lifted to `c·B1`.
    pub fn commitment(&self) -> (r: Commitment)
        requires
            self.wf(),
        ensures
            r.wf(),
            r.logs() == self.values(),
    {
        let mut coeff: Vec<G1> = Vec::new();
        let mut i: usize = 0;
        while i < self.coeff.len()
            invariant
                self.wf(),
                i <= self.coeff@.len(),
                coeff@.len() == i,
                forall|j: int| 0 <= j < i ==> (#[trigger] coeff@[j]).wf() && coeff@[j].log()
                    == self.coeff@[j].value(),
            decreases self.coeff@.len() - i,
        {
            coeff.push(G1::from_scalar(&self.coeff[i]));
            i = i + 1;
        }
        let r = Commitment { coeff };
        assert(r.logs() =~= self.values());
        r
    }
}

impl Drop for Poly {
    /// Overwrites every coefficient with zero before the memory is released.
    fn drop(&mut self)
        opens_invariants none
        no_unwind
    {
        fill_zero(&mut self.coeff);
        observe_all(&self.coeff);
    }
}

/// Relies on `slice::fill` of std: every element becomes zero, the length stays.
#[verifier::external_body]
fn fill_zero(c: &mut Vec<Scalar>)
    ensures
        final(c)@.len() == old(c)@.len(),
        forall|i: int| 0 <= i < final(c)@.len() ==> (#[trigger] final(c)@[i]).value() == 0,
    opens_invariants none
    no_unwind
{
    c.fill(Scalar { l0: 0, l1: 0, l2: 0, l3: 0 });
}

/// Relies on `std::hint::black_box`: the coefficients count as read, so that the writes before
/// the call are not removed as dead.
#[verifier::external_body]
fn observe_all(c: &Vec<Scalar>)
    opens_invariants none
    no_unwind
{
    std::hint::black_box(c);
}

/// A commitment to a polynomial: its coefficients `c_i` as the points `c_i·B1` of `G1`.
#[derive(Clone, PartialEq, Eq, Debug, Hash)]
pub struct Commitment {
    coeff: Vec<G1>,
}

impl Commitment {
    /// The discrete logarithms of the committed points: the polynomial's coefficients.
    pub closed spec fn logs(&self) -> Seq<int> {
        self.coeff@.map_values(|p: G1| p.log())
    }

    /// The committed points as encodings.
    pub closed spec fn points(&self) -> Seq<Seq<u8>> {
        self.coeff@.map_values(|p: G1| p@)
    }

    pub closed spec fn wf(&self) -> bool {
        &&& self.coeff@.len() >= 1
        &&& forall|i: int| 0 <= i < self.coeff@.len() ==> (#[trigger] self.coeff@[i]).wf()
    }

    pub open spec fn degree_spec(&self) -> int {
        self.logs().len() - 1
    }

    /// A well-formed commitment has at least one point, each with a logarithm in the field.
    pub proof fn lemma_logs(&self)
        requires
            self.wf(),
        ensures
            self.logs().len() >= 1,
            forall|i: int| 0 <= i < self.logs().len() ==> 0 <= #[trigger] self.logs()[i] < modulus(),
    {
        assert forall|i: int| 0 <= i < self.logs().len() implies 0 <= #[trigger] self.logs()[i]
            < modulus() by {
            let p = self.coeff@[i];
            assert(p.wf());
            let v = choose|v: int| crate::group::g1_log_is(p@, v);
            p.lemma_log(v);
        }
    }

    /// The logarithm of the value at `x`.
    pub open spec fn log_at(&self, x: int) -> int {
        poly_eval(self.logs(), x)
    }

    /// The degree: the number of points less one.
    pub fn degree(&self) -> (r: usize)
        requires
            self.wf(),
        ensures
            r == self.degree_spec(),
    {
        self.coeff.len() - 1
    }

    /// A commitment with the given points as its coefficients, constant term first; `None` for
    /// an empty list.
    pub fn from_points(points: Vec<G1>) -> (r: Option<Commitment>)
        requires
            forall|i: int| 0 <= i < points@.len() ==> (#[trigger] points@[i]).wf(),
        ensures
            r is Some <==> points@.len() >= 1,
            r matches Some(c) ==> c.wf() && c.points() == points@.map_values(|p: G1| p@),
    {
        if points.len() == 0 {
            return None;
        }
        Some(Commitment { coeff: points })
    }

    /// The points, constant term first.
    pub fn to_points(&self) -> (r: Vec<G1>)
        ensures
            r@.map_values(|p: G1| p@) == self.points(),
    {
        let mut r: Vec<G1> = Vec::new();
        let mut i: usize = 0;
        while i < self.coeff.len()
            invariant
                i <= self.coeff@.len(),
                r@.len() == i,
                forall|j: int| 0 <= j < i ==> (#[trigger] r@[j])@ == self.coeff@[j]@,
            decreases self.coeff@.len() - i,
        {
            r.push(self.coeff[i].copied());
            i = i + 1;
        }
        assert(r@.map_values(|p: G1| p@) =~= self.points());
        r
    }

    /// The constant term's point.
    pub fn first(&self) -> (r: G1)
        requires
            self.wf(),
        ensures
            r.wf(),
            r.log() == self.logs()[0],
            r@ == self.points()[0],
    {
        self.coeff[0].copied()
    }

    /// The value at `x`, `f(x)·B1` for the committed polynomial `f`, by Horner's rule.
    pub fn evaluate(&self, x: &Scalar) -> (r: G1)
        requires
            self.wf(),
            x.wf(),
        ensures
            r.wf(),
            r.log() == self.log_at(x.value()),
    {
        let c = Ghost(self.logs());
        let mut acc = G1::from_scalar(&Scalar::zero());
        let mut i: usize = self.coeff.len();
        proof {
            assert(c@.subrange(i as int, c@.len() as int) =~= Seq::<int>::empty());
        }
        while i > 0
            invariant
                self.wf(),
                x.wf(),
                c@ == self.logs(),
                i <= self.coeff@.len(),
                acc.wf(),
                acc.log() == poly_eval(c@.subrange(i as int, c@.len() as int), x.value()),
            decreases i,
        {
            let prod = acc.mul(x);
            let next = prod.add(&self.coeff[i - 1]);
            proof {
                let p = self.coeff@[i - 1];
                assert(p.wf());
                let v = choose|v: int| crate::group::g1_log_is(p@, v);
                p.lemma_log(v);
                assert(c@[i - 1] == p.log());
                lemma_horner_step(c@, i as int, x.value(), acc.log());
            }
            acc = next;
            i = i - 1;
        }
        proof {
            assert(c@.subrange(0, c@.len() as int) =~= c@);
        }
        acc
    }
}

/// At zero a polynomial takes its constant term.
pub proof fn lemma_eval_at_zero(c: Seq<int>)
    requires
        c.len() >= 1,
        0 <= c[0] < modulus(),
    ensures
        poly_eval(c, 0) == c[0],
{
}

/// Lifting a polynomial to its commitment commutes with evaluation: the commitment evaluates
/// at every `x` to `f(x)·B1`.
pub proof fn lemma_commitment_evaluation(p: &Poly, c: &Commitment, x: int)
    requires
        p.wf(),
        c.logs() == p.values(),
    ensures
        c.log_at(x) == p.value_at(x),
{
}

} // verus!
