//! The scalar field of BLS12-381, held as canonical little-endian limbs.

use pairing::bls12_381::{Fr, FrRepr};
use pairing::{Field, PrimeField};
use rand::{OsRng, Rng, ThreadRng};
use vstd::prelude::*;

verus! {

/// The order of the scalar field (and of both curve groups).
pub open spec fn modulus() -> int {
    52435875175126190479447740508185965837690552500527637822603658699938581184513int
}

pub open spec fn limb_base() -> int {
    0x1_0000_0000_0000_0000int
}

/// The integer that four little-endian 64-bit limbs stand for.
pub open spec fn limbs_value(l0: u64, l1: u64, l2: u64, l3: u64) -> int {
    l0 as int + limb_base() * (l1 as int + limb_base() * (l2 as int + limb_base() * l3 as int))
}

#[verifier::external_type_specification]
#[verifier::external_body]
pub struct ExThreadRng(ThreadRng);

/// An element of the scalar field `Fr`, stored as its canonical integer.
#[derive(Clone, Copy, PartialEq, Eq, Structural, Debug)]
pub struct Scalar {
    pub(crate) l0: u64,
    pub(crate) l1: u64,
    pub(crate) l2: u64,
    pub(crate) l3: u64,
}

impl Scalar {
    pub closed spec fn value(&self) -> int {
        limbs_value(self.l0, self.l1, self.l2, self.l3)
    }

    /// The stored integer is reduced modulo the field order.
    pub open spec fn wf(&self) -> bool {
        0 <= self.value() < modulus()
    }

    fn from_limbs(l: [u64; 4]) -> (r: Scalar)
        ensures
            r.value() == limbs_value(l[0], l[1], l[2], l[3]),
    {
        Scalar { l0: l[0], l1: l[1], l2: l[2], l3: l[3] }
    }

    pub fn zero() -> (r: Scalar)
        ensures
            r.wf(),
            r.value() == 0,
        opens_invariants none
        no_unwind
    {
        Scalar { l0: 0u64, l1: 0u64, l2: 0u64, l3: 0u64 }
    }

    pub fn one() -> (r: Scalar)
        ensures
            r.wf(),
            r.value() == 1,
    {
        Scalar { l0: 1u64, l1: 0u64, l2: 0u64, l3: 0u64 }
    }

    pub fn from_u64(x: u64) -> (r: Scalar)
        ensures
            r.wf(),
            r.value() == x,
    {
        Scalar { l0: x, l1: 0u64, l2: 0u64, l3: 0u64 }
    }


    /// The field element `x + 1`; share indices are shifted by one so that no share sits at zero.
    pub fn from_index_plus_one(x: u64) -> (r: Scalar)
        ensures
            r.wf(),
            r.value() == x + 1,
    {
        if x < u64::MAX {
            Scalar { l0: x + 1, l1: 0u64, l2: 0u64, l3: 0u64 }
        } else {
            Scalar { l0: 0u64, l1: 1u64, l2: 0u64, l3: 0u64 }
        }
    }

    /// The sum in the field.
    pub fn add(&self, other: &Scalar) -> (r: Scalar)
        requires
            self.wf(),
            other.wf(),
        ensures
            r.wf(),
            r.value() == (self.value() + other.value()) % modulus(),
    {
        fr_add(self, other)
    }

    /// The difference in the field.
    pub fn sub(&self, other: &Scalar) -> (r: Scalar)
        requires
            self.wf(),
            other.wf(),
        ensures
            r.wf(),
            r.value() == (self.value() - other.value()) % modulus(),
    {
        fr_sub(self, other)
    }

    /// The product in the field.
    pub fn mul(&self, other: &Scalar) -> (r: Scalar)
        requires
            self.wf(),
            other.wf(),
        ensures
            r.wf(),
            r.value() == (self.value() * other.value()) % modulus(),
    {
        fr_mul(self, other)
    }

    /// The multiplicative inverse, or `None` for zero.
    pub fn inverse(&self) -> (r: Option<Scalar>)
        requires
            self.wf(),
        ensures
            r is None <==> self.value() == 0,
            r matches Some(v) ==> v.wf() && (self.value() * v.value()) % modulus() == 1,
    {
        fr_inverse(self)
    }
}

/// Relies on `Fr::add_assign` of `pairing`: addition modulo the field order.
#[verifier::external_body]
fn fr_add(a: &Scalar, b: &Scalar) -> (r: Scalar)
    requires
        a.wf(),
        b.wf(),
    ensures
        r.wf(),
        r.value() == (a.value() + b.value()) % modulus(),
{
    let mut x = Fr::from_repr(FrRepr([a.l0, a.l1, a.l2, a.l3])).expect("canonical scalar");
    x.add_assign(&Fr::from_repr(FrRepr([b.l0, b.l1, b.l2, b.l3])).expect("canonical scalar"));
    Scalar::from_limbs(x.into_repr().0)
}

/// Relies on `Fr::sub_assign` of `pairing`: subtraction modulo the field order.
#[verifier::external_body]
fn fr_sub(a: &Scalar, b: &Scalar) -> (r: Scalar)
    requires
        a.wf(),
        b.wf(),
    ensures
        r.wf(),
        r.value() == (a.value() - b.value()) % modulus(),
{
    let mut x = Fr::from_repr(FrRepr([a.l0, a.l1, a.l2, a.l3])).expect("canonical scalar");
    x.sub_assign(&Fr::from_repr(FrRepr([b.l0, b.l1, b.l2, b.l3])).expect("canonical scalar"));
    Scalar::from_limbs(x.into_repr().0)
}

/// Relies on `Fr::mul_assign` of `pairing`: multiplication modulo the field order.
#[verifier::external_body]
fn fr_mul(a: &Scalar, b: &Scalar) -> (r: Scalar)
    requires
        a.wf(),
        b.wf(),
    ensures
        r.wf(),
        r.value() == (a.value() * b.value()) % modulus(),
{
    let mut x = Fr::from_repr(FrRepr([a.l0, a.l1, a.l2, a.l3])).expect("canonical scalar");
    x.mul_assign(&Fr::from_repr(FrRepr([b.l0, b.l1, b.l2, b.l3])).expect("canonical scalar"));
    Scalar::from_limbs(x.into_repr().0)
}

/// Relies on `Fr::inverse` of `pairing`: `None` exactly for zero, else the inverse modulo the
/// field order.
#[verifier::external_body]
fn fr_inverse(a: &Scalar) -> (r: Option<Scalar>)
    requires
        a.wf(),
    ensures
        r is None <==> a.value() == 0,
        r matches Some(v) ==> v.wf() && (a.value() * v.value()) % modulus() == 1,
{
    let x = Fr::from_repr(FrRepr([a.l0, a.l1, a.l2, a.l3])).expect("canonical scalar");
    x.inverse().map(|v| Scalar::from_limbs(v.into_repr().0))
}

/// Relies on `Rng::gen` of `rand` for `Fr` of `pairing`: a field element drawn from the
/// thread-local generator; nothing is known of its value.
#[verifier::external_body]
pub(crate) fn random_scalar(rng: &mut ThreadRng) -> (r: Scalar)
    ensures
        r.wf(),
{
    let x: Fr = rng.gen();
    Scalar::from_limbs(x.into_repr().0)
}

/// Relies on `rand::thread_rng`: a handle to the thread-local generator.
#[verifier::external_body]
pub(crate) fn new_thread_rng() -> ThreadRng {
    rand::thread_rng()
}

/// Relies on `OsRng::new` and `Rng::gen` of `rand`: a field element drawn from the operating
/// system's generator; panics only where that generator cannot be opened.
#[verifier::external_body]
pub(crate) fn os_random_scalar() -> (r: Scalar)
    ensures
        r.wf(),
{
    let x: Fr = OsRng::new().expect("could not initialize the OS random number generator").gen();
    Scalar::from_limbs(x.into_repr().0)
}

} // verus!
