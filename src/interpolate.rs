//! Lagrange interpolation at zero of samples in `G1` or `G2`.
//!
//! Given `t + 1` samples `(i_j, S_j)` of a polynomial of degree `t`, taken at the points
//! `x_j = i_j + 1`, the value at zero is `Σ_j λ_j·S_j` with the Lagrange coefficients
//! `λ_j = Π_{k≠j} x_k / Π_{k≠j} (x_k - x_j)`.

use crate::error::Error;
use crate::field::{modulus, Scalar};
use crate::group::{G1, G2};
use vstd::arithmetic::div_mod::{lemma_mul_mod_noop_left, lemma_mul_mod_noop_right};
use vstd::prelude::*;

verus! {

/// `v` is the inverse of `a` modulo the field order.
pub open spec fn is_field_inv(a: int, v: int) -> bool {
    0 <= v < modulus() && (a * v) % modulus() == 1
}

/// The inverse of `a` modulo the field order, where there is one.
pub open spec fn field_inv(a: int) -> int {
    choose|v: int| is_field_inv(a, v)
}

/// An inverse modulo the field order is unique.
pub proof fn lemma_field_inv_unique(a: int, v: int)
    requires
        0 <= v < modulus(),
        (a * v) % modulus() == 1,
    ensures
        field_inv(a) == v,
{
    let m = modulus();
    assert(is_field_inv(a, v));
    let w = field_inv(a);
    assert(0 <= w < m && (a * w) % m == 1);
    lemma_mul_mod_noop_right(v, a * w, m);
    lemma_mul_mod_noop_left(v * a, w, m);
    assert(v * (a * w) == (v * a) * w) by (nonlinear_arith);
    assert(v * a == a * v) by (nonlinear_arith);
    assert(v % m == v);
    assert(w % m == w);
}

/// `Π_{k<j} xs[k]`, modulo the field order.
pub open spec fn prefix_prod(xs: Seq<int>, j: int) -> int
    decreases j,
{
    if j <= 0 {
        1
    } else {
        (prefix_prod(xs, j - 1) * xs[j - 1]) % modulus()
    }
}

/// `Π_{j≤k<xs.len()} xs[k]`, modulo the field order.
pub open spec fn suffix_prod(xs: Seq<int>, j: int) -> int
    decreases xs.len() - j,
{
    if j >= xs.len() {
        1
    } else {
        (suffix_prod(xs, j + 1) * xs[j]) % modulus()
    }
}

/// `Π_{k≠j} xs[k]`, modulo the field order: the points before the `j`-th times those after it.
pub open spec fn lagrange_num(xs: Seq<int>, j: int) -> int {
    (prefix_prod(xs, j) * suffix_prod(xs, j + 1)) % modulus()
}

/// `Π_{k<n, k≠j} (xs[k] - xs[j])`, modulo the field order.
pub open spec fn lagrange_den(xs: Seq<int>, j: int, n: nat) -> int
    decreases n,
{
    if n == 0 {
        1
    } else if n - 1 == j {
        lagrange_den(xs, j, (n - 1) as nat)
    } else {
        (lagrange_den(xs, j, (n - 1) as nat) * ((xs[n - 1] - xs[j]) % modulus())) % modulus()
    }
}

/// The Lagrange coefficient `λ_j` of the point `xs[j]` for interpolation at zero.
pub open spec fn lagrange_coeff(xs: Seq<int>, j: int) -> int {
    (lagrange_num(xs, j) * field_inv(lagrange_den(xs, j, xs.len()))) % modulus()
}

/// `Σ_{j<n} λ_j·ys[j]`, modulo the field order.
pub open spec fn lagrange_sum(xs: Seq<int>, ys: Seq<int>, n: nat) -> int
    decreases n,
{
    if n == 0 {
        0
    } else {
        (lagrange_sum(xs, ys, (n - 1) as nat) + (ys[n - 1] * lagrange_coeff(xs, n - 1))
            % modulus()) % modulus()
    }
}

/// The value at zero of the polynomial through the points `(xs[j], ys[j])`.
pub open spec fn interpolation_at_zero(xs: Seq<int>, ys: Seq<int>) -> int {
    lagrange_sum(xs, ys, xs.len())
}

/// Every Lagrange denominator is non-zero.
pub open spec fn denominators_nonzero(xs: Seq<int>) -> bool {
    forall|j: int| 0 <= j < xs.len() ==> lagrange_den(xs, j, xs.len()) != 0
}

/// Two of the points coincide.
pub open spec fn has_duplicate(xs: Seq<int>) -> bool {
    exists|j: int, k: int| 0 <= j < xs.len() && 0 <= k < xs.len() && j != k && xs[j] == xs[k]
}

/// The shifted points `i + 1` of the first `n` sample indices.
pub open spec fn sample_points(idx: Seq<u64>, n: nat) -> Seq<int> {
    Seq::new(n, |j: int| idx[j] + 1)
}

/// A repeated point makes the denominator of every other point vanish.
proof fn lemma_duplicate_den_zero(xs: Seq<int>, j: int, k: int, n: nat)
    requires
        0 <= j < xs.len(),
        0 <= k < n <= xs.len(),
        j != k,
        xs[j] == xs[k],
    ensures
        lagrange_den(xs, j, n) == 0,
    decreases n,
{
    if n - 1 == k {
        assert((xs[k] - xs[j]) % modulus() == 0);
    } else {
        lemma_duplicate_den_zero(xs, j, k, (n - 1) as nat);
        if n - 1 != j {
            assert((0 * ((xs[n - 1] - xs[j]) % modulus())) % modulus() == 0);
        }
    }
}

/// With a repeated point, some Lagrange denominator vanishes.
pub proof fn lemma_duplicate_not_interpolable(xs: Seq<int>)
    requires
        has_duplicate(xs),
    ensures
        !denominators_nonzero(xs),
{
    let (j, k) = choose|j: int, k: int|
        0 <= j < xs.len() && 0 <= k < xs.len() && j != k && xs[j] == xs[k];
    lemma_duplicate_den_zero(xs, j, k, xs.len());
}

/// The Lagrange coefficients of the points `xs`, or `DuplicateEntry` where a denominator
/// vanishes. The numerators come from one pass of prefix products and one of suffix products.
fn lagrange_coefficients(xs: &Vec<Scalar>) -> (r: Result<Vec<Scalar>, Error>)
    requires
        xs@.len() >= 1,
        forall|j: int| 0 <= j < xs@.len() ==> (#[trigger] xs@[j]).wf(),
    ensures
        r is Ok <==> denominators_nonzero(xs@.map_values(|s: Scalar| s.value())),
        r matches Err(e) ==> e == Error::DuplicateEntry,
        r matches Ok(ls) ==> ls@.len() == xs@.len() && forall|j: int|
            0 <= j < ls@.len() ==> (#[trigger] ls@[j]).wf() && ls@[j].value() == lagrange_coeff(
                xs@.map_values(|s: Scalar| s.value()),
                j,
            ),
{
    let xv = Ghost(xs@.map_values(|s: Scalar| s.value()));
    let n = xs.len();
    // Prefix products: `num[j] = Π_{k<j} x_k`.
    let mut num: Vec<Scalar> = Vec::new();
    let mut tmp = Scalar::one();
    num.push(tmp);
    let mut k: usize = 0;
    while k + 1 < n
        invariant
            n == xs@.len(),
            n >= 1,
            xv@ == xs@.map_values(|s: Scalar| s.value()),
            forall|j: int| 0 <= j < xs@.len() ==> (#[trigger] xs@[j]).wf(),
            k + 1 <= n,
            num@.len() == k + 1,
            tmp.wf(),
            tmp.value() == prefix_prod(xv@, k as int),
            forall|l: int|
                0 <= l <= k ==> (#[trigger] num@[l]).wf() && num@[l].value() == prefix_prod(
                    xv@,
                    l,
                ),
        decreases n - k,
    {
        tmp = tmp.mul(&xs[k]);
        num.push(tmp);
        k = k + 1;
    }
    // Suffix products: `num[j] = Π_{k<j} x_k · Π_{k>j} x_k`.
    let mut tmp = Scalar::one();
    let mut j: usize = n - 1;
    proof {
        assert(num@[j as int].value() == prefix_prod(xv@, j as int));
        assert(suffix_prod(xv@, j + 1) == 1);
        assert((prefix_prod(xv@, j as int) * 1) % modulus() == prefix_prod(xv@, j as int));
    }
    while j > 0
        invariant
            n == xs@.len(),
            xv@ == xs@.map_values(|s: Scalar| s.value()),
            forall|j: int| 0 <= j < xs@.len() ==> (#[trigger] xs@[j]).wf(),
            j < n,
            num@.len() == n,
            tmp.wf(),
            tmp.value() == suffix_prod(xv@, j + 1),
            forall|l: int| 0 <= l < n ==> (#[trigger] num@[l]).wf(),
            forall|l: int| 0 <= l < j ==> (#[trigger] num@[l]).value() == prefix_prod(xv@, l),
            forall|l: int| j <= l < n ==> (#[trigger] num@[l]).value() == lagrange_num(xv@, l),
        decreases j,
    {
        tmp = tmp.mul(&xs[j]);
        let v = num[j - 1].mul(&tmp);
        num.set(j - 1, v);
        j = j - 1;
    }
    let mut ls: Vec<Scalar> = Vec::new();
    let mut j: usize = 0;
    while j < n
        invariant
            n == xs@.len(),
            xv@ == xs@.map_values(|s: Scalar| s.value()),
            forall|j: int| 0 <= j < xs@.len() ==> (#[trigger] xs@[j]).wf(),
            num@.len() == n,
            forall|l: int|
                0 <= l < n ==> (#[trigger] num@[l]).wf() && num@[l].value() == lagrange_num(
                    xv@,
                    l,
                ),
            j <= n,
            ls@.len() == j,
            forall|l: int| 0 <= l < j ==> lagrange_den(xv@, l, n as nat) != 0,
            forall|l: int|
                0 <= l < j ==> (#[trigger] ls@[l]).wf() && ls@[l].value() == lagrange_coeff(
                    xv@,
                    l,
                ),
        decreases n - j,
    {
        let mut den = Scalar::one();
        let mut k: usize = 0;
        while k < n
            invariant
                n == xs@.len(),
                xv@ == xs@.map_values(|s: Scalar| s.value()),
                forall|j: int| 0 <= j < xs@.len() ==> (#[trigger] xs@[j]).wf(),
                j < n,
                k <= n,
                den.wf(),
                den.value() == lagrange_den(xv@, j as int, k as nat),
            decreases n - k,
        {
            if k != j {
                let diff = xs[k].sub(&xs[j]);
                den = den.mul(&diff);
            }
            k = k + 1;
        }
        match den.inverse() {
            None => {
                proof {
                    assert(xv@.len() == n);
                    assert(lagrange_den(xv@, j as int, n as nat) == 0);
                    assert(!denominators_nonzero(xv@));
                }
                return Err(Error::DuplicateEntry);
            },
            Some(inv) => {
                proof {
                    lemma_field_inv_unique(den.value(), inv.value());
                }
                ls.push(num[j].mul(&inv));
            },
        }
        j = j + 1;
    }
    Ok(ls)
}

/// With a single point, interpolation returns the sample itself.
proof fn lemma_single_sample(x: int, y: int)
    requires
        0 <= y < modulus(),
    ensures
        denominators_nonzero(seq![x]),
        interpolation_at_zero(seq![x], seq![y]) == y,
{
    let xs = seq![x];
    assert(lagrange_den(xs, 0, 0) == 1);
    assert(lagrange_den(xs, 0, 1) == 1);
    assert(prefix_prod(xs, 0) == 1);
    assert(suffix_prod(xs, 1) == 1);
    assert(lagrange_num(xs, 0) == 1);
    lemma_field_inv_unique(1, 1);
    assert(lagrange_coeff(xs, 0) == 1);
    assert(lagrange_sum(xs, seq![y], 0) == 0);
    assert(lagrange_sum(xs, seq![y], 1) == (0 + (y * 1) % modulus()) % modulus());
}

/// The points `i_j + 1` of the first `n` samples.
fn points_of<S>(samples: &Vec<(u64, S)>, n: usize) -> (r: Vec<Scalar>)
    requires
        n <= samples@.len(),
    ensures
        r@.len() == n,
        forall|j: int| 0 <= j < n ==> (#[trigger] r@[j]).wf(),
        r@.map_values(|s: Scalar| s.value()) == sample_points(
            samples@.map_values(|p: (u64, S)| p.0),
            n as nat,
        ),
{
    let mut r: Vec<Scalar> = Vec::new();
    let mut j: usize = 0;
    while j < n
        invariant
            n <= samples@.len(),
            j <= n,
            r@.len() == j,
            forall|l: int| 0 <= l < j ==> (#[trigger] r@[l]).wf() && r@[l].value() == samples@[l].0 + 1,
        decreases n - j,
    {
        r.push(Scalar::from_index_plus_one(samples[j].0));
        j = j + 1;
    }
    assert(r@.map_values(|s: Scalar| s.value()) =~= sample_points(
        samples@.map_values(|p: (u64, S)| p.0),
        n as nat,
    ));
    r
}

/// The logarithms of the first `n` sample values in `G1`.
pub open spec fn sample_logs_g1(samples: Seq<(u64, G1)>, n: nat) -> Seq<int> {
    Seq::new(n, |j: int| samples[j].1.log())
}

/// The logarithms of the first `n` sample values in `G2`.
pub open spec fn sample_logs_g2(samples: Seq<(u64, G2)>, n: nat) -> Seq<int> {
    Seq::new(n, |j: int| samples[j].1.log())
}

/// The indices of the samples.
pub open spec fn sample_indices<S>(samples: Seq<(u64, S)>) -> Seq<u64> {
    samples.map_values(|p: (u64, S)| p.0)
}

/// Given samples `(i, f(i + 1)·B1)` of a polynomial `f` of degree `t`, returns `f(0)·B1`,
/// computed from the first `t + 1` samples; the others are ignored.
pub fn interpolate(t: usize, samples: &Vec<(u64, G1)>) -> (r: Result<G1, Error>)
    requires
        forall|j: int| 0 <= j < samples@.len() ==> (#[trigger] samples@[j]).1.wf(),
    ensures
        r == Err::<G1, Error>(Error::NotEnoughShares) <==> samples@.len() <= t,
        r == Err::<G1, Error>(Error::DuplicateEntry) <==> samples@.len() > t && !denominators_nonzero(
            sample_points(sample_indices(samples@), (t + 1) as nat),
        ),
        r is Ok <==> samples@.len() > t && denominators_nonzero(
            sample_points(sample_indices(samples@), (t + 1) as nat),
        ),
        r matches Ok(v) ==> v.wf() && v.log() == interpolation_at_zero(
            sample_points(sample_indices(samples@), (t + 1) as nat),
            sample_logs_g1(samples@, (t + 1) as nat),
        ),
{
    if samples.len() <= t {
        return Err(Error::NotEnoughShares);
    }
    if t == 0 {
        proof {
            let p = samples@[0].1;
            assert(p.wf());
            assert(crate::group::g1_log_is(p@, p.log()));
            lemma_single_sample(samples@[0].0 + 1, p.log());
            assert(sample_points(sample_indices(samples@), 1) =~= seq![samples@[0].0 + 1]);
            assert(sample_logs_g1(samples@, 1) =~= seq![p.log()]);
        }
        return Ok(samples[0].1.copied());
    }
    let n = t + 1;
    let xs = points_of(samples, n);
    let ghost xv = xs@.map_values(|s: Scalar| s.value());
    let ghost ys = sample_logs_g1(samples@, n as nat);
    let ls = match lagrange_coefficients(&xs) {
        Ok(ls) => ls,
        Err(e) => {
            return Err(e);
        },
    };
    let mut acc = G1::from_scalar(&Scalar::zero());
    let mut j: usize = 0;
    while j < n
        invariant
            n == t + 1,
            n <= samples@.len(),
            forall|j: int| 0 <= j < samples@.len() ==> (#[trigger] samples@[j]).1.wf(),
            ls@.len() == n,
            xv.len() == n,
            ys == sample_logs_g1(samples@, n as nat),
            forall|l: int|
                0 <= l < n ==> (#[trigger] ls@[l]).wf() && ls@[l].value() == lagrange_coeff(xv, l),
            j <= n,
            acc.wf(),
            acc.log() == lagrange_sum(xv, ys, j as nat),
        decreases n - j,
    {
        let term = samples[j].1.mul(&ls[j]);
        acc = acc.add(&term);
        j = j + 1;
    }
    Ok(acc)
}

/// Given samples `(i, f(i + 1)·Q)` of a polynomial `f` of degree `t` and a point `Q` of `G2`,
/// returns `f(0)·Q`, computed from the first `t + 1` samples; the others are ignored.
pub fn interpolate_g2(t: usize, samples: &Vec<(u64, G2)>) -> (r: Result<G2, Error>)
    requires
        forall|j: int| 0 <= j < samples@.len() ==> (#[trigger] samples@[j]).1.wf(),
    ensures
        r == Err::<G2, Error>(Error::NotEnoughShares) <==> samples@.len() <= t,
        r == Err::<G2, Error>(Error::DuplicateEntry) <==> samples@.len() > t && !denominators_nonzero(
            sample_points(sample_indices(samples@), (t + 1) as nat),
        ),
        r is Ok <==> samples@.len() > t && denominators_nonzero(
            sample_points(sample_indices(samples@), (t + 1) as nat),
        ),
        r matches Ok(v) ==> v.wf() && v.log() == interpolation_at_zero(
            sample_points(sample_indices(samples@), (t + 1) as nat),
            sample_logs_g2(samples@, (t + 1) as nat),
        ),
{
    if samples.len() <= t {
        return Err(Error::NotEnoughShares);
    }
    if t == 0 {
        proof {
            let p = samples@[0].1;
            assert(p.wf());
            assert(crate::group::g2_log_is(p@, p.log()));
            lemma_single_sample(samples@[0].0 + 1, p.log());
            assert(sample_points(sample_indices(samples@), 1) =~= seq![samples@[0].0 + 1]);
            assert(sample_logs_g2(samples@, 1) =~= seq![p.log()]);
        }
        return Ok(samples[0].1.copied());
    }
    let n = t + 1;
    let xs = points_of(samples, n);
    let ghost xv = xs@.map_values(|s: Scalar| s.value());
    let ghost ys = sample_logs_g2(samples@, n as nat);
    let ls = match lagrange_coefficients(&xs) {
        Ok(ls) => ls,
        Err(e) => {
            return Err(e);
        },
    };
    let mut acc = samples[0].1.mul(&Scalar::zero());
    let mut j: usize = 0;
    while j < n
        invariant
            n == t + 1,
            n <= samples@.len(),
            forall|j: int| 0 <= j < samples@.len() ==> (#[trigger] samples@[j]).1.wf(),
            ls@.len() == n,
            xv.len() == n,
            ys == sample_logs_g2(samples@, n as nat),
            forall|l: int|
                0 <= l < n ==> (#[trigger] ls@[l]).wf() && ls@[l].value() == lagrange_coeff(xv, l),
            j <= n,
            acc.wf(),
            acc.log() == lagrange_sum(xv, ys, j as nat),
        decreases n - j,
    {
        let term = samples[j].1.mul(&ls[j]);
        acc = acc.add(&term);
        j = j + 1;
    }
    Ok(acc)
}

} // verus!
