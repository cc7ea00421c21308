//! Key sets: a secret polynomial and its public commitment, with the shares they issue and the
//! combination of `threshold + 1` shares.
//!
//! Share `i` sits at the point `i + 1`, so that no share is the master key at zero.

use crate::error::Error;
use crate::field::Scalar;
use crate::group::{g1_encoding, G1, G2};
use crate::hash::xor_with_hash_spec;
use crate::interpolate::{
    denominators_nonzero, interpolate, interpolate_g2, interpolation_at_zero, sample_indices,
    sample_logs_g1, sample_logs_g2, sample_points,
};
use crate::keys::{
    Ciphertext, DecryptionShare, PublicKey, PublicKeyShare, SecretKey, SecretKeyShare, Signature,
    SignatureShare,
};
use crate::poly::{lemma_eval_at_zero, Commitment, Poly};
use rand::ThreadRng;
use vstd::prelude::*;

verus! {

/// The logarithms of the first `n` signature shares.
pub open spec fn signature_share_logs(shares: Seq<(u64, SignatureShare)>, n: nat) -> Seq<int> {
    Seq::new(n, |j: int| shares[j].1.log())
}

/// The logarithms of the first `n` decryption shares.
pub open spec fn decryption_share_logs(shares: Seq<(u64, DecryptionShare)>, n: nat) -> Seq<int> {
    Seq::new(n, |j: int| shares[j].1.log())
}

/// The points `i + 1` of the first `t + 1` shares.
pub open spec fn share_points<S>(shares: Seq<(u64, S)>, t: nat) -> Seq<int> {
    sample_points(sample_indices(shares), t + 1)
}

/// A public key and the public key shares of a set, given by the commitment to the polynomial
/// whose value at `0` is the master key and at `i + 1` is share `i`.
#[derive(Clone, PartialEq, Eq, Debug, Hash)]
pub struct PublicKeySet {
    commit: Commitment,
}

impl PublicKeySet {
    pub closed spec fn wf(&self) -> bool {
        self.commit.wf()
    }

    /// The committed polynomial's coefficients, as logarithms.
    pub closed spec fn commitment(&self) -> Commitment {
        self.commit
    }

    pub open spec fn threshold_spec(&self) -> int {
        self.commitment().degree_spec()
    }

    /// The set of the given commitment.
    pub fn from_commitment(commit: Commitment) -> (r: PublicKeySet)
        ensures
            r.commitment() == commit,
            r.wf() == commit.wf(),
    {
        PublicKeySet { commit }
    }

    /// The threshold `t`: any `t + 1` shares can be combined.
    pub fn threshold(&self) -> (r: usize)
        requires
            self.wf(),
        ensures
            r == self.threshold_spec(),
    {
        self.commit.degree()
    }

    /// The commitment to the set's polynomial.
    pub fn commitment_of(&self) -> (r: &Commitment)
        ensures
            *r == self.commitment(),
    {
        &self.commit
    }

    /// The master public key: the committed constant term, the commitment's value at zero.
    pub fn public_key(&self) -> (r: PublicKey)
        requires
            self.wf(),
        ensures
            r.wf(),
            self.commitment().logs().len() >= 1,
            r.log() == self.commitment().logs()[0],
            r.log() == self.commitment().log_at(0),
    {
        let p = self.commit.first();
        proof {
            self.commit.lemma_logs();
            let v = choose|v: int| crate::group::g1_log_is(p@, v);
            p.lemma_log(v);
            lemma_eval_at_zero(self.commit.logs());
        }
        PublicKey::from_point(p)
    }

    /// The `i`-th public key share: the commitment evaluated at `i + 1`.
    pub fn public_key_share(&self, i: u64) -> (r: PublicKeyShare)
        requires
            self.wf(),
        ensures
            r.wf(),
            r.log() == self.commitment().log_at(i + 1),
    {
        let p = self.commit.evaluate(&Scalar::from_index_plus_one(i));
        PublicKeyShare::from_key(PublicKey::from_point(p))
    }

    /// Combines the first `threshold + 1` shares into a signature for the master public key.
    pub fn combine_signatures(&self, shares: &Vec<(u64, SignatureShare)>) -> (r: Result<
        Signature,
        Error,
    >)
        requires
            self.wf(),
            forall|j: int| 0 <= j < shares@.len() ==> (#[trigger] shares@[j]).1.wf(),
        ensures
            r == Err::<Signature, Error>(Error::NotEnoughShares) <==> shares@.len()
                <= self.threshold_spec(),
            r == Err::<Signature, Error>(Error::DuplicateEntry) <==> shares@.len()
                > self.threshold_spec() && !denominators_nonzero(
                share_points(shares@, self.threshold_spec() as nat),
            ),
            r is Ok <==> shares@.len() > self.threshold_spec() && denominators_nonzero(
                share_points(shares@, self.threshold_spec() as nat),
            ),
            r matches Ok(sig) ==> sig.wf() && sig.log() == interpolation_at_zero(
                share_points(shares@, self.threshold_spec() as nat),
                signature_share_logs(shares@, (self.threshold_spec() + 1) as nat),
            ),
    {
        let mut samples: Vec<(u64, G2)> = Vec::new();
        let mut j: usize = 0;
        while j < shares.len()
            invariant
                j <= shares@.len(),
                samples@.len() == j,
                forall|j: int| 0 <= j < shares@.len() ==> (#[trigger] shares@[j]).1.wf(),
                forall|l: int|
                    0 <= l < j ==> (#[trigger] samples@[l]).0 == shares@[l].0 && samples@[l].1.wf()
                        && samples@[l].1.log() == shares@[l].1.log(),
            decreases shares@.len() - j,
        {
            samples.push((shares[j].0, shares[j].1.0.point()));
            j = j + 1;
        }
        let t = self.commit.degree();
        proof {
            assert(sample_indices(samples@) =~= sample_indices(shares@));
            if shares@.len() > t {
                assert(sample_logs_g2(samples@, (t + 1) as nat) =~= signature_share_logs(
                    shares@,
                    (t + 1) as nat,
                ));
            }
        }
        match interpolate_g2(t, &samples) {
            Ok(p) => Ok(Signature::from_point(p)),
            Err(e) => Err(e),
        }
    }

    /// Combines the first `threshold + 1` decryption shares and unmasks the ciphertext's message.
    pub fn decrypt(&self, shares: &Vec<(u64, DecryptionShare)>, ct: &Ciphertext) -> (r: Result<
        Vec<u8>,
        Error,
    >)
        requires
            self.wf(),
            forall|j: int| 0 <= j < shares@.len() ==> (#[trigger] shares@[j]).1.wf(),
        ensures
            r == Err::<Vec<u8>, Error>(Error::NotEnoughShares) <==> shares@.len()
                <= self.threshold_spec(),
            r == Err::<Vec<u8>, Error>(Error::DuplicateEntry) <==> shares@.len()
                > self.threshold_spec() && !denominators_nonzero(
                share_points(shares@, self.threshold_spec() as nat),
            ),
            r is Ok <==> shares@.len() > self.threshold_spec() && denominators_nonzero(
                share_points(shares@, self.threshold_spec() as nat),
            ),
            r matches Ok(m) ==> m@ == xor_with_hash_spec(
                g1_encoding(
                    interpolation_at_zero(
                        share_points(shares@, self.threshold_spec() as nat),
                        decryption_share_logs(shares@, (self.threshold_spec() + 1) as nat),
                    ),
                ),
                ct.v_bytes(),
            ),
    {
        let mut samples: Vec<(u64, G1)> = Vec::new();
        let mut j: usize = 0;
        while j < shares.len()
            invariant
                j <= shares@.len(),
                samples@.len() == j,
                forall|j: int| 0 <= j < shares@.len() ==> (#[trigger] shares@[j]).1.wf(),
                forall|l: int|
                    0 <= l < j ==> (#[trigger] samples@[l]).0 == shares@[l].0 && samples@[l].1.wf()
                        && samples@[l].1.log() == shares@[l].1.log(),
            decreases shares@.len() - j,
        {
            samples.push((shares[j].0, shares[j].1.point()));
            j = j + 1;
        }
        let t = self.commit.degree();
        proof {
            assert(sample_indices(samples@) =~= sample_indices(shares@));
            if shares@.len() > t {
                assert(sample_logs_g1(samples@, (t + 1) as nat) =~= decryption_share_logs(
                    shares@,
                    (t + 1) as nat,
                ));
            }
        }
        match interpolate(t, &samples) {
            Ok(g) => {
                proof {
                    let v = choose|v: int| crate::group::g1_log_is(g@, v);
                    g.lemma_log(v);
                }
                let v = ct.v();
                Ok(crate::hash::xor_with_hash(&g, v.as_slice()))
            },
            Err(e) => Err(e),
        }
    }
}

/// A secret key and the secret key shares of a set, given by a polynomial whose value at `0` is
/// the master key and at `i + 1` is share `i`.
pub struct SecretKeySet {
    poly: Poly,
}

impl SecretKeySet {
    pub closed spec fn wf(&self) -> bool {
        self.poly.wf()
    }

    /// The secret polynomial.
    pub closed spec fn polynomial(&self) -> Poly {
        self.poly
    }

    pub open spec fn threshold_spec(&self) -> int {
        self.polynomial().degree_spec()
    }

    /// The set of the given polynomial.
    pub fn from_poly(poly: Poly) -> (r: SecretKeySet)
        ensures
            r.polynomial() == poly,
            r.wf() == poly.wf(),
    {
        SecretKeySet { poly }
    }

    /// A set where any `threshold + 1` shares can sign and decrypt together. Fails with
    /// `MutableAllocationFailed` where `threshold + 1` coefficients cannot be counted.
    pub fn try_random(threshold: usize, rng: &mut ThreadRng) -> (r: Result<SecretKeySet, Error>)
        ensures
            r is Err <==> threshold == usize::MAX,
            r matches Err(e) ==> e == Error::MutableAllocationFailed,
            r matches Ok(s) ==> s.wf() && s.threshold_spec() == threshold,
    {
        match Poly::try_random(threshold, rng) {
            Ok(poly) => Ok(SecretKeySet { poly }),
            Err(e) => Err(e),
        }
    }

    /// A set where any `threshold + 1` shares can sign and decrypt together.
    pub fn random(threshold: usize, rng: &mut ThreadRng) -> (r: SecretKeySet)
        requires
            threshold < usize::MAX,
        ensures
            r.wf(),
            r.threshold_spec() == threshold,
    {
        SecretKeySet { poly: Poly::random(threshold, rng) }
    }

    /// The threshold `t`: any `t + 1` shares can be combined.
    pub fn threshold(&self) -> (r: usize)
        requires
            self.wf(),
        ensures
            r == self.threshold_spec(),
    {
        self.poly.degree()
    }

    /// The `i`-th secret key share: the polynomial's value at `i + 1`.
    pub fn secret_key_share(&self, i: u64) -> (r: SecretKeyShare)
        requires
            self.wf(),
        ensures
            r.wf(),
            r.value() == self.polynomial().value_at(i + 1),
    {
        let mut fr = self.poly.evaluate(&Scalar::from_index_plus_one(i));
        SecretKeyShare::from_key(SecretKey::from_mut(&mut fr))
    }

    /// The master secret key: the polynomial's value at zero.
    pub fn secret_key(&self) -> (r: SecretKey)
        requires
            self.wf(),
        ensures
            r.wf(),
            r.value() == self.polynomial().value_at(0),
    {
        let mut fr = self.poly.evaluate(&Scalar::zero());
        SecretKey::from_mut(&mut fr)
    }

    /// The matching public key set, which can be shared publicly.
    pub fn public_keys(&self) -> (r: PublicKeySet)
        requires
            self.wf(),
        ensures
            r.wf(),
            r.commitment().logs() == self.polynomial().values(),
    {
        PublicKeySet { commit: self.poly.commitment() }
    }
}

} // verus!
