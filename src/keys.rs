//! Keys, signatures, ciphertexts and their shares.
//!
//! A secret key is a scalar `sk`; its public key is `sk·B1`. A signature of a message is
//! `sk·H2(msg)`, checked with the pairing. Encryption masks the message with a keystream derived
//! from `r·pk` for a fresh scalar `r`, and binds the ciphertext with `W = r·H12(U, V)`.

use crate::field::{modulus, new_thread_rng, os_random_scalar, random_scalar, Scalar};
use crate::display::{byte_parity, hex_prefix, labelled_hex, parity_of};
use crate::group::{g1_encoding, g1_uncompressed, g2_uncompressed, is_g1_encoding, is_g2_encoding, pairings_match, G1, G2};
use crate::hash::{h12_input, hash_g1_g2, hash_g2, hash_g2_log, xor_with_hash, xor_with_hash_spec};
use rand::ThreadRng;
use vstd::prelude::*;

verus! {

/// The logarithm of `H12(u, v)`.
pub open spec fn h12_log(u: Seq<u8>, v: Seq<u8>) -> int {
    hash_g2_log(h12_input(u, v))
}

/// A public key: the point `sk·B1` of `G1`.
#[derive(Clone, PartialEq, Eq, Debug, Hash)]
pub struct PublicKey(G1);

/// A public key share.
#[derive(Clone, PartialEq, Eq, Debug, Hash)]
pub struct PublicKeyShare(PublicKey);

/// A signature: the point `sk·H2(msg)` of `G2`.
#[derive(Clone, PartialEq, Eq, Debug, Hash)]
pub struct Signature(G2);

/// A signature share.
#[derive(Clone, PartialEq, Eq, Debug, Hash)]
pub struct SignatureShare(pub Signature);

/// A secret key: one scalar, kept on the heap and overwritten when the key is dropped.
#[derive(Clone, PartialEq, Eq)]
pub struct SecretKey(Box<Scalar>);

/// A secret key share.
#[derive(Clone, PartialEq, Eq)]
pub struct SecretKeyShare(SecretKey);

/// An encrypted message `(U, V, W)`: `U = r·B1`, `V` the masked message, `W = r·H12(U, V)`.
#[derive(Clone, PartialEq, Eq, Debug, Hash)]
pub struct Ciphertext(G1, Vec<u8>, G2);

/// A decryption share: `sk_i·U` for a key share `sk_i` and a ciphertext's `U`.
#[derive(Clone, PartialEq, Eq, Debug, Hash)]
pub struct DecryptionShare(G1);

impl PublicKey {
    pub closed spec fn wf(&self) -> bool {
        self.0.wf()
    }

    pub(crate) fn from_point(p: G1) -> (r: PublicKey)
        ensures
            r.wf() == p.wf(),
            r.log() == p.log(),
            r.bytes() == p@,
    {
        PublicKey(p)
    }

    /// The logarithm of the key: the secret scalar it was made from.
    pub closed spec fn log(&self) -> int {
        self.0.log()
    }

    /// The compressed encoding of the key.
    pub closed spec fn bytes(&self) -> Seq<u8> {
        self.0@
    }

    /// Whether `e(pk, h·B2) = e(B1, s·B2)`: the signature of logarithm `s` matches the point of
    /// `G2` of logarithm `h`.
    pub open spec fn accepts_g2(&self, s: int, h: int) -> bool {
        (self.log() * h) % modulus() == s
    }

    /// Whether a signature of logarithm `s` matches the message.
    pub open spec fn accepts(&self, s: int, msg: Seq<u8>) -> bool {
        self.accepts_g2(s, hash_g2_log(msg))
    }

    /// Returns `true` if the signature matches the element of `G2`.
    pub fn verify_g2(&self, sig: &Signature, hash: &G2) -> (r: bool)
        requires
            self.wf(),
            sig.wf(),
            hash.wf(),
        ensures
            r == self.accepts_g2(sig.log(), hash.log()),
    {
        let one = G1::from_scalar(&Scalar::one());
        let r = pairings_match(&self.0, hash, &one, &sig.0);
        assert((1 * sig.log()) % modulus() == sig.log());
        r
    }

    /// Returns `true` if the signature matches the message: `verify_g2(sig, hash_g2(msg))`.
    pub fn verify(&self, sig: &Signature, msg: &[u8]) -> (r: bool)
        requires
            self.wf(),
            sig.wf(),
        ensures
            r == self.accepts(sig.log(), msg@),
    {
        self.verify_g2(sig, &hash_g2(msg))
    }

    /// Encrypts the message with a random scalar from the operating system's generator.
    pub fn encrypt(&self, msg: &[u8]) -> (r: Ciphertext)
        requires
            self.wf(),
        ensures
            r.wf(),
            r.valid(),
            r.encrypts(self.log(), msg@),
    {
        let k = os_random_scalar();
        self.encrypt_with_scalar(&k, msg)
    }

    /// Encrypts the message with a random scalar drawn from `rng`.
    pub fn encrypt_with_rng(&self, rng: &mut ThreadRng, msg: &[u8]) -> (r: Ciphertext)
        requires
            self.wf(),
        ensures
            r.wf(),
            r.valid(),
            r.encrypts(self.log(), msg@),
    {
        let k = random_scalar(rng);
        self.encrypt_with_scalar(&k, msg)
    }

    /// Encrypts the message with the scalar `k`, drawn at random by the caller: `(k·B1, X(k·pk, msg), k·H12(U, V))`.
    pub fn encrypt_with_scalar(&self, k: &Scalar, msg: &[u8]) -> (r: Ciphertext)
        requires
            self.wf(),
            k.wf(),
        ensures
            r.wf(),
            r.valid(),
            r.encrypts(self.log(), msg@),
            r.u_log() == k.value(),
    {
        let u = G1::from_scalar(k);
        let g = self.0.mul(k);
        let v = xor_with_hash(&g, msg);
        let h = hash_g1_g2(&u, v.as_slice());
        let w = h.mul(k);
        assert((self.log() * k.value()) % modulus() == (k.value() * self.log()) % modulus())
            by (nonlinear_arith);
        assert(g@ == g1_encoding((self.log() * u.log()) % modulus()));
        assert((h.log() * k.value()) % modulus() == (k.value() * h.log()) % modulus())
            by (nonlinear_arith);
        Ciphertext(u, v, w)
    }

    /// The compressed encoding of the key.
    pub fn to_bytes(&self) -> (r: Vec<u8>)
        ensures
            r@ == self.bytes(),
    {
        self.0.to_bytes()
    }

    /// Decodes a key from its compressed encoding.
    pub fn from_bytes(b: &[u8]) -> (r: Option<PublicKey>)
        ensures
            r is Some <==> is_g1_encoding(b@),
            r matches Some(k) ==> k.wf() && k.bytes() == b@,
    {
        match G1::from_bytes(b) {
            Some(p) => Some(PublicKey(p)),
            None => None,
        }
    }

    /// The encoding of a valid key is one that decodes.
    pub proof fn lemma_bytes_decode(&self)
        requires
            self.wf(),
        ensures
            is_g1_encoding(self.bytes()),
    {
    }
}

impl PublicKeyShare {
    pub closed spec fn wf(&self) -> bool {
        self.0.wf()
    }

    pub(crate) fn from_key(k: PublicKey) -> (r: PublicKeyShare)
        ensures
            r.wf() == k.wf(),
            r.log() == k.log(),
            r.bytes() == k.bytes(),
    {
        PublicKeyShare(k)
    }

    /// The logarithm of the key share.
    pub closed spec fn log(&self) -> int {
        self.0.log()
    }

    /// The compressed encoding of the key share.
    pub closed spec fn bytes(&self) -> Seq<u8> {
        self.0.bytes()
    }

    /// The public key that this share holds.
    pub fn public_key(&self) -> (r: PublicKey)
        ensures
            r.log() == self.log(),
            r.bytes() == self.bytes(),
            r.wf() == self.wf(),
    {
        PublicKey(self.0.0.copied())
    }

    /// Returns `true` if the signature share matches the element of `G2`.
    pub fn verify_g2(&self, sig: &SignatureShare, hash: &G2) -> (r: bool)
        requires
            self.wf(),
            sig.wf(),
            hash.wf(),
        ensures
            r == ((self.log() * hash.log()) % modulus() == sig.log()),
    {
        self.0.verify_g2(&sig.0, hash)
    }

    /// Returns `true` if the signature share matches the message.
    pub fn verify(&self, sig: &SignatureShare, msg: &[u8]) -> (r: bool)
        requires
            self.wf(),
            sig.wf(),
        ensures
            r == ((self.log() * hash_g2_log(msg@)) % modulus() == sig.log()),
    {
        self.0.verify(&sig.0, msg)
    }

    /// Returns `true` if the decryption share matches the ciphertext:
    /// `e(share, H12(U, V)) = e(pk_i, W)`.
    pub fn verify_decryption_share(&self, share: &DecryptionShare, ct: &Ciphertext) -> (r: bool)
        requires
            self.wf(),
            share.wf(),
            ct.wf(),
        ensures
            r == ((share.log() * h12_log(ct.u_bytes(), ct.v_bytes())) % modulus() == (self.log()
                * ct.w_log()) % modulus()),
    {
        let hash = hash_g1_g2(&ct.0, ct.1.as_slice());
        pairings_match(&share.0, &hash, &self.0.0, &ct.2)
    }

    /// The compressed encoding of the key share.
    pub fn to_bytes(&self) -> (r: Vec<u8>)
        ensures
            r@ == self.bytes(),
    {
        self.0.to_bytes()
    }

    /// Decodes a key share from its compressed encoding.
    pub fn from_bytes(b: &[u8]) -> (r: Option<PublicKeyShare>)
        ensures
            r is Some <==> is_g1_encoding(b@),
            r matches Some(k) ==> k.wf() && k.bytes() == b@,
    {
        match PublicKey::from_bytes(b) {
            Some(k) => Some(PublicKeyShare(k)),
            None => None,
        }
    }
}

impl Signature {
    pub closed spec fn wf(&self) -> bool {
        self.0.wf()
    }

    pub(crate) fn from_point(p: G2) -> (r: Signature)
        ensures
            r.wf() == p.wf(),
            r.log() == p.log(),
    {
        Signature(p)
    }

    pub(crate) fn point(&self) -> (r: G2)
        ensures
            r.wf() == self.wf(),
            r.log() == self.log(),
    {
        self.0.copied()
    }

    /// The logarithm of the signature to the base `B2`.
    pub closed spec fn log(&self) -> int {
        self.0.log()
    }

    /// The compressed encoding of the signature.
    pub closed spec fn bytes(&self) -> Seq<u8> {
        self.0@
    }

    /// The compressed encoding of the signature.
    pub fn to_bytes(&self) -> (r: Vec<u8>)
        ensures
            r@ == self.bytes(),
    {
        self.0.to_bytes()
    }

    /// A bit derived from the signature: the parity of the number of one bits of the exclusive or
    /// of all bytes of its uncompressed encoding.
    pub fn parity(&self) -> (r: bool)
        requires
            self.wf(),
        ensures
            r == byte_parity(g2_uncompressed(self.log())),
    {
        let uncomp = self.0.to_uncompressed();
        parity_of(uncomp.as_slice())
    }

    /// Decodes a signature from its compressed encoding.
    pub fn from_bytes(b: &[u8]) -> (r: Option<Signature>)
        ensures
            r is Some <==> is_g2_encoding(b@),
            r matches Some(s) ==> s.wf() && s.bytes() == b@,
    {
        match G2::from_bytes(b) {
            Some(p) => Some(Signature(p)),
            None => None,
        }
    }

    /// The encoding of a valid signature is one that decodes.
    pub proof fn lemma_bytes_decode(&self)
        requires
            self.wf(),
        ensures
            is_g2_encoding(self.bytes()),
    {
    }
}

impl SignatureShare {
    pub open spec fn wf(&self) -> bool {
        self.0.wf()
    }

    pub open spec fn log(&self) -> int {
        self.0.log()
    }
}

impl SecretKey {
    /// The scalar is reduced modulo the field order.
    pub open spec fn wf(&self) -> bool {
        0 <= self.value() < modulus()
    }

    /// The secret scalar.
    pub closed spec fn value(&self) -> int {
        self.0.value()
    }

    /// The logarithm of the signature of a message under this key: `sk·H2(msg)`.
    pub open spec fn signature_log(&self, msg: Seq<u8>) -> int {
        (hash_g2_log(msg) * self.value()) % modulus()
    }

    /// What decrypting the ciphertext gives: `None` for an invalid one, else `X(sk·U, V)`.
    pub open spec fn decryption(&self, ct: &Ciphertext) -> Option<Seq<u8>> {
        if ct.valid() {
            Some(xor_with_hash_spec(g1_encoding((ct.u_log() * self.value()) % modulus()), ct.v_bytes()))
        } else {
            None
        }
    }

    /// `SecretKey(..)` with the first ten hexadecimal digits of the matching public key's
    /// uncompressed encoding;
    /// the scalar itself is not shown.
    pub fn revealed(&self) -> (r: String)
        requires
            self.wf(),
        ensures
            r@ == "SecretKey"@ + seq!['('] + hex_prefix(g1_uncompressed(self.value())) + seq![')'],
    {
        let uncomp = self.public_key().0.to_uncompressed();
        labelled_hex("SecretKey", uncomp.as_slice())
    }

    /// Moves the scalar into a new key on the heap and overwrites `fr` with zero.
    pub fn from_mut(fr: &mut Scalar) -> (r: SecretKey)
        requires
            old(fr).wf(),
        ensures
            r.wf(),
            r.value() == old(fr).value(),
            final(fr).wf(),
            final(fr).value() == 0,
    {
        let boxed = Box::new(*fr);
        *fr = Scalar::zero();
        SecretKey(boxed)
    }

    /// The key of the scalar zero.
    pub fn zero() -> (r: SecretKey)
        ensures
            r.wf(),
            r.value() == 0,
    {
        let mut fr = Scalar::zero();
        SecretKey::from_mut(&mut fr)
    }

    /// A key with a scalar drawn from `rng`.
    pub fn rand(rng: &mut ThreadRng) -> (r: SecretKey)
        ensures
            r.wf(),
    {
        let mut fr = random_scalar(rng);
        SecretKey::from_mut(&mut fr)
    }

    /// A key with a scalar drawn from the thread-local generator.
    pub fn random() -> (r: SecretKey)
        ensures
            r.wf(),
    {
        let mut rng = new_thread_rng();
        SecretKey::rand(&mut rng)
    }

    /// The matching public key, `sk·B1`.
    pub fn public_key(&self) -> (r: PublicKey)
        requires
            self.wf(),
        ensures
            r.wf(),
            r.log() == self.value(),
    {
        PublicKey(G1::from_scalar(&*self.0))
    }

    /// Signs the given element of `G2`: `sk·hash`.
    pub fn sign_g2(&self, hash: &G2) -> (r: Signature)
        requires
            self.wf(),
            hash.wf(),
        ensures
            r.wf(),
            r.log() == (hash.log() * self.value()) % modulus(),
    {
        Signature(hash.mul(&*self.0))
    }

    /// Signs the message: `sign_g2(hash_g2(msg))`.
    pub fn sign(&self, msg: &[u8]) -> (r: Signature)
        requires
            self.wf(),
        ensures
            r.wf(),
            r.log() == self.signature_log(msg@),
    {
        self.sign_g2(&hash_g2(msg))
    }

    /// The decrypted message, or `None` where the ciphertext is not valid.
    pub fn decrypt(&self, ct: &Ciphertext) -> (r: Option<Vec<u8>>)
        requires
            self.wf(),
            ct.wf(),
        ensures
            r is Some <==> ct.valid(),
            r matches Some(m) ==> self.decryption(ct) == Some(m@),
    {
        if !ct.verify() {
            return None;
        }
        let g = ct.0.mul(&*self.0);
        Some(xor_with_hash(&g, ct.1.as_slice()))
    }
}

impl SecretKeyShare {
    /// The scalar is reduced modulo the field order.
    pub open spec fn wf(&self) -> bool {
        0 <= self.value() < modulus()
    }

    pub(crate) fn from_key(k: SecretKey) -> (r: SecretKeyShare)
        ensures
            r.wf() == k.wf(),
            r.value() == k.value(),
    {
        SecretKeyShare(k)
    }

    /// The secret scalar of the share.
    pub closed spec fn value(&self) -> int {
        self.0.value()
    }

    /// `SecretKeyShare(..)` with the first ten hexadecimal digits of the matching public key
    /// share's uncompressed encoding; the scalar itself is not shown.
    pub fn revealed(&self) -> (r: String)
        requires
            self.wf(),
        ensures
            r@ == "SecretKeyShare"@ + seq!['('] + hex_prefix(g1_uncompressed(self.value())) + seq![
                ')',
            ],
    {
        let uncomp = self.0.public_key().0.to_uncompressed();
        labelled_hex("SecretKeyShare", uncomp.as_slice())
    }

    /// Moves the scalar into a new key share on the heap and overwrites `fr` with zero.
    pub fn from_mut(fr: &mut Scalar) -> (r: SecretKeyShare)
        requires
            old(fr).wf(),
        ensures
            r.wf(),
            r.value() == old(fr).value(),
            final(fr).wf(),
            final(fr).value() == 0,
    {
        SecretKeyShare(SecretKey::from_mut(fr))
    }

    /// The secret key that this share holds.
    pub fn secret_key(&self) -> (r: SecretKey)
        requires
            self.wf(),
        ensures
            r.wf(),
            r.value() == self.value(),
    {
        let mut fr = *self.0.0;
        SecretKey::from_mut(&mut fr)
    }

    /// The matching public key share, `sk_i·B1`.
    pub fn public_key_share(&self) -> (r: PublicKeyShare)
        requires
            self.wf(),
        ensures
            r.wf(),
            r.log() == self.value(),
    {
        PublicKeyShare(self.0.public_key())
    }

    /// Signs the given element of `G2`.
    pub fn sign_g2(&self, hash: &G2) -> (r: SignatureShare)
        requires
            self.wf(),
            hash.wf(),
        ensures
            r.wf(),
            r.log() == (hash.log() * self.value()) % modulus(),
    {
        SignatureShare(self.0.sign_g2(hash))
    }

    /// Signs the message.
    pub fn sign(&self, msg: &[u8]) -> (r: SignatureShare)
        requires
            self.wf(),
        ensures
            r.wf(),
            r.log() == (hash_g2_log(msg@) * self.value()) % modulus(),
    {
        SignatureShare(self.0.sign(msg))
    }

    /// The decryption share `sk_i·U`, or `None` where the ciphertext is not valid.
    pub fn decrypt_share(&self, ct: &Ciphertext) -> (r: Option<DecryptionShare>)
        requires
            self.wf(),
            ct.wf(),
        ensures
            r is Some <==> ct.valid(),
            r matches Some(s) ==> s.wf() && s.log() == (ct.u_log() * self.value()) % modulus(),
    {
        if !ct.verify() {
            return None;
        }
        Some(self.decrypt_share_no_verify(ct))
    }

    /// The decryption share `sk_i·U`, without checking the ciphertext.
    pub fn decrypt_share_no_verify(&self, ct: &Ciphertext) -> (r: DecryptionShare)
        requires
            self.wf(),
            ct.wf(),
        ensures
            r.wf(),
            r.log() == (ct.u_log() * self.value()) % modulus(),
    {
        DecryptionShare(ct.0.mul(&*self.0.0))
    }
}

impl Drop for SecretKey {
    /// Overwrites the scalar with zero before its memory is released.
    fn drop(&mut self)
        opens_invariants none
        no_unwind
    {
        *self.0 = Scalar::zero();
        observe(&*self.0);
    }
}

/// Relies on `std::hint::black_box`: the value counts as read, so that the write before the
/// call is not removed as dead.
#[verifier::external_body]
fn observe(s: &Scalar)
    opens_invariants none
    no_unwind
{
    std::hint::black_box(s);
}

impl Default for SecretKey {
    /// The key of the scalar zero.
    fn default() -> (r: SecretKey)
        ensures
            r.wf(),
            r.value() == 0,
    {
        SecretKey::zero()
    }
}

impl Ciphertext {
    pub closed spec fn wf(&self) -> bool {
        self.0.wf() && self.2.wf()
    }

    /// The logarithm of `U`.
    pub closed spec fn u_log(&self) -> int {
        self.0.log()
    }

    /// The encoding of `U`.
    pub closed spec fn u_bytes(&self) -> Seq<u8> {
        self.0@
    }

    /// The masked message `V`.
    pub closed spec fn v_bytes(&self) -> Seq<u8> {
        self.1@
    }

    /// The logarithm of `W`.
    pub closed spec fn w_log(&self) -> int {
        self.2.log()
    }

    /// The encoding of `W`.
    pub closed spec fn w_bytes(&self) -> Seq<u8> {
        self.2@
    }

    /// Well-formedness of the ciphertext: `e(B1, W) = e(U, H12(U, V))`.
    pub open spec fn valid(&self) -> bool {
        self.w_log() == (self.u_log() * h12_log(self.u_bytes(), self.v_bytes())) % modulus()
    }

    /// The ciphertext masks `msg` for the public key of logarithm `pk`: `V = X(r·pk, msg)` where
    /// `U = r·B1`.
    pub open spec fn encrypts(&self, pk: int, msg: Seq<u8>) -> bool {
        self.v_bytes() == xor_with_hash_spec(g1_encoding((pk * self.u_log()) % modulus()), msg)
    }

    /// A ciphertext from its three parts, as they were sent; `verify` tells whether it is valid.
    pub fn new(u: G1, v: Vec<u8>, w: G2) -> (r: Ciphertext)
        ensures
            r.u_bytes() == u@,
            r.v_bytes() == v@,
            r.w_bytes() == w@,
            r.wf() == (u.wf() && w.wf()),
    {
        Ciphertext(u, v, w)
    }

    /// The point `U`.
    pub fn u(&self) -> (r: G1)
        ensures
            r@ == self.u_bytes(),
            self.wf() ==> r.wf() && r.log() == self.u_log(),
    {
        self.0.copied()
    }

    /// The masked message `V`.
    pub fn v(&self) -> (r: Vec<u8>)
        ensures
            r@ == self.v_bytes(),
    {
        self.1.clone()
    }

    /// The point `W`.
    pub fn w(&self) -> (r: G2)
        ensures
            r@ == self.w_bytes(),
            self.wf() ==> r.wf() && r.log() == self.w_log(),
    {
        self.2.copied()
    }

    /// Returns `true` if the ciphertext is valid; this check prevents chosen-ciphertext attacks.
    pub fn verify(&self) -> (r: bool)
        requires
            self.wf(),
        ensures
            r == self.valid(),
    {
        let hash = hash_g1_g2(&self.0, self.1.as_slice());
        let one = G1::from_scalar(&Scalar::one());
        let r = pairings_match(&one, &self.2, &self.0, &hash);
        assert((1 * self.w_log()) % modulus() == self.w_log());
        r
    }
}

impl DecryptionShare {
    pub closed spec fn wf(&self) -> bool {
        self.0.wf()
    }

    pub(crate) fn point(&self) -> (r: G1)
        ensures
            r.wf() == self.wf(),
            r.log() == self.log(),
    {
        self.0.copied()
    }

    /// The logarithm of the share.
    pub closed spec fn log(&self) -> int {
        self.0.log()
    }

    /// The compressed encoding of the share.
    pub closed spec fn bytes(&self) -> Seq<u8> {
        self.0@
    }

    /// The compressed encoding of the share.
    pub fn to_bytes(&self) -> (r: Vec<u8>)
        ensures
            r@ == self.bytes(),
    {
        self.0.to_bytes()
    }

    /// Decodes a share from its compressed encoding.
    pub fn from_bytes(b: &[u8]) -> (r: Option<DecryptionShare>)
        ensures
            r is Some <==> is_g1_encoding(b@),
            r matches Some(s) ==> s.wf() && s.bytes() == b@,
    {
        match G1::from_bytes(b) {
            Some(p) => Some(DecryptionShare(p)),
            None => None,
        }
    }
}

} // verus!
