use threshold_crypto::display::{labelled_hex, parity_of};
use threshold_crypto::{
    hash_g2, interpolate, interpolate_g2, xor_with_hash, Ciphertext, DecryptionShare, Error,
    PublicKey, PublicKeySet, PublicKeyShare, Scalar, SecretKey, SecretKeySet, Signature,
    SignatureShare, G1, G2,
};

fn shares_of(sk_set: &SecretKeySet, indices: &[u64], msg: &[u8]) -> Vec<(u64, SignatureShare)> {
    indices
        .iter()
        .map(|&i| (i, sk_set.secret_key_share(i).sign(msg)))
        .collect()
}

#[test]
fn scalar_arithmetic_exact_values() {
    let two = Scalar::from_u64(2);
    let three = Scalar::from_u64(3);
    assert_eq!(Scalar::from_u64(5), two.add(&three));
    assert_eq!(Scalar::from_u64(6), two.mul(&three));
    assert_eq!(Scalar::one(), three.sub(&two));
    // 2 - 3 wraps around to the field order less one, which plus one is zero.
    assert_eq!(Scalar::zero(), two.sub(&three).add(&Scalar::one()));
    assert_eq!(None, Scalar::zero().inverse());
    let half = two.inverse().expect("two is invertible");
    assert_eq!(Scalar::one(), half.mul(&two));
}

#[test]
fn index_shift_at_the_largest_index() {
    let shifted = Scalar::from_index_plus_one(u64::MAX);
    assert_eq!(Scalar::from_u64(u64::MAX).add(&Scalar::one()), shifted);
    assert_eq!(Scalar::from_u64(8), Scalar::from_index_plus_one(7));
}

#[test]
fn signature_verifies_under_its_key() {
    for _ in 0..3 {
        let sk = SecretKey::random();
        let msg = b"any message at all";
        assert!(sk.public_key().verify(&sk.sign(msg), msg));
    }
}

#[test]
fn signature_of_zero_key_is_the_identity() {
    let sk = SecretKey::default();
    assert_eq!(sk.sign(b"a"), sk.sign(b"b"));
}

#[test]
fn encryption_verifies_and_decrypts() {
    let mut rng = rand::thread_rng();
    let sk = SecretKey::random();
    let pk = sk.public_key();
    for msg in [&b""[..], &b"short"[..], &[7u8; 100][..]].iter() {
        let ct = pk.encrypt_with_rng(&mut rng, msg);
        assert!(ct.verify());
        assert_eq!(Some(msg.to_vec()), sk.decrypt(&ct));
        assert_eq!(msg.len(), ct.v().len());
    }
}

#[test]
fn replacing_u_or_w_breaks_the_ciphertext() {
    let sk = SecretKey::random();
    let ct = sk.public_key().encrypt(b"attack at dawn");
    let other_u = G1::from_scalar(&Scalar::from_u64(12345));
    let other_w = hash_g2(b"unrelated");
    let bad_u = Ciphertext::new(other_u, ct.v(), ct.w());
    let bad_w = Ciphertext::new(ct.u(), ct.v(), other_w);
    assert!(!bad_u.verify());
    assert!(!bad_w.verify());
    assert_eq!(None, sk.decrypt(&bad_w));
}

#[test]
fn combined_signature_equals_master_signature() {
    let mut rng = rand::thread_rng();
    for t in 0..4usize {
        let sk_set = SecretKeySet::random(t, &mut rng);
        let pk_set = sk_set.public_keys();
        let msg = b"combine me";
        let indices: Vec<u64> = (0..=t as u64).map(|i| 3 * i + 1).collect();
        let sig = pk_set
            .combine_signatures(&shares_of(&sk_set, &indices, msg))
            .expect("enough distinct shares");
        assert_eq!(sk_set.secret_key().sign(msg), sig);
        assert!(pk_set.public_key().verify(&sig, msg));
    }
}

#[test]
fn extra_shares_are_ignored() {
    let mut rng = rand::thread_rng();
    let sk_set = SecretKeySet::random(2, &mut rng);
    let pk_set = sk_set.public_keys();
    let msg = b"ignored";
    let three = shares_of(&sk_set, &[0, 1, 2], msg);
    let mut five = three.clone();
    five.push((2, sk_set.secret_key_share(2).sign(msg)));
    five.push((9, sk_set.secret_key_share(9).sign(msg)));
    assert_eq!(
        pk_set.combine_signatures(&three),
        pk_set.combine_signatures(&five)
    );
}

#[test]
fn too_few_shares_is_an_error() {
    let mut rng = rand::thread_rng();
    let sk_set = SecretKeySet::random(3, &mut rng);
    let pk_set = sk_set.public_keys();
    let shares = shares_of(&sk_set, &[1, 2, 3], b"m");
    assert_eq!(Err(Error::NotEnoughShares), pk_set.combine_signatures(&shares));
    let none: Vec<(u64, DecryptionShare)> = Vec::new();
    let ct = pk_set.public_key().encrypt(b"m");
    assert_eq!(Err(Error::NotEnoughShares), pk_set.decrypt(&none, &ct));
}

#[test]
fn duplicate_index_is_an_error() {
    let mut rng = rand::thread_rng();
    let sk_set = SecretKeySet::random(2, &mut rng);
    let pk_set = sk_set.public_keys();
    let shares = shares_of(&sk_set, &[4, 6, 4], b"m");
    assert_eq!(Err(Error::DuplicateEntry), pk_set.combine_signatures(&shares));
}

#[test]
fn try_random_reports_allocation_failure() {
    let mut rng = rand::thread_rng();
    assert_eq!(
        Some(Error::MutableAllocationFailed),
        SecretKeySet::try_random(usize::MAX, &mut rng).err()
    );
    let sks = SecretKeySet::try_random(2, &mut rng).expect("small threshold");
    assert_eq!(2, sks.threshold());
    assert_eq!(2, sks.public_keys().threshold());
}

#[test]
fn interpolation_of_degree_zero_returns_the_sample() {
    let p = G1::from_scalar(&Scalar::from_u64(99));
    assert_eq!(Ok(p.clone()), interpolate(0, &vec![(17, p)]));
    let q = hash_g2(b"q");
    assert_eq!(Ok(q.clone()), interpolate_g2(0, &vec![(3, q)]));
}

#[test]
fn interpolation_of_a_line() {
    // f(x) = 5 + 2x, sampled at x = 1 and x = 2 (indices 0 and 1).
    let at = |v: u64| G1::from_scalar(&Scalar::from_u64(v));
    let samples = vec![(0u64, at(7)), (1u64, at(9))];
    assert_eq!(Ok(at(5)), interpolate(1, &samples));
}

#[test]
fn commitment_evaluates_like_the_polynomial() {
    let mut rng = rand::thread_rng();
    let poly = threshold_crypto::Poly::random(4, &mut rng);
    let comm = poly.commitment();
    for x in [0u64, 1, 2, 1000].iter() {
        let x = Scalar::from_u64(*x);
        assert_eq!(G1::from_scalar(&poly.evaluate(&x)), comm.evaluate(&x));
    }
}

#[test]
fn key_shares_match_public_key_shares() {
    let mut rng = rand::thread_rng();
    let sk_set = SecretKeySet::random(2, &mut rng);
    let pk_set = sk_set.public_keys();
    for i in [0u64, 5, 77].iter() {
        assert_eq!(
            pk_set.public_key_share(*i),
            sk_set.secret_key_share(*i).public_key_share()
        );
    }
    assert_eq!(pk_set.public_key(), sk_set.secret_key().public_key());
}

#[test]
fn public_material_round_trips_through_bytes() {
    let mut rng = rand::thread_rng();
    let sk_set = SecretKeySet::random(1, &mut rng);
    let pk_share = sk_set.public_keys().public_key_share(3);
    assert_eq!(48, pk_share.to_bytes().len());
    assert_eq!(Some(pk_share.clone()), PublicKeyShare::from_bytes(&pk_share.to_bytes()));
    let ct = sk_set.public_keys().public_key().encrypt(b"x");
    let share = sk_set.secret_key_share(3).decrypt_share(&ct).expect("valid");
    assert_eq!(Some(share.clone()), DecryptionShare::from_bytes(&share.to_bytes()));
    let sig = SecretKey::random().sign(b"s");
    assert_eq!(96, sig.to_bytes().len());
    let set_again = PublicKeySet::from_commitment(
        threshold_crypto::Commitment::from_points(sk_set.public_keys().commitment_of().to_points())
            .expect("non-empty"),
    );
    assert_eq!(sk_set.public_keys(), set_again);
}

#[test]
fn invalid_bytes_do_not_decode() {
    assert_eq!(None, PublicKey::from_bytes(&[0u8; 47]));
    assert_eq!(None, PublicKey::from_bytes(&[0xffu8; 48]));
    assert_eq!(None, Signature::from_bytes(&[0xffu8; 96]));
    assert_eq!(None, G2::from_bytes(&[1u8; 3]));
}

#[test]
fn keystream_masks_and_unmasks() {
    let g = G1::from_scalar(&Scalar::from_u64(42));
    let zeros = [0u8; 16];
    let masked = xor_with_hash(&g, &zeros);
    assert_eq!(16, masked.len());
    assert_ne!(zeros.to_vec(), masked);
    assert_eq!(zeros.to_vec(), xor_with_hash(&g, &masked));
}

#[test]
fn hashes_are_points_other_than_the_message() {
    let h = hash_g2(b"abc");
    assert_eq!(96, h.to_bytes().len());
    assert_eq!(h, hash_g2(b"abc"));
    assert_ne!(h, hash_g2(b"abd"));
}

#[test]
fn hex_labels_and_parity() {
    assert_eq!(
        "X(0123456789)",
        labelled_hex("X", &[0x01, 0x23, 0x45, 0x67, 0x89, 0xab])
    );
    assert!(parity_of(&[0x01]));
    assert!(!parity_of(&[0x03]));
    assert!(!parity_of(&[0x01, 0x02]));
    assert!(!parity_of(&[]));
    let sk = SecretKey::random();
    let shown = sk.revealed();
    assert!(shown.starts_with("SecretKey("));
    assert_eq!(21, shown.len());
    let sig = sk.sign(b"coin");
    assert_eq!(sig.parity(), sig.clone().parity());
}

#[test]
fn secret_key_moves_out_of_its_source() {
    let mut fr = Scalar::from_u64(77);
    let sk = SecretKey::from_mut(&mut fr);
    assert_eq!(Scalar::zero(), fr);
    assert_eq!(
        sk.public_key(),
        PublicKey::from_bytes(&G1::from_scalar(&Scalar::from_u64(77)).to_bytes()).unwrap()
    );
}
