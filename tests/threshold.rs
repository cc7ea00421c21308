use std::collections::BTreeMap;

use rand::Rng;
use threshold_crypto::{
    hash_g1_g2, hash_g2, interpolate, xor_with_hash, Ciphertext, DecryptionShare, Error, Poly,
    PublicKey, Scalar, SecretKey, SecretKeySet, Signature, SignatureShare, G1,
};

fn random_g1<R: Rng>(rng: &mut R) -> G1 {
    G1::from_scalar(&Scalar::from_u64(rng.gen()))
}

#[test]
fn test_interpolate() {
    let mut rng = rand::thread_rng();
    for deg in 0..5 {
        println!("deg = {}", deg);
        let comm = Poly::random(deg, &mut rng).commitment();
        let mut values = Vec::new();
        let mut x: u64 = 0;
        for _ in 0..=deg {
            x += rng.gen_range(1, 5);
            values.push((x - 1, comm.evaluate(&Scalar::from_u64(x))));
        }
        let actual = interpolate(deg, &values).expect("wrong number of values");
        assert_eq!(comm.evaluate(&Scalar::from_u64(0)), actual);
    }
}

#[test]
fn test_simple_sig() {
    let sk0 = SecretKey::random();
    let sk1 = SecretKey::random();
    let pk0 = sk0.public_key();
    let msg0 = b"Real news";
    let msg1 = b"Fake news";
    assert!(pk0.verify(&sk0.sign(msg0), msg0));
    assert!(!pk0.verify(&sk1.sign(msg0), msg0)); // Wrong key.
    assert!(!pk0.verify(&sk0.sign(msg1), msg0)); // Wrong message.
}

#[test]
fn test_threshold_sig() {
    let mut rng = rand::thread_rng();
    let sk_set = SecretKeySet::random(3, &mut rng);
    let pk_set = sk_set.public_keys();
    let pk_master = pk_set.public_key();

    // The keys differ, and the first coefficient is the master key.
    assert_ne!(pk_master, pk_set.public_key_share(0).public_key());
    assert_ne!(pk_master, pk_set.public_key_share(1).public_key());
    assert_ne!(pk_master, pk_set.public_key_share(2).public_key());

    // The master secret key is not handed out as a share.
    let sk_master = sk_set.secret_key();
    let sk_share_0 = sk_set.secret_key_share(0).secret_key();
    let sk_share_1 = sk_set.secret_key_share(1).secret_key();
    let sk_share_2 = sk_set.secret_key_share(2).secret_key();
    assert!(sk_master != sk_share_0);
    assert!(sk_master != sk_share_1);
    assert!(sk_master != sk_share_2);

    let msg = "Totally real news";

    // The threshold is 3, so 4 signature shares suffice.
    let sigs: BTreeMap<u64, SignatureShare> = [5u64, 8, 7, 10]
        .iter()
        .map(|&i| {
            let sig = sk_set.secret_key_share(i).sign(msg.as_bytes());
            (i, sig)
        })
        .collect();

    // Each share is a valid signature matching its public key share.
    for (i, sig) in &sigs {
        assert!(pk_set.public_key_share(*i).verify(sig, msg.as_bytes()));
    }

    // Combined, they produce a signature matching the master public key.
    let shares: Vec<(u64, SignatureShare)> = sigs.iter().map(|(i, s)| (*i, s.clone())).collect();
    let sig = pk_set.combine_signatures(&shares).expect("signatures match");
    assert!(pk_set.public_key().verify(&sig, msg.as_bytes()));

    // A different set of signatories produces the same signature.
    let sigs2: BTreeMap<u64, SignatureShare> = [42u64, 43, 44, 45]
        .iter()
        .map(|&i| {
            let sig = sk_set.secret_key_share(i).sign(msg.as_bytes());
            (i, sig)
        })
        .collect();
    let shares2: Vec<(u64, SignatureShare)> = sigs2.iter().map(|(i, s)| (*i, s.clone())).collect();
    let sig2 = pk_set.combine_signatures(&shares2).expect("signatures match");
    assert_eq!(sig, sig2);
}

#[test]
fn test_simple_enc() {
    let sk_bob = SecretKey::random();
    let sk_eve = SecretKey::random();
    let pk_bob = sk_bob.public_key();
    let msg = b"Muffins in the canteen today! Don't tell Eve!";
    let ciphertext = pk_bob.encrypt(&msg[..]);
    assert!(ciphertext.verify());

    // Bob can decrypt the message.
    let decrypted = sk_bob.decrypt(&ciphertext).expect("invalid ciphertext");
    assert_eq!(msg[..], decrypted[..]);

    // Eve can't.
    let decrypted_eve = sk_eve.decrypt(&ciphertext).expect("invalid ciphertext");
    assert_ne!(msg[..], decrypted_eve[..]);

    // Eve tries to trick Bob into decrypting `msg` xor `v`, but it doesn't validate.
    let (u, v, w) = (ciphertext.u(), ciphertext.v(), ciphertext.w());
    let fake_ciphertext = Ciphertext::new(u, vec![0; v.len()], w);
    assert!(!fake_ciphertext.verify());
    assert_eq!(None, sk_bob.decrypt(&fake_ciphertext));
}

#[test]
fn test_random_extreme_thresholds() {
    let mut rng = rand::thread_rng();
    let sks = SecretKeySet::random(0, &mut rng);
    assert_eq!(0, sks.threshold());
    assert!(SecretKeySet::try_random(usize::max_value(), &mut rng).is_err());
}

#[test]
fn test_threshold_enc() {
    let mut rng = rand::thread_rng();
    let sk_set = SecretKeySet::random(3, &mut rng);
    let pk_set = sk_set.public_keys();
    let msg = b"Totally real news";
    let ciphertext = pk_set.public_key().encrypt(&msg[..]);

    // The threshold is 3, so 4 decryption shares suffice.
    let shares: BTreeMap<u64, DecryptionShare> = [5u64, 8, 7, 10]
        .iter()
        .map(|&i| {
            let dec_share = sk_set
                .secret_key_share(i)
                .decrypt_share(&ciphertext)
                .expect("ciphertext is invalid");
            (i, dec_share)
        })
        .collect();

    // Each share is valid, matching its public key share.
    for (i, share) in &shares {
        assert!(pk_set
            .public_key_share(*i)
            .verify_decryption_share(share, &ciphertext));
    }

    // Combined, they decrypt the message.
    let shares: Vec<(u64, DecryptionShare)> = shares.iter().map(|(i, s)| (*i, s.clone())).collect();
    let decrypted = pk_set
        .decrypt(&shares, &ciphertext)
        .expect("decryption shares match");
    assert_eq!(msg[..], decrypted[..]);
}

#[test]
fn test_hash_g2() {
    let mut rng = rand::thread_rng();
    let msg: Vec<u8> = (0..1000).map(|_| rng.gen()).collect();
    let msg_end0: Vec<u8> = msg.iter().chain(b"end0").cloned().collect();
    let msg_end1: Vec<u8> = msg.iter().chain(b"end1").cloned().collect();

    assert_eq!(hash_g2(&msg), hash_g2(&msg));
    assert_ne!(hash_g2(&msg), hash_g2(&msg_end0));
    assert_ne!(hash_g2(&msg_end0), hash_g2(&msg_end1));
}

#[test]
fn test_hash_g1_g2() {
    let mut rng = rand::thread_rng();
    let msg: Vec<u8> = (0..1000).map(|_| rng.gen()).collect();
    let msg_end0: Vec<u8> = msg.iter().chain(b"end0").cloned().collect();
    let msg_end1: Vec<u8> = msg.iter().chain(b"end1").cloned().collect();
    let g0 = random_g1(&mut rng);
    let g1 = random_g1(&mut rng);

    assert_eq!(hash_g1_g2(&g0, &msg), hash_g1_g2(&g0, &msg));
    assert_ne!(hash_g1_g2(&g0, &msg), hash_g1_g2(&g0, &msg_end0));
    assert_ne!(hash_g1_g2(&g0, &msg_end0), hash_g1_g2(&g0, &msg_end1));
    assert_ne!(hash_g1_g2(&g0, &msg), hash_g1_g2(&g1, &msg));
}

#[test]
fn test_xor_with_hash() {
    let mut rng = rand::thread_rng();
    let g0 = random_g1(&mut rng);
    let g1 = random_g1(&mut rng);
    let xwh = xor_with_hash;
    assert_eq!(xwh(&g0, &[0; 5]), xwh(&g0, &[0; 5]));
    assert_ne!(xwh(&g0, &[0; 5]), xwh(&g1, &[0; 5]));
    assert_eq!(5, xwh(&g0, &[0; 5]).len());
    assert_eq!(6, xwh(&g0, &[0; 6]).len());
    assert_eq!(20, xwh(&g0, &[0; 20]).len());
}

#[test]
fn test_serde() {
    let sk = SecretKey::random();
    let sig = sk.sign(b"Please sign here: ______");
    let pk = sk.public_key();
    let ser_pk = pk.to_bytes();
    let deser_pk = PublicKey::from_bytes(&ser_pk).expect("deserialize public key");
    assert_eq!(pk, deser_pk);
    let ser_sig = sig.to_bytes();
    let deser_sig = Signature::from_bytes(&ser_sig).expect("deserialize signature");
    assert_eq!(sig, deser_sig);
}
