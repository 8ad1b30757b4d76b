use bbs_signatures::{
    bind_challenge, challenge_bytes, decode_proof_prefix, rust_bbs_blind_sign,
    rust_bbs_blind_signature_commitment, rust_bbs_create_proof, rust_bbs_sign,
    rust_bbs_unblind_signature, rust_bbs_verify, rust_bbs_verify_blind_signature_proof,
    rust_bbs_verify_proof, rust_bls_generate_blinded_g1_key, rust_bls_generate_blinded_g2_key,
    rust_bls_generate_g1_key, rust_bls_generate_g2_key, rust_bls_public_key_to_bbs_key,
    rust_bls_secret_key_to_bbs_key, rust_bls_verify_proof, BbsError,
};

fn keys(count: usize) -> (Vec<u8>, Vec<u8>, Vec<u8>) {
    let kp = rust_bls_generate_g2_key(&Some(vec![7u8; 32])).unwrap();
    let pk = rust_bls_secret_key_to_bbs_key(&kp.secret_key, count).unwrap();
    (kp.secret_key, kp.public_key, pk)
}

fn msgs(items: &[&str]) -> Vec<Vec<u8>> {
    items.iter().map(|m| m.as_bytes().to_vec()).collect()
}

#[test]
fn sign_then_verify() {
    let (sk, _, pk) = keys(3);
    let m = msgs(&["a", "b", "c"]);
    let sig = rust_bbs_sign(&sk, &pk, &m).unwrap();
    assert_eq!(sig.len(), 112);
    assert_eq!(rust_bbs_verify(&pk, &sig, &m), Ok(true));
    let mut flipped = m.clone();
    flipped[2][0] ^= 1;
    assert_eq!(rust_bbs_verify(&pk, &sig, &flipped), Ok(false));
}

#[test]
fn sign_rejects_wrong_message_count() {
    let (sk, _, pk) = keys(3);
    assert_eq!(rust_bbs_sign(&sk, &pk, &msgs(&["a", "b"])), Err(BbsError::ArityMismatch));
    let sig = rust_bbs_sign(&sk, &pk, &msgs(&["a", "b", "c"])).unwrap();
    assert_eq!(rust_bbs_verify(&pk, &sig, &msgs(&["a"])), Err(BbsError::ArityMismatch));
}

#[test]
fn sign_rejects_bad_keys() {
    let (sk, _, pk) = keys(1);
    let m = msgs(&["a"]);
    assert_eq!(rust_bbs_sign(&sk, &vec![1, 2, 3], &m), Err(BbsError::InvalidArgumentEncoding));
    let mut unframed = pk.clone();
    unframed.push(0);
    assert_eq!(rust_bbs_sign(&sk, &unframed, &m), Err(BbsError::InvalidArgumentEncoding));
    let zero_key = vec![0u8; 148];
    assert_eq!(rust_bbs_sign(&sk, &zero_key, &vec![]), Err(BbsError::InvalidKey));
    assert_eq!(rust_bbs_sign(&vec![1u8; 31], &pk, &m), Err(BbsError::InvalidArgumentEncoding));
    assert_eq!(rust_bbs_verify(&pk, &vec![0u8; 111], &m), Err(BbsError::InvalidArgumentEncoding));
}

#[test]
fn selective_disclosure_scenario() {
    let (sk, _, pk) = keys(3);
    let m = msgs(&["a", "b", "c"]);
    let sig = rust_bbs_sign(&sk, &pk, &m).unwrap();
    let nonce = Some(b"n1".to_vec());
    let proof = rust_bbs_create_proof(&sig, &pk, &m, &vec![1], &nonce).unwrap();
    assert_eq!(&proof[0..2], &[0, 3]);
    assert_eq!(decode_proof_prefix(&proof), Ok((3u16, vec![1usize])));
    assert_eq!(rust_bbs_verify_proof(&proof, &pk, &msgs(&["b"]), &nonce), Ok(true));
    assert_eq!(rust_bbs_verify_proof(&proof, &pk, &msgs(&["B"]), &nonce), Ok(false));
}

#[test]
fn proof_is_bound_to_its_nonce() {
    let (sk, _, pk) = keys(3);
    let m = msgs(&["a", "b", "c"]);
    let sig = rust_bbs_sign(&sk, &pk, &m).unwrap();
    let nonce = Some(b"n1".to_vec());
    let proof = rust_bbs_create_proof(&sig, &pk, &m, &vec![0, 2], &nonce).unwrap();
    let shown = msgs(&["a", "c"]);
    assert_eq!(rust_bbs_verify_proof(&proof, &pk, &shown, &nonce), Ok(true));
    assert_eq!(rust_bbs_verify_proof(&proof, &pk, &shown, &Some(b"n2".to_vec())), Ok(false));
    assert_eq!(rust_bbs_verify_proof(&proof, &pk, &shown, &None), Ok(false));
    let without = rust_bbs_create_proof(&sig, &pk, &m, &vec![0, 2], &None).unwrap();
    assert_eq!(rust_bbs_verify_proof(&without, &pk, &shown, &None), Ok(true));
    assert_eq!(rust_bbs_verify_proof(&without, &pk, &shown, &nonce), Ok(false));
}

#[test]
fn tampered_proof_does_not_verify() {
    let (sk, _, pk) = keys(3);
    let m = msgs(&["a", "b", "c"]);
    let sig = rust_bbs_sign(&sk, &pk, &m).unwrap();
    let proof = rust_bbs_create_proof(&sig, &pk, &m, &vec![1], &None).unwrap();
    let mut tampered = proof.clone();
    let last = tampered.len() - 1;
    tampered[last] ^= 1;
    let r = rust_bbs_verify_proof(&tampered, &pk, &msgs(&["b"]), &None);
    assert_eq!(r, Ok(false));
}

#[test]
fn duplicate_revealed_indices_are_refused() {
    let (sk, _, pk) = keys(3);
    let m = msgs(&["a", "b", "c"]);
    let sig = rust_bbs_sign(&sk, &pk, &m).unwrap();
    assert_eq!(rust_bbs_create_proof(&sig, &pk, &m, &vec![2, 1, 2], &None), Err(BbsError::DuplicateIndex));
    let proof = rust_bbs_create_proof(&sig, &pk, &m, &vec![2, 1], &None).unwrap();
    assert_eq!(decode_proof_prefix(&proof), Ok((3u16, vec![1usize, 2])));
    assert_eq!(rust_bbs_verify_proof(&proof, &pk, &msgs(&["b", "c"]), &None), Ok(true));
}

#[test]
fn proof_body_follows_prefix() {
    let (sk, _, pk) = keys(3);
    let m = msgs(&["a", "b", "c"]);
    let sig = rust_bbs_sign(&sk, &pk, &m).unwrap();
    let proof = rust_bbs_create_proof(&sig, &pk, &m, &vec![], &None).unwrap();
    assert_eq!(&proof[0..3], &[0, 3, 0]);
    let body = &proof[3..];
    assert!(body.len() >= 148);
    let inner = u32::from_be_bytes([body[144], body[145], body[146], body[147]]) as usize;
    assert!(148 + inner <= body.len());
    assert_eq!(rust_bbs_verify_proof(&proof, &pk, &vec![], &None), Ok(true));
}

#[test]
fn secret_key_and_commitment_must_decode() {
    let (sk, _, pk) = keys(2);
    let m = msgs(&["a", "b"]);
    assert_eq!(rust_bbs_sign(&vec![0xffu8; 32], &pk, &m), Err(BbsError::InvalidArgumentEncoding));
    let c = rust_bbs_blind_signature_commitment(&pk, &msgs(&["a"]), &vec![0], &None).unwrap();
    assert_eq!(
        rust_bbs_blind_sign(&vec![0xffu8; 32], &pk, &c.commitment, &vec![1], &msgs(&["b"])),
        Err(BbsError::InvalidArgumentEncoding)
    );
    assert_eq!(
        rust_bbs_blind_sign(&sk, &pk, &vec![0u8; 48], &vec![1], &msgs(&["b"])),
        Err(BbsError::InvalidArgumentEncoding)
    );
    assert!(rust_bbs_blind_sign(&sk, &pk, &c.commitment, &vec![1], &msgs(&["b"])).is_ok());
}

#[test]
fn create_proof_rejects_out_of_range_indices() {
    let (sk, _, pk) = keys(3);
    let m = msgs(&["a", "b", "c"]);
    let sig = rust_bbs_sign(&sk, &pk, &m).unwrap();
    assert_eq!(rust_bbs_create_proof(&sig, &pk, &m, &vec![3], &None), Err(BbsError::IndexOutOfBounds));
    assert_eq!(rust_bbs_create_proof(&sig, &pk, &m, &vec![0, -1], &None), Err(BbsError::IndexOutOfBounds));
    assert_eq!(rust_bbs_create_proof(&vec![0u8; 10], &pk, &m, &vec![0], &None), Err(BbsError::InvalidArgumentEncoding));
    assert_eq!(
        rust_bbs_create_proof(&sig, &pk, &msgs(&["a", "b"]), &vec![0], &None),
        Err(BbsError::ArityMismatch)
    );
}

#[test]
fn create_proof_with_wrong_signature_fails() {
    let (sk, _, pk) = keys(3);
    let sig = rust_bbs_sign(&sk, &pk, &msgs(&["a", "b", "c"])).unwrap();
    let r = rust_bbs_create_proof(&sig, &pk, &msgs(&["x", "b", "c"]), &vec![1], &None);
    assert_eq!(r, Err(BbsError::CryptographicFailure));
}

#[test]
fn verify_proof_structural_errors() {
    let (sk, _, pk) = keys(3);
    let m = msgs(&["a", "b", "c"]);
    let sig = rust_bbs_sign(&sk, &pk, &m).unwrap();
    let proof = rust_bbs_create_proof(&sig, &pk, &m, &vec![1], &None).unwrap();
    assert_eq!(rust_bbs_verify_proof(&proof, &pk, &msgs(&["a", "b"]), &None), Err(BbsError::ArityMismatch));
    assert_eq!(rust_bbs_verify_proof(&vec![0], &pk, &msgs(&[]), &None), Err(BbsError::InvalidArgumentEncoding));
    assert_eq!(
        rust_bbs_verify_proof(&proof[..10].to_vec(), &pk, &msgs(&["b"]), &None),
        Err(BbsError::InvalidArgumentEncoding)
    );
}

#[test]
fn verify_proof_with_compact_key() {
    let (sk, dpk, pk) = keys(3);
    let m = msgs(&["a", "b", "c"]);
    let sig = rust_bbs_sign(&sk, &pk, &m).unwrap();
    let nonce = Some(b"session".to_vec());
    let proof = rust_bbs_create_proof(&sig, &pk, &m, &vec![0], &nonce).unwrap();
    assert_eq!(rust_bls_verify_proof(&proof, &dpk, &msgs(&["a"]), &nonce), Ok(true));
    assert_eq!(rust_bls_verify_proof(&proof, &dpk, &msgs(&["z"]), &nonce), Ok(false));
    assert_eq!(rust_bls_verify_proof(&proof, &dpk[..95].to_vec(), &msgs(&["a"]), &nonce), Err(BbsError::InvalidArgumentEncoding));
    assert_eq!(rust_bls_verify_proof(&vec![0], &dpk, &msgs(&["a"]), &nonce), Err(BbsError::InvalidArgumentEncoding));
}

#[test]
fn compact_and_secret_key_expansion_agree() {
    let (sk, dpk, pk) = keys(4);
    assert_eq!(dpk.len(), 96);
    assert_eq!(pk.len(), 96 + 48 + 4 + 4 * 48);
    assert_eq!(rust_bls_public_key_to_bbs_key(&dpk, 4), Ok(pk.clone()));
    assert_eq!(&pk[144..148], &[0, 0, 0, 4]);
    assert_eq!(rust_bls_secret_key_to_bbs_key(&sk, 0), Err(BbsError::InvalidKey));
    assert_eq!(rust_bls_public_key_to_bbs_key(&dpk, 0), Err(BbsError::InvalidKey));
    assert_eq!(rust_bls_secret_key_to_bbs_key(&vec![1u8; 5], 2), Err(BbsError::InvalidArgumentEncoding));
}

#[test]
fn blind_protocol_end_to_end() {
    let (sk, _, pk) = keys(4);
    let all = msgs(&["m0", "m1", "m2", "m3"]);
    let nonce = Some(b"issuance".to_vec());
    let hidden = vec![all[0].clone(), all[2].clone()];
    let c = rust_bbs_blind_signature_commitment(&pk, &hidden, &vec![0, 2], &nonce).unwrap();
    assert_eq!(c.commitment.len(), 48);
    assert_eq!(c.challenge_hash.len(), 32);
    assert_eq!(c.blinding_factor.len(), 32);
    assert!(c.proof_of_hidden_messages.len() >= 52);
    let ok = rust_bbs_verify_blind_signature_proof(
        &c.commitment, &c.challenge_hash, &c.proof_of_hidden_messages, &pk, &vec![2, 0], &nonce,
    );
    assert_eq!(ok, Ok(true));
    let known = vec![all[1].clone(), all[3].clone()];
    let blind = rust_bbs_blind_sign(&sk, &pk, &c.commitment, &vec![1, 3], &known).unwrap();
    assert_eq!(blind.len(), 112);
    let sig = rust_bbs_unblind_signature(&blind, &c.blinding_factor).unwrap();
    assert_ne!(sig, blind);
    assert_eq!(rust_bbs_verify(&pk, &sig, &all), Ok(true));
    assert_eq!(rust_bbs_verify(&pk, &blind, &all), Ok(false));
}

#[test]
fn blind_protocol_default_nonce() {
    let (sk, _, pk) = keys(2);
    let all = msgs(&["secret", "public"]);
    let c = rust_bbs_blind_signature_commitment(&pk, &vec![all[0].clone()], &vec![0], &None).unwrap();
    let check = |n: &Option<Vec<u8>>| {
        rust_bbs_verify_blind_signature_proof(&c.commitment, &c.challenge_hash, &c.proof_of_hidden_messages, &pk, &vec![0], n)
    };
    assert_eq!(check(&None), Ok(true));
    assert_eq!(check(&Some(b"bbs+rustffiwrapper".to_vec())), Ok(true));
    assert_eq!(check(&Some(b"other".to_vec())), Ok(false));
    let blind = rust_bbs_blind_sign(&sk, &pk, &c.commitment, &vec![1], &vec![all[1].clone()]).unwrap();
    let sig = rust_bbs_unblind_signature(&blind, &c.blinding_factor).unwrap();
    assert_eq!(rust_bbs_verify(&pk, &sig, &all), Ok(true));
}

#[test]
fn commitment_rejects_wrong_hidden_set() {
    let (_, _, pk) = keys(4);
    let all = msgs(&["m0", "m1", "m2", "m3"]);
    let c = rust_bbs_blind_signature_commitment(&pk, &vec![all[0].clone(), all[2].clone()], &vec![0, 2], &None).unwrap();
    for wrong in [vec![0], vec![2], vec![0, 1, 2], vec![1, 3], vec![]] {
        let r = rust_bbs_verify_blind_signature_proof(
            &c.commitment, &c.challenge_hash, &c.proof_of_hidden_messages, &pk, &wrong, &None,
        );
        assert_eq!(r, Ok(false));
    }
}

#[test]
fn commitment_index_errors() {
    let (sk, _, pk) = keys(3);
    let m = msgs(&["x"]);
    assert_eq!(rust_bbs_blind_signature_commitment(&pk, &m, &vec![3], &None).err(), Some(BbsError::IndexOutOfBounds));
    assert_eq!(rust_bbs_blind_signature_commitment(&pk, &m, &vec![-1], &None).err(), Some(BbsError::IndexOutOfBounds));
    assert_eq!(rust_bbs_blind_signature_commitment(&pk, &m, &vec![0, 1], &None).err(), Some(BbsError::ArityMismatch));
    let four = msgs(&["w", "x", "y", "z"]);
    assert_eq!(
        rust_bbs_blind_signature_commitment(&pk, &four, &vec![0, 1, 2, 3], &None).err(),
        Some(BbsError::ArityMismatch)
    );
    let two = msgs(&["x", "y"]);
    assert_eq!(rust_bbs_blind_signature_commitment(&pk, &two, &vec![1, 1], &None).err(), Some(BbsError::DuplicateIndex));
    let c = rust_bbs_blind_signature_commitment(&pk, &m, &vec![0], &None).unwrap();
    let v = |b: Vec<i64>| rust_bbs_verify_blind_signature_proof(&c.commitment, &c.challenge_hash, &c.proof_of_hidden_messages, &pk, &b, &None);
    assert_eq!(v(vec![3]), Err(BbsError::IndexOutOfBounds));
    assert_eq!(v(vec![-2]), Err(BbsError::IndexOutOfBounds));
    assert_eq!(v(vec![0, 0]), Err(BbsError::DuplicateIndex));
    assert_eq!(
        rust_bbs_verify_blind_signature_proof(&c.commitment[..47].to_vec(), &c.challenge_hash, &c.proof_of_hidden_messages, &pk, &vec![0], &None),
        Err(BbsError::InvalidArgumentEncoding)
    );
    assert_eq!(rust_bbs_blind_sign(&sk, &pk, &c.commitment, &vec![3], &m), Err(BbsError::IndexOutOfBounds));
    assert_eq!(rust_bbs_blind_sign(&sk, &pk, &c.commitment, &vec![1], &two), Err(BbsError::ArityMismatch));
    assert_eq!(rust_bbs_blind_sign(&sk, &pk, &c.commitment[..40].to_vec(), &vec![1], &m), Err(BbsError::InvalidArgumentEncoding));
}

#[test]
fn unblind_rejects_bad_lengths() {
    assert_eq!(rust_bbs_unblind_signature(&vec![0u8; 111], &vec![0u8; 32]), Err(BbsError::InvalidArgumentEncoding));
    assert_eq!(rust_bbs_unblind_signature(&vec![0u8; 112], &vec![0u8; 31]), Err(BbsError::InvalidArgumentEncoding));
}

#[test]
fn seeded_keys_are_deterministic() {
    let seed = Some(vec![42u8; 32]);
    let a = rust_bls_generate_g1_key(&seed).unwrap();
    let b = rust_bls_generate_g1_key(&seed).unwrap();
    assert_eq!(a.secret_key, b.secret_key);
    assert_eq!(a.public_key, b.public_key);
    assert_eq!(a.public_key.len(), 48);
    assert_eq!(a.secret_key.len(), 32);
    assert_ne!(a.secret_key, vec![42u8; 32]);
    assert!(a.blinding_factor.is_none());
    let g2 = rust_bls_generate_g2_key(&seed).unwrap();
    assert_eq!(g2.secret_key, a.secret_key);
    assert_eq!(g2.public_key.len(), 96);
}

#[test]
fn blinded_keys_differ_from_plain_keys() {
    let seed = Some(vec![3u8; 32]);
    let plain = rust_bls_generate_g1_key(&seed).unwrap();
    let blinded = rust_bls_generate_blinded_g1_key(&seed).unwrap();
    assert_eq!(plain.secret_key, blinded.secret_key);
    assert_ne!(plain.public_key, blinded.public_key);
    assert_eq!(blinded.blinding_factor.as_ref().unwrap().len(), 32);
    let again = rust_bls_generate_blinded_g1_key(&seed).unwrap();
    assert_eq!(again.public_key, blinded.public_key);
    let g2 = rust_bls_generate_blinded_g2_key(&seed).unwrap();
    assert_eq!(g2.public_key.len(), 96);
    assert_eq!(g2.blinding_factor.as_ref().unwrap().len(), 32);
}

#[test]
fn random_keys_differ() {
    let a = rust_bls_generate_g2_key(&None).unwrap();
    let b = rust_bls_generate_g2_key(&None).unwrap();
    assert_ne!(a.secret_key, b.secret_key);
    let c = rust_bls_generate_blinded_g2_key(&None).unwrap();
    let d = rust_bls_generate_blinded_g2_key(&None).unwrap();
    assert_ne!(c.blinding_factor, d.blinding_factor);
}

#[test]
fn challenge_input_layout() {
    let t = vec![1u8, 2, 3];
    let zeros = challenge_bytes(&t, &None);
    assert_eq!(zeros.len(), 3 + 32);
    assert_eq!(&zeros[..3], &[1, 2, 3]);
    assert!(zeros[3..].iter().all(|b| *b == 0));
    let with = challenge_bytes(&t, &Some(vec![9u8; 32]));
    assert_eq!(&with[3..], &[9u8; 32][..]);
}

#[test]
fn challenge_depends_on_nonce() {
    let t = vec![5u8; 64];
    let a = bind_challenge(&t, &None);
    let b = bind_challenge(&t, &Some(b"n1".to_vec()));
    let c = bind_challenge(&t, &Some(b"n1".to_vec()));
    assert_eq!(a.len(), 32);
    assert_ne!(a, b);
    assert_eq!(b, c);
    assert_ne!(bind_challenge(&vec![6u8; 64], &None), a);
}
