use bbs_signatures::{
    rust_bbs_sign, rust_bbs_verify, rust_bls_generate_g2_key, rust_bls_secret_key_to_bbs_key,
    rust_bbs_verify_proof, BbsError, BuilderField, Finished, HandleRegistry, RequestKind,
};

fn keys(count: usize) -> (Vec<u8>, Vec<u8>) {
    let kp = rust_bls_generate_g2_key(&Some(vec![11u8; 32])).unwrap();
    let pk = rust_bls_secret_key_to_bbs_key(&kp.secret_key, count).unwrap();
    (kp.secret_key, pk)
}

#[test]
fn init_hands_out_distinct_handles() {
    let mut reg = HandleRegistry::new();
    let a = reg.init(RequestKind::Sign).unwrap();
    let b = reg.init(RequestKind::Verify).unwrap();
    assert_ne!(a, b);
    assert!(reg.finish(a).is_err());
    let c = reg.init(RequestKind::Sign).unwrap();
    assert_ne!(c, a);
    assert_ne!(c, b);
}

#[test]
fn finished_handle_is_closed() {
    let (sk, pk) = keys(2);
    let mut reg = HandleRegistry::new();
    let h = reg.init(RequestKind::Sign).unwrap();
    assert_eq!(reg.set_field(h, BuilderField::PublicKey(pk.clone())), Ok(()));
    assert_eq!(reg.set_field(h, BuilderField::SecretKey(sk.clone())), Ok(()));
    assert_eq!(reg.set_field(h, BuilderField::Message(0, b"x".to_vec())), Ok(()));
    assert_eq!(reg.set_field(h, BuilderField::Message(1, b"y".to_vec())), Ok(()));
    let sig = match reg.finish(h) {
        Ok(Finished::Signature(s)) => s,
        _ => panic!("signing through the builder failed"),
    };
    assert_eq!(rust_bbs_verify(&pk, &sig, &vec![b"x".to_vec(), b"y".to_vec()]), Ok(true));
    assert_eq!(reg.finish(h).err(), Some(BbsError::HandleNotFound));
    assert_eq!(reg.set_field(h, BuilderField::Nonce(vec![1])), Err(BbsError::HandleNotFound));
}

#[test]
fn failed_finish_also_closes() {
    let mut reg = HandleRegistry::new();
    let h = reg.init(RequestKind::Verify).unwrap();
    assert_eq!(reg.finish(h).err(), Some(BbsError::MissingField));
    assert_eq!(reg.finish(h).err(), Some(BbsError::HandleNotFound));
}

#[test]
fn unknown_handle_is_refused() {
    let mut reg = HandleRegistry::new();
    assert_eq!(reg.set_field(99, BuilderField::Revealed(0)), Err(BbsError::HandleNotFound));
    assert_eq!(reg.finish(0).err(), Some(BbsError::HandleNotFound));
}

#[test]
fn field_checks() {
    let (_, pk) = keys(2);
    let mut reg = HandleRegistry::new();
    let h = reg.init(RequestKind::Sign).unwrap();
    assert_eq!(reg.set_field(h, BuilderField::Message(0, b"x".to_vec())), Err(BbsError::MissingField));
    assert_eq!(reg.set_field(h, BuilderField::PublicKey(vec![1, 2])), Err(BbsError::InvalidArgumentEncoding));
    assert_eq!(reg.set_field(h, BuilderField::PublicKey(pk)), Ok(()));
    assert_eq!(reg.set_field(h, BuilderField::Message(2, b"x".to_vec())), Err(BbsError::IndexOutOfBounds));
    assert_eq!(reg.set_field(h, BuilderField::SecretKey(vec![0; 31])), Err(BbsError::InvalidArgumentEncoding));
    assert_eq!(reg.set_field(h, BuilderField::Signature(vec![0; 100])), Err(BbsError::InvalidArgumentEncoding));
    assert_eq!(reg.set_field(h, BuilderField::Commitment(vec![0; 47])), Err(BbsError::InvalidArgumentEncoding));
    assert_eq!(reg.set_field(h, BuilderField::ChallengeHash(vec![0; 33])), Err(BbsError::InvalidArgumentEncoding));
    assert_eq!(reg.set_field(h, BuilderField::Message(0, b"x".to_vec())), Ok(()));
    assert_eq!(reg.finish(h).err(), Some(BbsError::MissingField));
}

#[test]
fn later_message_replaces_earlier() {
    let (sk, pk) = keys(1);
    let sig = rust_bbs_sign(&sk, &pk, &vec![b"second".to_vec()]).unwrap();
    let mut reg = HandleRegistry::new();
    let h = reg.init(RequestKind::Verify).unwrap();
    reg.set_field(h, BuilderField::PublicKey(pk)).unwrap();
    reg.set_field(h, BuilderField::Signature(sig)).unwrap();
    reg.set_field(h, BuilderField::Message(0, b"first".to_vec())).unwrap();
    reg.set_field(h, BuilderField::Message(0, b"second".to_vec())).unwrap();
    assert!(matches!(reg.finish(h), Ok(Finished::Verified(true))));
}

#[test]
fn proof_through_builder() {
    let (sk, pk) = keys(3);
    let m = vec![b"a".to_vec(), b"b".to_vec(), b"c".to_vec()];
    let sig = rust_bbs_sign(&sk, &pk, &m).unwrap();
    let mut reg = HandleRegistry::new();
    let h = reg.init(RequestKind::CreateProof).unwrap();
    reg.set_field(h, BuilderField::PublicKey(pk.clone())).unwrap();
    reg.set_field(h, BuilderField::Signature(sig)).unwrap();
    for (i, msg) in m.iter().enumerate() {
        reg.set_field(h, BuilderField::Message(i as u64, msg.clone())).unwrap();
    }
    reg.set_field(h, BuilderField::Revealed(2)).unwrap();
    reg.set_field(h, BuilderField::Nonce(b"n".to_vec())).unwrap();
    let proof = match reg.finish(h) {
        Ok(Finished::Proof(p)) => p,
        _ => panic!("proof through the builder failed"),
    };
    assert_eq!(rust_bbs_verify_proof(&proof, &pk, &vec![b"c".to_vec()], &Some(b"n".to_vec())), Ok(true));
}

#[test]
fn out_of_range_revealed_index_through_builder() {
    let (sk, pk) = keys(1);
    let m = vec![b"a".to_vec()];
    let sig = rust_bbs_sign(&sk, &pk, &m).unwrap();
    let mut reg = HandleRegistry::new();
    let h = reg.init(RequestKind::CreateProof).unwrap();
    reg.set_field(h, BuilderField::PublicKey(pk)).unwrap();
    reg.set_field(h, BuilderField::Signature(sig)).unwrap();
    reg.set_field(h, BuilderField::Message(0, b"a".to_vec())).unwrap();
    reg.set_field(h, BuilderField::Revealed(-1)).unwrap();
    assert_eq!(reg.finish(h).err(), Some(BbsError::IndexOutOfBounds));
}
