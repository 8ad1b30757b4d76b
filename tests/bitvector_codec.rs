use bbs_signatures::{bitvector_to_revealed, decode_proof_prefix, proof_prefix, revealed_to_bitvector, BbsError};

#[test]
fn bitvector_single_index() {
    assert_eq!(revealed_to_bitvector(3, &vec![1]), vec![0b0000_0010]);
}

#[test]
fn bitvector_is_big_endian() {
    assert_eq!(revealed_to_bitvector(10, &vec![0, 8, 9]), vec![0b0000_0011, 0b0000_0001]);
    assert_eq!(revealed_to_bitvector(16, &vec![15]), vec![0, 0b1000_0000, 0]);
}

#[test]
fn bitvector_empty_sets() {
    assert_eq!(revealed_to_bitvector(0, &vec![]), vec![0]);
    assert_eq!(revealed_to_bitvector(8, &vec![]), vec![0, 0]);
    assert_eq!(bitvector_to_revealed(&[0, 0]), Vec::<usize>::new());
}

#[test]
fn bitvector_order_of_indices_does_not_matter() {
    assert_eq!(revealed_to_bitvector(12, &vec![11, 2, 7]), revealed_to_bitvector(12, &vec![2, 7, 11]));
}

#[test]
fn bitvector_decode_ascending() {
    assert_eq!(bitvector_to_revealed(&[0b0000_0011, 0b0000_0001]), vec![0, 8, 9]);
}

#[test]
fn bitvector_round_trip_many() {
    for total in 0usize..40 {
        let subsets: Vec<Vec<usize>> = vec![
            vec![],
            (0..total).collect(),
            (0..total).filter(|i| i % 2 == 0).collect(),
            (0..total).filter(|i| i % 3 == 1).collect(),
            if total > 0 { vec![total - 1] } else { vec![] },
        ];
        for s in subsets {
            let bits = revealed_to_bitvector(total, &s);
            assert_eq!(bits.len(), total / 8 + 1);
            assert_eq!(bitvector_to_revealed(&bits), s);
        }
    }
}

#[test]
fn proof_prefix_scenario() {
    let p = proof_prefix(3, &vec![1]);
    assert_eq!(p, vec![0, 3, 2]);
    let mut proof = p.clone();
    proof.extend_from_slice(&[9, 9, 9]);
    assert_eq!(decode_proof_prefix(&proof), Ok((3u16, vec![1usize])));
}

#[test]
fn proof_prefix_large_count() {
    let p = proof_prefix(300, &vec![0, 299]);
    assert_eq!(p.len(), 2 + 300 / 8 + 1);
    assert_eq!(&p[0..2], &[1, 44]);
    assert_eq!(decode_proof_prefix(&p), Ok((300u16, vec![0usize, 299])));
}

#[test]
fn proof_prefix_too_short() {
    assert_eq!(decode_proof_prefix(&[]), Err(BbsError::InvalidArgumentEncoding));
    assert_eq!(decode_proof_prefix(&[0]), Err(BbsError::InvalidArgumentEncoding));
    assert_eq!(decode_proof_prefix(&[0, 16, 0, 0]), Err(BbsError::InvalidArgumentEncoding));
    assert_eq!(decode_proof_prefix(&[0, 16, 0, 0, 0]), Ok((16u16, vec![])));
}

#[test]
fn padding_bits_are_not_rejected() {
    assert_eq!(decode_proof_prefix(&[0, 3, 0b1000_0010]), Ok((3u16, vec![1usize, 7])));
}

#[test]
fn proof_prefix_largest_count() {
    let p = proof_prefix(u16::MAX, &vec![0, 65534]);
    assert_eq!(p.len(), 2 + 65535 / 8 + 1);
    assert_eq!(&p[0..2], &[0xff, 0xff]);
    assert_eq!(p[2], 0b0100_0000);
    assert_eq!(p[p.len() - 1], 0b0000_0001);
    assert_eq!(decode_proof_prefix(&p), Ok((u16::MAX, vec![0usize, 65534])));
}
