//! Byte layouts: the proof prefix, and the framing of the compressed public
//! key and of the proof of knowledge that the primitives decode.
use vstd::prelude::*;
use crate::bitvector::{
    bitvector_len, bitvector_to_revealed, encodes, revealed_indices, revealed_to_bitvector,
    lemma_bitvector_round_trip, strictly_increasing,
};
use crate::error::BbsError;

verus! {

/// Big-endian value of the two bytes at `at`.
pub open spec fn be_u16(b: Seq<u8>, at: int) -> nat {
    b[at] as nat * 256 + b[at + 1] as nat
}

/// Big-endian value of the four bytes at `at`.
pub open spec fn be_u32(b: Seq<u8>, at: int) -> nat {
    ((b[at] as nat * 256 + b[at + 1] as nat) * 256 + b[at + 2] as nat) * 256 + b[at + 3] as nat
}

/// Length of the proof prefix for `count` messages: the count itself, then
/// the bit-vector.
pub open spec fn prefix_len(count: nat) -> nat {
    2 + bitvector_len(count)
}

/// `p` is the proof prefix for `revealed` among `count` messages.
pub open spec fn is_proof_prefix(p: Seq<u8>, count: nat, revealed: Seq<usize>) -> bool {
    &&& p.len() == prefix_len(count)
    &&& be_u16(p, 0) == count
    &&& encodes(p.subrange(2, p.len() as int), count, revealed)
}

/// The message count announced at the head of a proof.
pub open spec fn prefix_count(proof: Seq<u8>) -> nat {
    be_u16(proof, 0)
}

/// The proof is long enough to hold the prefix it announces.
pub open spec fn prefix_well_formed(proof: Seq<u8>) -> bool {
    proof.len() >= 2 && proof.len() >= prefix_len(prefix_count(proof))
}

/// The revealed indices that the prefix of a proof announces, ascending.
pub open spec fn prefix_revealed(proof: Seq<u8>) -> Seq<usize> {
    revealed_indices(proof.subrange(2, prefix_len(prefix_count(proof)) as int))
}

/// What follows the prefix: the proof of knowledge itself.
pub open spec fn prefix_body(proof: Seq<u8>) -> Seq<u8> {
    proof.subrange(prefix_len(prefix_count(proof)) as int, proof.len() as int)
}

/// Size of a compressed G1 element.
pub const G1_SIZE: usize = 48;
/// Size of a compressed G2 element.
pub const G2_SIZE: usize = 96;
/// Size of a compressed field element.
pub const FR_SIZE: usize = 32;
/// Size of a compressed signature: one G1 element and two field elements.
pub const SIGNATURE_SIZE: usize = 112;
/// Offset of the generator count inside a compressed public key.
pub const KEY_COUNT_OFFSET: usize = 144;
/// Offset of the first message generator inside a compressed public key.
pub const KEY_HEADER: usize = 148;

/// A compressed public key is framed: `w` (G2), `h0` (G1), a big-endian
/// 32-bit generator count, then that many G1 generators.
pub open spec fn public_key_framed(pk: Seq<u8>) -> bool {
    &&& pk.len() >= KEY_HEADER
    &&& (pk.len() - KEY_HEADER) % (G1_SIZE as int) == 0
    &&& be_u32(pk, KEY_COUNT_OFFSET as int) == (pk.len() - KEY_HEADER) / (G1_SIZE as int)
}

/// The number of message slots of a framed public key.
pub open spec fn key_message_count(pk: Seq<u8>) -> nat {
    be_u32(pk, KEY_COUNT_OFFSET as int)
}

/// A compressed proof of knowledge is framed: three G1 elements, the
/// big-endian length of the first inner proof, and at least that many bytes.
pub open spec fn pok_proof_framed(p: Seq<u8>) -> bool {
    p.len() >= 148 && 148 + be_u32(p, 144) <= p.len()
}

/// Reads a big-endian 32-bit value.
pub fn read_be_u32(b: &[u8], at: usize) -> (r: u64)
    requires
        at + 4 <= b@.len(),
    ensures
        r == be_u32(b@, at as int),
{
    let b0 = b[at] as u64;
    let b1 = b[at + 1] as u64;
    let b2 = b[at + 2] as u64;
    let b3 = b[at + 3] as u64;
    ((b0 * 256 + b1) * 256 + b2) * 256 + b3
}

/// Whether a compressed public key is framed.
pub fn check_public_key_framing(pk: &[u8]) -> (r: bool)
    ensures
        r == public_key_framed(pk@),
{
    if pk.len() < KEY_HEADER {
        return false;
    }
    let rest = pk.len() - KEY_HEADER;
    rest % G1_SIZE == 0 && read_be_u32(pk, KEY_COUNT_OFFSET) == (rest / G1_SIZE) as u64
}

/// The number of message slots of a framed public key.
pub fn public_key_message_count(pk: &[u8]) -> (r: usize)
    requires
        public_key_framed(pk@),
    ensures
        r == key_message_count(pk@),
{
    let c = read_be_u32(pk, KEY_COUNT_OFFSET);
    assert(c <= (pk@.len() - KEY_HEADER) / 48);
    c as usize
}

/// Whether a compressed proof of knowledge is framed.
pub fn check_pok_proof_framing(p: &[u8]) -> (r: bool)
    ensures
        r == pok_proof_framed(p@),
{
    p.len() >= 148 && read_be_u32(p, 144) <= (p.len() - 148) as u64
}

/// Builds the proof prefix: the message count as two big-endian bytes, then
/// the bit-vector of the revealed indices.
pub fn proof_prefix(count: u16, revealed: &Vec<usize>) -> (r: Vec<u8>)
    requires
        forall|k: int| 0 <= k < revealed.len() ==> revealed[k] < count,
    ensures
        is_proof_prefix(r@, count as nat, revealed@),
{
    let mut out: Vec<u8> = Vec::new();
    out.push((count / 256) as u8);
    out.push((count % 256) as u8);
    let bits = revealed_to_bitvector(count as usize, revealed);
    let mut k: usize = 0;
    while k < bits.len()
        invariant
            k <= bits.len(),
            out.len() == 2 + k,
            out[0] == (count / 256) as u8,
            out[1] == (count % 256) as u8,
            forall|q: int| 0 <= q < k ==> out[2 + q] == bits[q],
        decreases bits.len() - k,
    {
        out.push(bits[k]);
        k = k + 1;
    }
    assert(out@.subrange(2, out@.len() as int) =~= bits@);
    out
}

/// Reads the prefix of a proof: the announced message count and the revealed
/// indices, ascending.
pub fn decode_proof_prefix(proof: &[u8]) -> (r: Result<(u16, Vec<usize>), BbsError>)
    ensures
        !prefix_well_formed(proof@) ==> r == Err::<(u16, Vec<usize>), BbsError>(
            BbsError::InvalidArgumentEncoding,
        ),
        prefix_well_formed(proof@) ==> r is Ok && r->Ok_0.0 == prefix_count(proof@)
            && r->Ok_0.1@ == prefix_revealed(proof@),
{
    if proof.len() < 2 {
        return Err(BbsError::InvalidArgumentEncoding);
    }
    let count: u16 = (proof[0] as u16) * 256 + proof[1] as u16;
    let end: usize = 2 + (count as usize / 8 + 1);
    if proof.len() < end {
        return Err(BbsError::InvalidArgumentEncoding);
    }
    let bits = slice_range(proof, 2, end);
    let revealed = bitvector_to_revealed(bits.as_slice());
    Ok((count, revealed))
}

/// Copies `b[start..end]`.
pub fn slice_range(b: &[u8], start: usize, end: usize) -> (r: Vec<u8>)
    requires
        start <= end <= b@.len(),
    ensures
        r@ == b@.subrange(start as int, end as int),
{
    let mut out: Vec<u8> = Vec::new();
    let mut i: usize = start;
    while i < end
        invariant
            start <= i <= end,
            end <= b@.len(),
            out@ == b@.subrange(start as int, i as int),
        decreases end - i,
    {
        out.push(b[i]);
        i = i + 1;
        assert(out@ =~= b@.subrange(start as int, i as int));
    }
    out
}

/// Reading back the prefix of a proof, whatever follows it, gives the message
/// count and the revealed indices it was built from.
pub proof fn lemma_prefix_round_trip(count: nat, revealed: Seq<usize>, prefix: Seq<u8>, rest: Seq<u8>)
    requires
        count <= u16::MAX,
        strictly_increasing(revealed),
        forall|k: int| 0 <= k < revealed.len() ==> revealed[k] < count,
        is_proof_prefix(prefix, count, revealed),
    ensures
        prefix_well_formed(prefix + rest),
        prefix_count(prefix + rest) == count,
        prefix_revealed(prefix + rest) == revealed,
        prefix_body(prefix + rest) == rest,
{
    let p = prefix + rest;
    assert(p[0] == prefix[0] && p[1] == prefix[1]);
    let bits = prefix.subrange(2, prefix.len() as int);
    assert(p.subrange(2, prefix_len(count) as int) =~= bits);
    assert(p.subrange(prefix_len(count) as int, p.len() as int) =~= rest);
    lemma_bitvector_round_trip(count, revealed, bits);
}

} // verus!
