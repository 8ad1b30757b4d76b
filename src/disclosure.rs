//! Selective-disclosure proofs: the holder proves knowledge of a signature
//! while revealing a chosen subset of the messages, bound to a verifier nonce.
//!
//! A proof travels as the prefix of `wire` (message count and revealed
//! bit-vector) followed by the compressed proof of knowledge.
use vstd::prelude::*;
use crate::error::BbsError;
use crate::indices::{
    all_distinct, all_in_range, index_mask, indices_distinct, lemma_selected, mask_of, names, pair_views, selected,
    selected_indices, views,
};
use crate::primitives::{
    entry_digests, field_element_decodes, signature_verdict, challenge_digest, check_proof, hash_challenge, hash_nonce, nonce_digest, pok_init, pok_prove,
    pok_transcript, proof_verdict,
};
use crate::signing::{
    check_public_key, digests_of, hash_messages, public_key_check, rust_bls_public_key_to_bbs_key,
    full_key_outcome,
};
use crate::wire::{
    check_pok_proof_framing, decode_proof_prefix, is_proof_prefix, key_message_count,
    lemma_prefix_round_trip,
    pok_proof_framed, prefix_body, prefix_count, prefix_len, prefix_revealed, prefix_well_formed,
    proof_prefix, slice_range, FR_SIZE, SIGNATURE_SIZE,
};

verus! {

/// The digest of one signed message, marked as revealed to the verifier or
/// hidden from it.
pub enum ProofEntry {
    Revealed(Vec<u8>),
    Hidden(Vec<u8>),
}

impl ProofEntry {
    pub open spec fn is_revealed(&self) -> bool {
        self is Revealed
    }

    pub open spec fn digest(&self) -> Seq<u8> {
        match self {
            ProofEntry::Revealed(d) => d@,
            ProofEntry::Hidden(d) => d@,
        }
    }
}

/// `n` zero bytes.
pub open spec fn zeros(n: nat) -> Seq<u8> {
    Seq::new(n, |_i: int| 0u8)
}

/// The bytes the Fiat-Shamir challenge is hashed from: the transcript of the
/// commitment phase, then the nonce element, or 32 zero bytes without one.
pub open spec fn challenge_input(transcript: Seq<u8>, nonce_element: Option<Seq<u8>>) -> Seq<u8> {
    match nonce_element {
        Some(e) => transcript + e,
        None => transcript + zeros(32),
    }
}

/// The nonce element of an optional nonce.
pub open spec fn nonce_element(nonce: Option<Vec<u8>>) -> Option<Seq<u8>> {
    match nonce {
        Some(n) => Some(nonce_digest(n@)),
        None => None,
    }
}

/// The nonce element a verifier checks against: the hashed nonce, or the
/// zero element without one.
pub open spec fn verifier_nonce_element(nonce: Option<Vec<u8>>) -> Seq<u8> {
    match nonce {
        Some(n) => nonce_digest(n@),
        None => zeros(32),
    }
}

/// Lays out the challenge input from the transcript and the nonce element.
pub fn challenge_bytes(transcript: &Vec<u8>, nonce_element: &Option<Vec<u8>>) -> (r: Vec<u8>)
    ensures
        r@ == challenge_input(
            transcript@,
            match nonce_element {
                Some(e) => Some(e@),
                None => None,
            },
        ),
{
    let mut out: Vec<u8> = Vec::new();
    let mut i: usize = 0;
    while i < transcript.len()
        invariant
            i <= transcript.len(),
            out@ == transcript@.subrange(0, i as int),
        decreases transcript.len() - i,
    {
        out.push(transcript[i]);
        i = i + 1;
        assert(out@ =~= transcript@.subrange(0, i as int));
    }
    let ghost head = out@;
    assert(head =~= transcript@);
    match nonce_element {
        Some(e) => {
            let mut j: usize = 0;
            while j < e.len()
                invariant
                    j <= e.len(),
                    head == transcript@,
                    out@ == head + e@.subrange(0, j as int),
                decreases e.len() - j,
            {
                out.push(e[j]);
                j = j + 1;
                assert(out@ =~= head + e@.subrange(0, j as int));
            }
            assert(e@.subrange(0, e.len() as int) =~= e@);
        },
        None => {
            let mut j: usize = 0;
            while j < FR_SIZE
                invariant
                    j <= FR_SIZE,
                    head == transcript@,
                    out@ == head + zeros(j as nat),
                decreases FR_SIZE - j,
            {
                out.push(0u8);
                j = j + 1;
                assert(out@ =~= head + zeros(j as nat));
            }
        },
    }
    out
}

/// Derives the challenge that binds a proof to the verifier's nonce.
pub fn bind_challenge(transcript: &Vec<u8>, nonce: &Option<Vec<u8>>) -> (r: Vec<u8>)
    ensures
        r@ == challenge_digest(challenge_input(transcript@, nonce_element(*nonce))),
        r@.len() == FR_SIZE,
        field_element_decodes(r@),
{
    let element: Option<Vec<u8>> = match nonce {
        Some(n) => Some(hash_nonce(n.as_slice())),
        None => None,
    };
    let input = challenge_bytes(transcript, &element);
    hash_challenge(input.as_slice())
}

/// The nonce element handed to proof verification.
pub fn verifier_nonce(nonce: &Option<Vec<u8>>) -> (r: Vec<u8>)
    ensures
        r@ == verifier_nonce_element(*nonce),
{
    match nonce {
        Some(n) => hash_nonce(n.as_slice()),
        None => {
            let mut out: Vec<u8> = Vec::new();
            let mut j: usize = 0;
            while j < FR_SIZE
                invariant
                    j <= FR_SIZE,
                    out@ == zeros(j as nat),
                decreases FR_SIZE - j,
            {
                out.push(0u8);
                j = j + 1;
                assert(out@ =~= zeros(j as nat));
            }
            out
        },
    }
}

/// Marks each digest as revealed where the mask is set and hidden elsewhere.
pub fn proof_entries(digests: &Vec<Vec<u8>>, mask: &Vec<bool>) -> (r: Vec<ProofEntry>)
    requires
        digests.len() == mask.len(),
    ensures
        r.len() == digests.len(),
        forall|i: int|
            0 <= i < r.len() ==> (#[trigger] r[i].is_revealed() == mask[i] && r[i].digest()
                == digests[i]@),
{
    let mut out: Vec<ProofEntry> = Vec::new();
    let mut i: usize = 0;
    while i < digests.len()
        invariant
            i <= digests.len(),
            digests.len() == mask.len(),
            out.len() == i,
            forall|q: int|
                0 <= q < i ==> (#[trigger] out[q].is_revealed() == mask[q] && out[q].digest()
                    == digests[q]@),
        decreases digests.len() - i,
    {
        let d = digests[i].clone();
        assert(d@ =~= digests[i as int]@);
        if mask[i] {
            out.push(ProofEntry::Revealed(d));
        } else {
            out.push(ProofEntry::Hidden(d));
        }
        i = i + 1;
    }
    out
}

/// The revealed indices of a proof request, ascending and without repeats.
pub open spec fn revealed_set(revealed: Seq<i64>, count: nat) -> Seq<usize> {
    selected(mask_of(revealed, count))
}

/// Why a proof cannot be created, if that is known before the primitives
/// are asked.
pub open spec fn create_proof_check(signature: Seq<u8>, pk: Seq<u8>, count: nat, revealed: Seq<i64>) -> Option<BbsError> {
    if signature.len() != SIGNATURE_SIZE {
        Some(BbsError::InvalidArgumentEncoding)
    } else if public_key_check(pk) is Some {
        public_key_check(pk)
    } else if !all_in_range(revealed, count) {
        Some(BbsError::IndexOutOfBounds)
    } else if !all_distinct(revealed) {
        Some(BbsError::DuplicateIndex)
    } else if count != key_message_count(pk) {
        Some(BbsError::ArityMismatch)
    } else if count > u16::MAX {
        Some(BbsError::InvalidArgumentEncoding)
    } else {
        None
    }
}

/// What proof creation returns: the error of `create_proof_check`; otherwise a
/// proof whenever the signature verifies over the messages, and
/// `CryptographicFailure` at most when it does not. A proof is the prefix for
/// the revealed set followed by a framed proof of knowledge.
pub open spec fn create_proof_meets(
    signature: Seq<u8>,
    pk: Seq<u8>,
    messages: Seq<Seq<u8>>,
    revealed: Seq<i64>,
    r: Result<Vec<u8>, BbsError>,
) -> bool {
    let n = messages.len();
    match create_proof_check(signature, pk, n, revealed) {
        Some(e) => r == Err::<Vec<u8>, BbsError>(e),
        None => {
            &&& signature_verdict(signature, digests_of(messages), pk) == Some(true) ==> r is Ok
            &&& match r {
                Ok(p) => {
                    &&& p@.len() >= prefix_len(n)
                    &&& is_proof_prefix(
                        p@.subrange(0, prefix_len(n) as int),
                        n,
                        revealed_set(revealed, n),
                    )
                    &&& pok_proof_framed(p@.subrange(prefix_len(n) as int, p@.len() as int))
                },
                Err(e) => e == BbsError::CryptographicFailure,
            }
        },
    }
}

/// Creates a proof of knowledge of `signature` over `messages` that reveals
/// the messages at `revealed` and hides the rest, bound to `nonce`.
///
/// The proof starts with the message count and the bit-vector of the
/// revealed indices.
pub fn rust_bbs_create_proof(
    signature: &Vec<u8>,
    public_key: &Vec<u8>,
    messages: &Vec<Vec<u8>>,
    revealed: &Vec<i64>,
    nonce: &Option<Vec<u8>>,
) -> (r: Result<Vec<u8>, BbsError>)
    ensures
        create_proof_meets(signature@, public_key@, views(messages@), revealed@, r),
{
    if signature.len() != SIGNATURE_SIZE {
        return Err(BbsError::InvalidArgumentEncoding);
    }
    let count = match check_public_key(public_key) {
        Ok(c) => c,
        Err(e) => return Err(e),
    };
    let mask = match index_mask(revealed, messages.len()) {
        Ok(m) => m,
        Err(e) => return Err(e),
    };
    if !indices_distinct(revealed, messages.len()) {
        return Err(BbsError::DuplicateIndex);
    }
    if messages.len() != count {
        return Err(BbsError::ArityMismatch);
    }
    if messages.len() > 0xffff {
        return Err(BbsError::InvalidArgumentEncoding);
    }
    let shown = selected_indices(&mask);
    proof {
        lemma_selected(mask@);
    }
    let mut out = proof_prefix(messages.len() as u16, &shown);
    let ghost prefix = out@;
    let digests = hash_messages(messages);
    proof {
        assert(views(digests@).len() == digests@.len());
    }
    let entries = proof_entries(&digests, &mask);
    proof {
        assert(entry_digests(entries@) =~= digests_of(views(messages@))) by {
            assert forall|i: int| 0 <= i < entries@.len() implies #[trigger] entry_digests(
                entries@,
            )[i] == digests_of(views(messages@))[i] by {
                assert(entries[i].is_revealed() == mask[i]);
                assert(entries@[i].digest() == digests@[i]@);
                assert(views(digests@)[i] == digests@[i]@);
            }
        }
    }
    let pok = match pok_init(signature.as_slice(), public_key.as_slice(), &entries) {
        Some(p) => p,
        None => return Err(BbsError::CryptographicFailure),
    };
    let transcript = pok_transcript(&pok);
    let challenge = bind_challenge(&transcript, nonce);
    let mut body = match pok_prove(pok, challenge.as_slice()) {
        Some(b) => b,
        None => return Err(BbsError::CryptographicFailure),
    };
    let ghost body_view = body@;
    out.append(&mut body);
    assert(out@.subrange(0, prefix.len() as int) =~= prefix);
    assert(out@.subrange(prefix.len() as int, out@.len() as int) =~= body_view);
    Ok(out)
}

/// A proof made by `rust_bbs_create_proof` announces its message count and
/// exactly the requested revealed indices, ascending and without repeats, so
/// the verifier pairs the k-th revealed value it is given with the k-th
/// smallest revealed index.
pub proof fn lemma_created_proof_announces_revealed(proof: Seq<u8>, count: nat, revealed: Seq<i64>)
    requires
        count <= u16::MAX,
        proof.len() >= prefix_len(count),
        is_proof_prefix(
            proof.subrange(0, prefix_len(count) as int),
            count,
            revealed_set(revealed, count),
        ),
    ensures
        prefix_well_formed(proof),
        prefix_count(proof) == count,
        prefix_revealed(proof) == revealed_set(revealed, count),
        forall|x: usize| #[trigger]
            prefix_revealed(proof).contains(x) <==> (x < count && names(revealed, x as int)),
{
    let mask = mask_of(revealed, count);
    lemma_selected(mask);
    let prefix = proof.subrange(0, prefix_len(count) as int);
    let rest = proof.subrange(prefix_len(count) as int, proof.len() as int);
    assert(proof =~= prefix + rest);
    lemma_prefix_round_trip(count, selected(mask), prefix, rest);
}

/// Each revealed index paired with the digest given for it, in order.
pub open spec fn revealed_pairs(indices: Seq<usize>, digests: Seq<Seq<u8>>) -> Seq<(usize, Seq<u8>)> {
    Seq::new(indices.len(), |k: int| (indices[k], digests[k]))
}

/// The outcome of verifying a proof against the revealed message values.
pub open spec fn verify_proof_outcome(
    proof: Seq<u8>,
    pk: Seq<u8>,
    messages: Seq<Seq<u8>>,
    nonce: Option<Vec<u8>>,
) -> Result<bool, BbsError> {
    if public_key_check(pk) is Some {
        Err(public_key_check(pk)->Some_0)
    } else if !prefix_well_formed(proof) {
        Err(BbsError::InvalidArgumentEncoding)
    } else if messages.len() != prefix_revealed(proof).len() {
        Err(BbsError::ArityMismatch)
    } else if !pok_proof_framed(prefix_body(proof)) {
        Err(BbsError::InvalidArgumentEncoding)
    } else {
        match proof_verdict(
            pk,
            revealed_pairs(prefix_revealed(proof), digests_of(messages)),
            prefix_body(proof),
            verifier_nonce_element(nonce),
        ) {
            Some(b) => Ok(b),
            None => Err(BbsError::InvalidArgumentEncoding),
        }
    }
}

/// Pairs each revealed index with the digest at the same position.
pub fn pair_revealed(indices: &Vec<usize>, digests: &Vec<Vec<u8>>) -> (r: Vec<(usize, Vec<u8>)>)
    requires
        indices.len() == digests.len(),
    ensures
        pair_views(r@) == revealed_pairs(indices@, views(digests@)),
{
    let mut out: Vec<(usize, Vec<u8>)> = Vec::new();
    let mut k: usize = 0;
    while k < indices.len()
        invariant
            k <= indices.len(),
            indices.len() == digests.len(),
            pair_views(out@) == revealed_pairs(
                indices@.subrange(0, k as int),
                views(digests@).subrange(0, k as int),
            ),
        decreases indices.len() - k,
    {
        let ghost before = out@;
        let d = digests[k].clone();
        out.push((indices[k], d));
        proof {
            let want = revealed_pairs(
                indices@.subrange(0, k + 1),
                views(digests@).subrange(0, k + 1),
            );
            assert(pair_views(before).len() == k);
            assert forall|j: int| 0 <= j <= k implies #[trigger] pair_views(out@)[j] == want[j] by {
                assert(pair_views(out@)[j] == (out@[j].0, out@[j].1@));
                if j < k {
                    assert(out@[j] == before[j]);
                    assert(pair_views(before)[j] == (before[j].0, before[j].1@));
                } else {
                    assert(views(digests@)[k as int] == digests@[k as int]@);
                }
            }
            assert(pair_views(out@) =~= want);
        }
        k = k + 1;
    }
    assert(indices@.subrange(0, indices.len() as int) =~= indices@);
    assert(views(digests@).subrange(0, digests.len() as int) =~= views(digests@));
    out
}

/// Verifies a proof against the values of the revealed messages, given in
/// ascending order of their indices, and the nonce the proof was bound to.
pub fn rust_bbs_verify_proof(
    proof: &Vec<u8>,
    public_key: &Vec<u8>,
    messages: &Vec<Vec<u8>>,
    nonce: &Option<Vec<u8>>,
) -> (r: Result<bool, BbsError>)
    ensures
        r == verify_proof_outcome(proof@, public_key@, views(messages@), *nonce),
{
    match check_public_key(public_key) {
        Ok(_) => {},
        Err(e) => return Err(e),
    }
    let (count, revealed) = match decode_proof_prefix(proof.as_slice()) {
        Ok(p) => p,
        Err(e) => return Err(e),
    };
    if messages.len() != revealed.len() {
        return Err(BbsError::ArityMismatch);
    }
    let offset: usize = 2 + (count as usize / 8 + 1);
    let body = slice_range(proof.as_slice(), offset, proof.len());
    if !check_pok_proof_framing(body.as_slice()) {
        return Err(BbsError::InvalidArgumentEncoding);
    }
    let digests = hash_messages(messages);
    proof {
        assert(views(digests@).len() == digests@.len());
        assert(views(messages@).len() == messages@.len());
    }
    let pairs = pair_revealed(&revealed, &digests);
    let element = verifier_nonce(nonce);
    match check_proof(public_key.as_slice(), &pairs, body.as_slice(), element.as_slice()) {
        Some(b) => Ok(b),
        None => Err(BbsError::InvalidArgumentEncoding),
    }
}

/// The outcome of verifying a proof with a compact public key, expanded to
/// the message count that the proof announces.
pub open spec fn verify_proof_with_compact_key_outcome(
    proof: Seq<u8>,
    dpk: Seq<u8>,
    messages: Seq<Seq<u8>>,
    nonce: Option<Vec<u8>>,
) -> Result<bool, BbsError> {
    if proof.len() < 2 {
        Err(BbsError::InvalidArgumentEncoding)
    } else {
        match full_key_outcome(dpk, prefix_count(proof)) {
            Err(e) => Err(e),
            Ok(pk) => verify_proof_outcome(proof, pk, messages, nonce),
        }
    }
}

/// Verifies a proof with a compact public key: the message count is read
/// from the proof and the key expanded to it first.
pub fn rust_bls_verify_proof(
    proof: &Vec<u8>,
    public_key: &Vec<u8>,
    messages: &Vec<Vec<u8>>,
    nonce: &Option<Vec<u8>>,
) -> (r: Result<bool, BbsError>)
    ensures
        r == verify_proof_with_compact_key_outcome(proof@, public_key@, views(messages@), *nonce),
{
    if proof.len() < 2 {
        return Err(BbsError::InvalidArgumentEncoding);
    }
    let count: usize = (proof[0] as usize) * 256 + proof[1] as usize;
    let pk = match rust_bls_public_key_to_bbs_key(public_key, count) {
        Ok(k) => k,
        Err(e) => return Err(e),
    };
    rust_bbs_verify_proof(proof, &pk, messages, nonce)
}

} // verus!
