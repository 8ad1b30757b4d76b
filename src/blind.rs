//! Blind signing: the recipient commits to the messages the signer must not
//! see, the signer checks the commitment against the slots it does not know
//! and signs it together with the messages it knows, and the recipient
//! unblinds the result into an ordinary signature.
use vstd::prelude::*;
use crate::error::BbsError;
use crate::indices::{
    all_distinct, all_in_range, complement_of, index_items, index_mask, indices_distinct,
    invert_mask, mask_of, names, pair_views, selected, selected_indices, views, zip_indices,
};
use crate::primitives::{
    all_field_elements, all_indexed_field_elements, blind_context, blind_sign_digests,
    check_commitment, commitment_decodes, commitment_verdict, decodes_commitment,
    decodes_field_element, field_element_decodes, hash_nonce, nonce_digest, unblind,
    unblinded_signature,
};
use crate::signing::{check_public_key, hash_messages, public_key_check};
use crate::wire::{key_message_count, FR_SIZE, G1_SIZE, SIGNATURE_SIZE};

verus! {

/// What the recipient produces when committing to its hidden messages. It
/// keeps `blinding_factor` and sends the other three parts to the signer.
pub struct BlindCommitment {
    pub commitment: Vec<u8>,
    pub challenge_hash: Vec<u8>,
    pub blinding_factor: Vec<u8>,
    pub proof_of_hidden_messages: Vec<u8>,
}

/// The nonce both sides of blind signing use when the caller gives none.
pub open spec fn default_blind_nonce() -> Seq<u8> {
    seq![98u8, 98, 115, 43, 114, 117, 115, 116, 102, 102, 105, 119, 114, 97, 112, 112, 101, 114]
}

/// The nonce element of blind signing.
pub open spec fn blind_nonce_element(nonce: Option<Vec<u8>>) -> Seq<u8> {
    match nonce {
        Some(n) => nonce_digest(n@),
        None => nonce_digest(default_blind_nonce()),
    }
}

/// Hashes the blind-signing nonce, or the default one.
pub fn blind_nonce(nonce: &Option<Vec<u8>>) -> (r: Vec<u8>)
    ensures
        r@ == blind_nonce_element(*nonce),
        field_element_decodes(r@),
{
    match nonce {
        Some(n) => hash_nonce(n.as_slice()),
        None => {
            let d: Vec<u8> = vec![98u8, 98, 115, 43, 114, 117, 115, 116, 102, 102, 105, 119, 114, 97, 112, 112, 101, 114];
            assert(d@ =~= default_blind_nonce());
            hash_nonce(d.as_slice())
        },
    }
}

/// Why indexed messages cannot be used with a key of `count` slots, if they
/// cannot.
pub open spec fn indexed_check(indices: Seq<i64>, message_count: nat, count: nat) -> Option<BbsError> {
    if indices.len() != message_count || message_count > count {
        Some(BbsError::ArityMismatch)
    } else if !all_in_range(indices, count) {
        Some(BbsError::IndexOutOfBounds)
    } else if !all_distinct(indices) {
        Some(BbsError::DuplicateIndex)
    } else {
        None
    }
}

/// Why a commitment cannot be built, if that is known before the primitives
/// are asked.
pub open spec fn commitment_check(pk: Seq<u8>, blinded: Seq<i64>, message_count: nat) -> Option<BbsError> {
    if public_key_check(pk) is Some {
        public_key_check(pk)
    } else {
        indexed_check(blinded, message_count, key_message_count(pk))
    }
}

/// Commits to the messages at the `blinded` indices, which the signer will
/// not see.
pub fn rust_bbs_blind_signature_commitment(
    public_key: &Vec<u8>,
    messages: &Vec<Vec<u8>>,
    blinded: &Vec<i64>,
    nonce: &Option<Vec<u8>>,
) -> (r: Result<BlindCommitment, BbsError>)
    ensures
        match commitment_check(public_key@, blinded@, messages@.len()) {
            Some(e) => r == Err::<BlindCommitment, BbsError>(e),
            None => r matches Ok(c) && c.commitment@.len() == G1_SIZE && c.challenge_hash@.len()
                == FR_SIZE && c.blinding_factor@.len() == FR_SIZE
                && c.proof_of_hidden_messages@.len() >= G1_SIZE + 4,
        },
{
    let count = match check_public_key(public_key) {
        Ok(c) => c,
        Err(e) => return Err(e),
    };
    let digests = hash_messages(messages);
    proof {
        assert(views(digests@).len() == digests@.len());
        assert(views(messages@).len() == messages@.len());
    }
    if messages.len() > count {
        return Err(BbsError::ArityMismatch);
    }
    let hidden = match index_items(blinded, &digests, count) {
        Ok(h) => h,
        Err(e) => return Err(e),
    };
    proof {
        assert forall|k: int| 0 <= k < hidden.len() implies hidden[k].0 < key_message_count(
            public_key@,
        ) by {
            assert(all_in_range(blinded@, count as nat));
            assert(pair_views(hidden@).len() == hidden@.len());
            assert(pair_views(hidden@)[k] == (hidden@[k].0, hidden@[k].1@));
            assert(pair_views(hidden@)[k] == zip_indices(blinded@, views(digests@))[k]);
            assert(0 <= blinded@[k] < count);
            assert(views(digests@).len() == digests@.len());
            assert(views(digests@)[k] == digests@[k]@);
            assert(all_field_elements(digests@));
        }
        assert forall|k: int| 0 <= k < hidden.len() implies field_element_decodes(
            #[trigger] hidden@[k].1@,
        ) by {
            assert(pair_views(hidden@).len() == hidden@.len());
            assert(pair_views(hidden@)[k] == (hidden@[k].0, hidden@[k].1@));
            assert(pair_views(hidden@)[k] == zip_indices(blinded@, views(digests@))[k]);
            assert(views(digests@).len() == digests@.len());
            assert(views(digests@)[k] == digests@[k]@);
            assert(all_field_elements(digests@));
        }
        assert(all_indexed_field_elements(hidden@));
    }
    let element = blind_nonce(nonce);
    match blind_context(public_key.as_slice(), &hidden, element.as_slice()) {
        Some(c) => Ok(c),
        None => Err(BbsError::CryptographicFailure),
    }
}

/// The outcome of the signer's check of a commitment: the proof is checked
/// against the slots that are not blinded.
pub open spec fn verify_commitment_outcome(
    commitment: Seq<u8>,
    challenge: Seq<u8>,
    proof: Seq<u8>,
    pk: Seq<u8>,
    blinded: Seq<i64>,
    nonce: Option<Vec<u8>>,
) -> Result<bool, BbsError> {
    if commitment.len() != G1_SIZE || challenge.len() != FR_SIZE {
        Err(BbsError::InvalidArgumentEncoding)
    } else if public_key_check(pk) is Some {
        Err(public_key_check(pk)->Some_0)
    } else if !all_in_range(blinded, key_message_count(pk)) {
        Err(BbsError::IndexOutOfBounds)
    } else if !all_distinct(blinded) {
        Err(BbsError::DuplicateIndex)
    } else {
        match commitment_verdict(
            commitment,
            challenge,
            proof,
            pk,
            selected(complement_of(blinded, key_message_count(pk))),
            blind_nonce_element(nonce),
        ) {
            Some(b) => Ok(b),
            None => Err(BbsError::InvalidArgumentEncoding),
        }
    }
}

/// Checks the recipient's commitment and its proof of the hidden messages,
/// taking as hidden exactly the `blinded` slots.
pub fn rust_bbs_verify_blind_signature_proof(
    commitment: &Vec<u8>,
    challenge_hash: &Vec<u8>,
    proof_of_hidden_messages: &Vec<u8>,
    public_key: &Vec<u8>,
    blinded: &Vec<i64>,
    nonce: &Option<Vec<u8>>,
) -> (r: Result<bool, BbsError>)
    ensures
        r == verify_commitment_outcome(
            commitment@,
            challenge_hash@,
            proof_of_hidden_messages@,
            public_key@,
            blinded@,
            *nonce,
        ),
{
    if commitment.len() != G1_SIZE || challenge_hash.len() != FR_SIZE {
        return Err(BbsError::InvalidArgumentEncoding);
    }
    let count = match check_public_key(public_key) {
        Ok(c) => c,
        Err(e) => return Err(e),
    };
    let hidden = match index_mask(blinded, count) {
        Ok(m) => m,
        Err(e) => return Err(e),
    };
    if !indices_distinct(blinded, count) {
        return Err(BbsError::DuplicateIndex);
    }
    let known_mask = invert_mask(&hidden);
    assert(known_mask@ =~= complement_of(blinded@, count as nat));
    let known = selected_indices(&known_mask);
    let element = blind_nonce(nonce);
    match check_commitment(
        commitment.as_slice(),
        challenge_hash.as_slice(),
        proof_of_hidden_messages.as_slice(),
        public_key.as_slice(),
        &known,
        element.as_slice(),
    ) {
        Some(b) => Ok(b),
        None => Err(BbsError::InvalidArgumentEncoding),
    }
}

/// When the recipient's hidden indices and the signer's known indices split
/// the slots between them, the slots the signer checks the commitment
/// against, the complement of the blinded list, are exactly the known ones.
pub proof fn lemma_known_complements_hidden(hidden: Seq<i64>, known: Seq<i64>, n: nat)
    requires
        forall|i: int| 0 <= i < n ==> (names(hidden, i) <==> !names(known, i)),
    ensures
        selected(complement_of(hidden, n)) == selected(mask_of(known, n)),
{
    assert(complement_of(hidden, n) =~= mask_of(known, n));
}

/// Why a blind signature cannot be issued, if that is known before the
/// primitives are asked.
pub open spec fn blind_sign_check(
    sk: Seq<u8>,
    pk: Seq<u8>,
    commitment: Seq<u8>,
    known: Seq<i64>,
    message_count: nat,
) -> Option<BbsError> {
    if sk.len() != FR_SIZE || !field_element_decodes(sk) {
        Some(BbsError::InvalidArgumentEncoding)
    } else if public_key_check(pk) is Some {
        public_key_check(pk)
    } else if indexed_check(known, message_count, key_message_count(pk)) is Some {
        indexed_check(known, message_count, key_message_count(pk))
    } else if commitment.len() != G1_SIZE || !commitment_decodes(commitment) {
        Some(BbsError::InvalidArgumentEncoding)
    } else {
        None
    }
}

/// Signs the recipient's commitment together with the messages the signer
/// knows, at the `known` indices. The blind signature is 112 bytes.
pub fn rust_bbs_blind_sign(
    secret_key: &Vec<u8>,
    public_key: &Vec<u8>,
    commitment: &Vec<u8>,
    known: &Vec<i64>,
    messages: &Vec<Vec<u8>>,
) -> (r: Result<Vec<u8>, BbsError>)
    ensures
        match blind_sign_check(secret_key@, public_key@, commitment@, known@, messages@.len()) {
            Some(e) => r == Err::<Vec<u8>, BbsError>(e),
            None => r matches Ok(s) && s@.len() == SIGNATURE_SIZE,
        },
{
    if secret_key.len() != FR_SIZE || !decodes_field_element(secret_key.as_slice()) {
        return Err(BbsError::InvalidArgumentEncoding);
    }
    let count = match check_public_key(public_key) {
        Ok(c) => c,
        Err(e) => return Err(e),
    };
    let digests = hash_messages(messages);
    proof {
        assert(views(digests@).len() == digests@.len());
        assert(views(messages@).len() == messages@.len());
    }
    if messages.len() > count {
        return Err(BbsError::ArityMismatch);
    }
    let pairs = match index_items(known, &digests, count) {
        Ok(p) => p,
        Err(e) => return Err(e),
    };
    if commitment.len() != G1_SIZE || !decodes_commitment(commitment.as_slice()) {
        return Err(BbsError::InvalidArgumentEncoding);
    }
    proof {
        assert forall|k: int| 0 <= k < pairs.len() implies pairs[k].0 < key_message_count(
            public_key@,
        ) by {
            assert(all_in_range(known@, count as nat));
            assert(pair_views(pairs@).len() == pairs@.len());
            assert(pair_views(pairs@)[k] == (pairs@[k].0, pairs@[k].1@));
            assert(pair_views(pairs@)[k] == zip_indices(known@, views(digests@))[k]);
            assert(0 <= known@[k] < count);
            assert(views(digests@).len() == digests@.len());
            assert(views(digests@)[k] == digests@[k]@);
            assert(all_field_elements(digests@));
        }
        assert forall|k: int| 0 <= k < pairs.len() implies field_element_decodes(
            #[trigger] pairs@[k].1@,
        ) by {
            assert(pair_views(pairs@).len() == pairs@.len());
            assert(pair_views(pairs@)[k] == (pairs@[k].0, pairs@[k].1@));
            assert(pair_views(pairs@)[k] == zip_indices(known@, views(digests@))[k]);
            assert(views(digests@).len() == digests@.len());
            assert(views(digests@)[k] == digests@[k]@);
            assert(all_field_elements(digests@));
        }
        assert(all_indexed_field_elements(pairs@));
        assert(pair_views(pairs@).len() == pairs@.len());
        assert(pairs@.len() == known@.len());
    }
    match blind_sign_digests(commitment.as_slice(), &pairs, secret_key.as_slice(), public_key.as_slice()) {
        Some(s) => Ok(s),
        None => Err(BbsError::CryptographicFailure),
    }
}

/// The outcome of unblinding a blind signature.
pub open spec fn unblind_outcome(blind_signature: Seq<u8>, blinding_factor: Seq<u8>) -> Result<Seq<u8>, BbsError> {
    if blind_signature.len() != SIGNATURE_SIZE || blinding_factor.len() != FR_SIZE {
        Err(BbsError::InvalidArgumentEncoding)
    } else {
        match unblinded_signature(blind_signature, blinding_factor) {
            Some(s) => Ok(s),
            None => Err(BbsError::InvalidArgumentEncoding),
        }
    }
}

/// Removes the recipient's blinding factor from a blind signature.
pub fn rust_bbs_unblind_signature(blind_signature: &Vec<u8>, blinding_factor: &Vec<u8>) -> (r: Result<Vec<u8>, BbsError>)
    ensures
        match r {
            Ok(s) => unblind_outcome(blind_signature@, blinding_factor@) == Ok::<Seq<u8>, BbsError>(s@),
            Err(e) => unblind_outcome(blind_signature@, blinding_factor@) == Err::<Seq<u8>, BbsError>(e),
        },
{
    if blind_signature.len() != SIGNATURE_SIZE || blinding_factor.len() != FR_SIZE {
        return Err(BbsError::InvalidArgumentEncoding);
    }
    match unblind(blind_signature.as_slice(), blinding_factor.as_slice()) {
        Some(s) => Ok(s),
        None => Err(BbsError::InvalidArgumentEncoding),
    }
}

} // verus!
