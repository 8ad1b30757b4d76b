//! Every call into the `bbs` crate. Values cross as compressed byte strings;
//! each function below decodes its arguments, makes one call and encodes the
//! result.
//!
//! Results that depend on the arguments alone are named by the uninterpreted
//! functions of this module. Signing and proof generation draw fresh
//! randomness, so of them only the shape of the result is stated.
use vstd::prelude::*;
use std::collections::{BTreeMap, BTreeSet};
use std::convert::TryFrom;
use bbs::prelude::{
    BlindSignature, BlindSignatureContext, Commitment, DeterministicPublicKey, HashElem,
    HiddenMessage, KeyGenOption, PoKOfSignature, PoKOfSignatureProof, ProofChallenge, ProofG1,
    ProofMessage, ProofNonce, ProofRequest, Prover, PublicKey, SecretKey, Signature,
    SignatureBlinding, SignatureMessage, SignatureProof, ToVariableLengthBytes, Verifier,
};
use crate::blind::BlindCommitment;
use crate::disclosure::ProofEntry;
use crate::indices::{pair_views, views};
use crate::wire::{public_key_framed, key_message_count, pok_proof_framed};

verus! {

/// The prover's state between the commitment phase of a proof of knowledge
/// and its response to the challenge; opaque here.
#[verifier::external_type_specification]
#[verifier::external_body]
pub struct ExPoKOfSignature(PoKOfSignature);

/// The framed compressed public key decodes: every point is on the curve and
/// no generator is the identity.
pub uninterp spec fn public_key_decodes(pk: Seq<u8>) -> bool;

/// The bytes decode as a compressed field element. `SecretKey`,
/// `SignatureMessage`, `ProofNonce` and `ProofChallenge` all decode with the
/// same `Fr::deserialize` (the `from_impl!` of bbs), so one name serves all.
pub uninterp spec fn field_element_decodes(b: Seq<u8>) -> bool;

/// The bytes decode as a compressed commitment (a G1 point).
pub uninterp spec fn commitment_decodes(b: Seq<u8>) -> bool;

/// Every byte string of the list decodes as a field element.
pub open spec fn all_field_elements(v: Seq<Vec<u8>>) -> bool {
    forall|i: int| 0 <= i < v.len() ==> field_element_decodes(#[trigger] v[i]@)
}

/// Every indexed byte string of the list decodes as a field element.
pub open spec fn all_indexed_field_elements(v: Seq<(usize, Vec<u8>)>) -> bool {
    forall|i: int| 0 <= i < v.len() ==> field_element_decodes(#[trigger] v[i].1@)
}

/// The digests that proof entries carry, in order.
pub open spec fn entry_digests(entries: Seq<ProofEntry>) -> Seq<Seq<u8>> {
    entries.map_values(|e: ProofEntry| e.digest())
}

/// The field element a message is hashed to, compressed.
pub uninterp spec fn message_digest(m: Seq<u8>) -> Seq<u8>;

/// The field element a verifier nonce is hashed to, compressed.
pub uninterp spec fn nonce_digest(n: Seq<u8>) -> Seq<u8>;

/// The Fiat-Shamir challenge hashed from a transcript, compressed.
pub uninterp spec fn challenge_digest(b: Seq<u8>) -> Seq<u8>;

/// Whether a signature verifies over message digests (`None`: it does not
/// decode, or the count differs from the key's).
pub uninterp spec fn signature_verdict(sig: Seq<u8>, digests: Seq<Seq<u8>>, pk: Seq<u8>) -> Option<bool>;

/// Whether a proof of knowledge verifies for the revealed digests under the
/// nonce element (`None`: the proof or an element does not decode).
pub uninterp spec fn proof_verdict(
    pk: Seq<u8>,
    revealed: Seq<(usize, Seq<u8>)>,
    proof: Seq<u8>,
    nonce: Seq<u8>,
) -> Option<bool>;

/// Whether a blind-signing commitment and its proof verify when the signer
/// knows the messages at `known` (`None`: a part does not decode).
pub uninterp spec fn commitment_verdict(
    commitment: Seq<u8>,
    challenge: Seq<u8>,
    proof: Seq<u8>,
    pk: Seq<u8>,
    known: Seq<usize>,
    nonce: Seq<u8>,
) -> Option<bool>;

/// The signature a blind signature unblinds to (`None`: a part does not decode).
pub uninterp spec fn unblinded_signature(blind: Seq<u8>, blinding: Seq<u8>) -> Option<Seq<u8>>;

/// The compact public key of a secret key (`None`: the key does not decode).
pub uninterp spec fn deterministic_key_of(sk: Seq<u8>) -> Option<Seq<u8>>;

/// The full public key for `count` messages expanded from a compact one.
pub uninterp spec fn expanded_public_key(dpk: Seq<u8>, count: nat) -> Option<Seq<u8>>;

/// Relies on `PublicKey::from_bytes_compressed_form`, which decodes the
/// points and rejects an identity generator.
#[verifier::external_body]
pub(crate) fn decodes_public_key(pk: &[u8]) -> (r: bool)
    requires
        public_key_framed(pk@),
    ensures
        r == public_key_decodes(pk@),
{
    PublicKey::from_bytes_compressed_form(pk).is_ok()
}

/// Relies on `SecretKey::try_from(&[u8])`, that is `Fr::deserialize`.
#[verifier::external_body]
pub(crate) fn decodes_field_element(b: &[u8]) -> (r: bool)
    ensures
        r == field_element_decodes(b@),
{
    SecretKey::try_from(b).is_ok()
}

/// Relies on `Commitment::try_from(&[u8])`, that is `G1::deserialize`.
#[verifier::external_body]
pub(crate) fn decodes_commitment(b: &[u8]) -> (r: bool)
    ensures
        r == commitment_decodes(b@),
{
    Commitment::try_from(b).is_ok()
}

/// Relies on `SignatureMessage::hash`: 32 bytes that depend on the message
/// alone, the canonical encoding of a field element.
#[verifier::external_body]
pub(crate) fn hash_message(m: &[u8]) -> (r: Vec<u8>)
    ensures
        r@ == message_digest(m@),
        r@.len() == 32,
        field_element_decodes(r@),
{
    SignatureMessage::hash(m).to_bytes_compressed_form().to_vec()
}

/// Relies on `ProofNonce::hash`: 32 bytes that depend on the nonce alone, the
/// canonical encoding of a field element.
#[verifier::external_body]
pub(crate) fn hash_nonce(n: &[u8]) -> (r: Vec<u8>)
    ensures
        r@ == nonce_digest(n@),
        r@.len() == 32,
        field_element_decodes(r@),
{
    ProofNonce::hash(n).to_bytes_compressed_form().to_vec()
}

/// Relies on `ProofChallenge::hash`: 32 bytes that depend on the input alone,
/// the canonical encoding of a field element.
#[verifier::external_body]
pub(crate) fn hash_challenge(b: &[u8]) -> (r: Vec<u8>)
    ensures
        r@ == challenge_digest(b@),
        r@.len() == 32,
        field_element_decodes(r@),
{
    ProofChallenge::hash(b).to_bytes_compressed_form().to_vec()
}

/// Relies on `Signature::new`, which draws fresh randomness and fails only
/// for more messages than the key has generators; a compressed signature is
/// 112 bytes.
#[verifier::external_body]
pub(crate) fn sign_digests(digests: &Vec<Vec<u8>>, sk: &[u8], pk: &[u8]) -> (r: Option<Vec<u8>>)
    requires
        public_key_framed(pk@),
        public_key_decodes(pk@),
    ensures
        r matches Some(s) ==> s@.len() == 112,
        field_element_decodes(sk@) && all_field_elements(digests@) && digests@.len()
            <= key_message_count(pk@) ==> r is Some,
{
    let pk = PublicKey::from_bytes_compressed_form(pk).ok()?;
    let sk = SecretKey::try_from(sk).ok()?;
    let msgs: Vec<SignatureMessage> =
        digests.iter().map(|d| SignatureMessage::try_from(d.as_slice())).collect::<Result<_, _>>().ok()?;
    let sig = Signature::new(msgs.as_slice(), &sk, &pk).ok()?;
    Some(sig.to_bytes_compressed_form().to_vec())
}

/// Relies on `Signature::verify`.
#[verifier::external_body]
pub(crate) fn check_signature(sig: &[u8], digests: &Vec<Vec<u8>>, pk: &[u8]) -> (r: Option<bool>)
    requires
        public_key_framed(pk@),
        public_key_decodes(pk@),
    ensures
        r == signature_verdict(sig@, views(digests@), pk@),
{
    let pk = PublicKey::from_bytes_compressed_form(pk).ok()?;
    let sig = Signature::try_from(sig).ok()?;
    let msgs: Vec<SignatureMessage> =
        digests.iter().map(|d| SignatureMessage::try_from(d.as_slice())).collect::<Result<_, _>>().ok()?;
    sig.verify(msgs.as_slice(), &pk).ok()
}

/// Relies on `PoKOfSignature::init`, which draws fresh blinding randomness
/// and fails only when the signature does not verify over the messages (it
/// decodes them as `check_signature` does).
#[verifier::external_body]
pub(crate) fn pok_init(sig: &[u8], pk: &[u8], entries: &Vec<ProofEntry>) -> (r: Option<PoKOfSignature>)
    requires
        public_key_framed(pk@),
        public_key_decodes(pk@),
    ensures
        signature_verdict(sig@, entry_digests(entries@), pk@) == Some(true) ==> r is Some,
{
    let pk = PublicKey::from_bytes_compressed_form(pk).ok()?;
    let sig = Signature::try_from(sig).ok()?;
    let msgs: Vec<ProofMessage> = entries.iter().map(|e| match e {
        ProofEntry::Revealed(d) => SignatureMessage::try_from(d.as_slice()).map(ProofMessage::Revealed),
        ProofEntry::Hidden(d) => SignatureMessage::try_from(d.as_slice())
            .map(|m| ProofMessage::Hidden(HiddenMessage::ProofSpecificBlinding(m))),
    }).collect::<Result<_, _>>().ok()?;
    PoKOfSignature::init(&sig, &pk, msgs.as_slice()).ok()
}

/// Relies on `PoKOfSignature::to_bytes`: the public part of the commitment
/// phase, which the challenge is hashed over.
#[verifier::external_body]
pub(crate) fn pok_transcript(pok: &PoKOfSignature) -> (r: Vec<u8>)
{
    pok.to_bytes()
}

/// Relies on `PoKOfSignature::gen_proof`, which does not fail for a state
/// made by `init`, and on `to_bytes_compressed_form`: three G1 points, the
/// 32-bit length of the first inner proof, that proof, then the second.
#[verifier::external_body]
pub(crate) fn pok_prove(pok: PoKOfSignature, challenge: &[u8]) -> (r: Option<Vec<u8>>)
    ensures
        field_element_decodes(challenge@) ==> r is Some,
        r matches Some(p) ==> pok_proof_framed(p@),
{
    let c = ProofChallenge::try_from(challenge).ok()?;
    Some(pok.gen_proof(&c).ok()?.to_bytes_compressed_form())
}

/// Relies on `Verifier::verify_signature_pok`; any error it reports counts as
/// a proof that does not verify.
#[verifier::external_body]
pub(crate) fn check_proof(pk: &[u8], revealed: &Vec<(usize, Vec<u8>)>, proof: &[u8], nonce: &[u8]) -> (r: Option<bool>)
    requires
        public_key_framed(pk@),
        public_key_decodes(pk@),
        pok_proof_framed(proof@),
    ensures
        r == proof_verdict(pk@, pair_views(revealed@), proof@, nonce@),
{
    let verification_key = PublicKey::from_bytes_compressed_form(pk).ok()?;
    let revealed_messages = revealed.iter().map(|(i, d)| Ok((*i, SignatureMessage::try_from(d.as_slice())?)))
        .collect::<Result<BTreeMap<_, _>, bbs::prelude::BBSError>>().ok()?;
    let request = ProofRequest { revealed_messages: revealed_messages.keys().copied().collect(), verification_key };
    let proof = SignatureProof { revealed_messages, proof: PoKOfSignatureProof::from_bytes_compressed_form(proof).ok()? };
    let nonce = ProofNonce::try_from(nonce).ok()?;
    Some(Verifier::verify_signature_pok(&request, &proof, &nonce).is_ok())
}

/// Relies on `Prover::new_blind_signature_context`, which draws a fresh
/// blinding factor and fails only for an index beyond the key's generators;
/// compressed, the commitment is 48 bytes, the challenge and the blinding
/// factor 32 each, and the proof at least a G1 point and a 32-bit count.
#[verifier::external_body]
pub(crate) fn blind_context(pk: &[u8], hidden: &Vec<(usize, Vec<u8>)>, nonce: &[u8]) -> (r: Option<BlindCommitment>)
    requires
        public_key_framed(pk@),
        public_key_decodes(pk@),
        forall|k: int| 0 <= k < hidden.len() ==> hidden[k].0 < key_message_count(pk@),
    ensures
        r matches Some(c) ==> c.commitment@.len() == 48 && c.challenge_hash@.len() == 32
            && c.blinding_factor@.len() == 32 && c.proof_of_hidden_messages@.len() >= 52,
        field_element_decodes(nonce@) && all_indexed_field_elements(hidden@) ==> r is Some,
{
    let pk = PublicKey::from_bytes_compressed_form(pk).ok()?;
    let messages = hidden.iter().map(|(i, d)| Ok((*i, SignatureMessage::try_from(d.as_slice())?)))
        .collect::<Result<BTreeMap<_, _>, bbs::prelude::BBSError>>().ok()?;
    let (ctx, bf) = Prover::new_blind_signature_context(&pk, &messages, &ProofNonce::try_from(nonce).ok()?).ok()?;
    Some(BlindCommitment {
        commitment: ctx.commitment.to_bytes_compressed_form().to_vec(),
        challenge_hash: ctx.challenge_hash.to_bytes_compressed_form().to_vec(),
        blinding_factor: bf.to_bytes_compressed_form().to_vec(),
        proof_of_hidden_messages: ctx.proof_of_hidden_messages.to_bytes_compressed_form(),
    })
}

/// Relies on `BlindSignatureContext::verify`; an error it reports counts as
/// a commitment that does not verify.
#[verifier::external_body]
pub(crate) fn check_commitment(
    commitment: &[u8],
    challenge: &[u8],
    proof: &[u8],
    pk: &[u8],
    known: &Vec<usize>,
    nonce: &[u8],
) -> (r: Option<bool>)
    requires
        public_key_framed(pk@),
        public_key_decodes(pk@),
    ensures
        r == commitment_verdict(commitment@, challenge@, proof@, pk@, known@, nonce@),
{
    let ctx = BlindSignatureContext {
        commitment: Commitment::try_from(commitment).ok()?,
        challenge_hash: ProofChallenge::try_from(challenge).ok()?,
        proof_of_hidden_messages: ProofG1::from_bytes_compressed_form(proof).ok()?,
    };
    let pk = PublicKey::from_bytes_compressed_form(pk).ok()?;
    let known: BTreeSet<usize> = known.iter().copied().collect();
    Some(ctx.verify(&known, &pk, &ProofNonce::try_from(nonce).ok()?).unwrap_or(false))
}

/// Relies on `BlindSignature::new`, which draws fresh randomness, indexes the
/// key's generators by the known indices, and fails only for more messages
/// than the key has generators.
#[verifier::external_body]
pub(crate) fn blind_sign_digests(commitment: &[u8], known: &Vec<(usize, Vec<u8>)>, sk: &[u8], pk: &[u8]) -> (r: Option<Vec<u8>>)
    requires
        public_key_framed(pk@),
        public_key_decodes(pk@),
        forall|k: int| 0 <= k < known.len() ==> known[k].0 < key_message_count(pk@),
    ensures
        r matches Some(s) ==> s@.len() == 112,
        known@.len() <= key_message_count(pk@) && all_indexed_field_elements(known@)
            && field_element_decodes(sk@) && commitment_decodes(commitment@) ==> r is Some,
{
    let pk = PublicKey::from_bytes_compressed_form(pk).ok()?;
    let messages = known.iter().map(|(i, d)| Ok((*i, SignatureMessage::try_from(d.as_slice())?)))
        .collect::<Result<BTreeMap<_, _>, bbs::prelude::BBSError>>().ok()?;
    let (c, sk) = (Commitment::try_from(commitment).ok()?, SecretKey::try_from(sk).ok()?);
    Some(BlindSignature::new(&c, &messages, &sk, &pk).ok()?.to_bytes_compressed_form().to_vec())
}

/// Relies on `BlindSignature::to_unblinded`.
#[verifier::external_body]
pub(crate) fn unblind(blind: &[u8], blinding: &[u8]) -> (r: Option<Vec<u8>>)
    ensures
        r matches Some(s) ==> s@ == unblinded_signature(blind@, blinding@)->Some_0,
        r is None <==> unblinded_signature(blind@, blinding@) is None,
{
    let b = BlindSignature::try_from(blind).ok()?;
    let f = SignatureBlinding::try_from(blinding).ok()?;
    Some(b.to_unblinded(&f).to_bytes_compressed_form().to_vec())
}

/// Relies on `DeterministicPublicKey::new` with `KeyGenOption::FromSecretKey`.
#[verifier::external_body]
pub(crate) fn deterministic_key(sk: &[u8]) -> (r: Option<Vec<u8>>)
    ensures
        r matches Some(k) ==> k@ == deterministic_key_of(sk@)->Some_0 && k@.len() == 96,
        r is None <==> deterministic_key_of(sk@) is None,
{
    let sk = SecretKey::try_from(sk).ok()?;
    let (dpk, _) = DeterministicPublicKey::new(Some(KeyGenOption::FromSecretKey(sk)));
    Some(dpk.to_bytes_compressed_form().to_vec())
}

/// Relies on `DeterministicPublicKey::to_public_key`, which refuses a count of
/// zero and writes the count as 32 bits.
#[verifier::external_body]
pub(crate) fn expand_key(dpk: &[u8], count: usize) -> (r: Option<Vec<u8>>)
    requires
        count <= u32::MAX,
    ensures
        r matches Some(k) ==> k@ == expanded_public_key(dpk@, count as nat)->Some_0,
        r is None <==> expanded_public_key(dpk@, count as nat) is None,
        count == 0 ==> r is None,
{
    let dpk = DeterministicPublicKey::try_from(dpk).ok()?;
    Some(dpk.to_public_key(count).ok()?.to_bytes_compressed_form())
}

} // verus!
