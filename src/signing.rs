//! Signing all messages with a key pair, verifying a signature, and turning a
//! compact (deterministic) public key into a full one for a message count.
use vstd::prelude::*;
use crate::error::BbsError;
use crate::indices::views;
use crate::primitives::{
    all_field_elements, check_signature, decodes_field_element, decodes_public_key,
    deterministic_key, deterministic_key_of, expand_key, expanded_public_key,
    field_element_decodes, hash_message, message_digest, public_key_decodes, sign_digests,
    signature_verdict,
};
use crate::wire::{
    check_public_key_framing, key_message_count, public_key_framed, public_key_message_count,
    FR_SIZE, G2_SIZE, SIGNATURE_SIZE,
};

verus! {

/// Why a compressed public key cannot be used, if it cannot.
pub open spec fn public_key_check(pk: Seq<u8>) -> Option<BbsError> {
    if !public_key_framed(pk) {
        Some(BbsError::InvalidArgumentEncoding)
    } else if !public_key_decodes(pk) {
        Some(BbsError::InvalidKey)
    } else {
        None
    }
}

/// The digest of each message, in order.
pub open spec fn digests_of(messages: Seq<Seq<u8>>) -> Seq<Seq<u8>> {
    messages.map_values(|m: Seq<u8>| message_digest(m))
}

/// Checks a compressed public key and returns its message count.
pub fn check_public_key(pk: &Vec<u8>) -> (r: Result<usize, BbsError>)
    ensures
        match public_key_check(pk@) {
            Some(e) => r == Err::<usize, BbsError>(e),
            None => r == Ok::<usize, BbsError>(key_message_count(pk@) as usize)
                && key_message_count(pk@) <= usize::MAX,
        },
{
    if !check_public_key_framing(pk.as_slice()) {
        return Err(BbsError::InvalidArgumentEncoding);
    }
    if !decodes_public_key(pk.as_slice()) {
        return Err(BbsError::InvalidKey);
    }
    Ok(public_key_message_count(pk.as_slice()))
}

/// Hashes every message to its digest.
pub fn hash_messages(messages: &Vec<Vec<u8>>) -> (r: Vec<Vec<u8>>)
    ensures
        views(r@) == digests_of(views(messages@)),
        all_field_elements(r@),
{
    let mut out: Vec<Vec<u8>> = Vec::new();
    let mut i: usize = 0;
    while i < messages.len()
        invariant
            i <= messages.len(),
            views(out@) == digests_of(views(messages@).subrange(0, i as int)),
            all_field_elements(out@),
        decreases messages.len() - i,
    {
        let ghost before = out@;
        let d = hash_message(messages[i].as_slice());
        out.push(d);
        proof {
            let want = digests_of(views(messages@).subrange(0, i + 1));
            assert(views(before).len() == i);
            assert forall|j: int| 0 <= j <= i implies #[trigger] views(out@)[j] == want[j] by {
                if j < i {
                    assert(out@[j] == before[j]);
                    assert(views(before)[j] == digests_of(views(messages@).subrange(0, i as int))[j]);
                }
            }
            assert(views(out@) =~= want);
        }
        i = i + 1;
    }
    assert(views(messages@).subrange(0, messages.len() as int) =~= views(messages@));
    out
}

/// The outcome of signing, as far as it is fixed before any randomness is
/// drawn: `Some` error, or `None` when the primitives are asked to sign.
pub open spec fn sign_check(sk: Seq<u8>, pk: Seq<u8>, count: nat) -> Option<BbsError> {
    if public_key_check(pk) is Some {
        public_key_check(pk)
    } else if sk.len() != FR_SIZE || !field_element_decodes(sk) {
        Some(BbsError::InvalidArgumentEncoding)
    } else if count != key_message_count(pk) {
        Some(BbsError::ArityMismatch)
    } else {
        None
    }
}

/// What signing returns: the error of `sign_check`, or else a signature,
/// which is 112 bytes.
pub open spec fn sign_meets(sk: Seq<u8>, pk: Seq<u8>, count: nat, r: Result<Vec<u8>, BbsError>) -> bool {
    match sign_check(sk, pk, count) {
        Some(e) => r == Err::<Vec<u8>, BbsError>(e),
        None => r matches Ok(s) && s@.len() == SIGNATURE_SIZE,
    }
}

/// Signs every message under the key pair. The signature is 112 bytes.
pub fn rust_bbs_sign(secret_key: &Vec<u8>, public_key: &Vec<u8>, messages: &Vec<Vec<u8>>) -> (r: Result<Vec<u8>, BbsError>)
    ensures
        sign_meets(secret_key@, public_key@, messages@.len(), r),
{
    let count = match check_public_key(public_key) {
        Ok(c) => c,
        Err(e) => return Err(e),
    };
    if secret_key.len() != FR_SIZE || !decodes_field_element(secret_key.as_slice()) {
        return Err(BbsError::InvalidArgumentEncoding);
    }
    if messages.len() != count {
        return Err(BbsError::ArityMismatch);
    }
    let digests = hash_messages(messages);
    assert(views(digests@).len() == digests@.len());
    match sign_digests(&digests, secret_key.as_slice(), public_key.as_slice()) {
        Some(s) => Ok(s),
        None => Err(BbsError::CryptographicFailure),
    }
}

/// The outcome of verifying a signature over messages.
pub open spec fn verify_outcome(pk: Seq<u8>, sig: Seq<u8>, messages: Seq<Seq<u8>>) -> Result<bool, BbsError> {
    if public_key_check(pk) is Some {
        Err(public_key_check(pk)->Some_0)
    } else if sig.len() != SIGNATURE_SIZE {
        Err(BbsError::InvalidArgumentEncoding)
    } else if messages.len() != key_message_count(pk) {
        Err(BbsError::ArityMismatch)
    } else {
        match signature_verdict(sig, digests_of(messages), pk) {
            Some(b) => Ok(b),
            None => Err(BbsError::InvalidArgumentEncoding),
        }
    }
}

/// Verifies a signature over every message.
pub fn rust_bbs_verify(public_key: &Vec<u8>, signature: &Vec<u8>, messages: &Vec<Vec<u8>>) -> (r: Result<bool, BbsError>)
    ensures
        r == verify_outcome(public_key@, signature@, views(messages@)),
{
    let count = match check_public_key(public_key) {
        Ok(c) => c,
        Err(e) => return Err(e),
    };
    if signature.len() != SIGNATURE_SIZE {
        return Err(BbsError::InvalidArgumentEncoding);
    }
    if messages.len() != count {
        return Err(BbsError::ArityMismatch);
    }
    let digests = hash_messages(messages);
    match check_signature(signature.as_slice(), &digests, public_key.as_slice()) {
        Some(b) => Ok(b),
        None => Err(BbsError::InvalidArgumentEncoding),
    }
}

/// The full public key for `count` messages derived from a compact one.
pub open spec fn full_key_outcome(dpk: Seq<u8>, count: nat) -> Result<Seq<u8>, BbsError> {
    if dpk.len() != G2_SIZE || count > u32::MAX {
        Err(BbsError::InvalidArgumentEncoding)
    } else {
        match expanded_public_key(dpk, count) {
            None => Err(BbsError::InvalidKey),
            Some(k) => if public_key_check(k) is None && key_message_count(k) == count {
                Ok(k)
            } else {
                Err(BbsError::InvalidKey)
            },
        }
    }
}

/// Expands a compact public key into the full key for `message_count`
/// messages, and checks the result.
pub fn rust_bls_public_key_to_bbs_key(public_key: &Vec<u8>, message_count: usize) -> (r: Result<Vec<u8>, BbsError>)
    ensures
        match r {
            Ok(k) => full_key_outcome(public_key@, message_count as nat) == Ok::<Seq<u8>, BbsError>(k@),
            Err(e) => full_key_outcome(public_key@, message_count as nat) == Err::<Seq<u8>, BbsError>(e),
        },
{
    if public_key.len() != G2_SIZE || message_count as u64 > 0xffff_ffff {
        return Err(BbsError::InvalidArgumentEncoding);
    }
    let key = match expand_key(public_key.as_slice(), message_count) {
        Some(k) => k,
        None => return Err(BbsError::InvalidKey),
    };
    match check_public_key(&key) {
        Ok(c) => if c == message_count {
            Ok(key)
        } else {
            Err(BbsError::InvalidKey)
        },
        Err(_) => Err(BbsError::InvalidKey),
    }
}

/// The full public key for `count` messages of a secret key.
pub open spec fn secret_full_key_outcome(sk: Seq<u8>, count: nat) -> Result<Seq<u8>, BbsError> {
    if sk.len() != FR_SIZE {
        Err(BbsError::InvalidArgumentEncoding)
    } else {
        match deterministic_key_of(sk) {
            None => Err(BbsError::InvalidArgumentEncoding),
            Some(dpk) => full_key_outcome(dpk, count),
        }
    }
}

/// Derives the full public key for `message_count` messages from a secret key.
pub fn rust_bls_secret_key_to_bbs_key(secret_key: &Vec<u8>, message_count: usize) -> (r: Result<Vec<u8>, BbsError>)
    ensures
        match r {
            Ok(k) => secret_full_key_outcome(secret_key@, message_count as nat) == Ok::<
                Seq<u8>,
                BbsError,
            >(k@),
            Err(e) => secret_full_key_outcome(secret_key@, message_count as nat) == Err::<
                Seq<u8>,
                BbsError,
            >(e),
        },
{
    if secret_key.len() != FR_SIZE {
        return Err(BbsError::InvalidArgumentEncoding);
    }
    let dpk = match deterministic_key(secret_key.as_slice()) {
        Some(k) => k,
        None => return Err(BbsError::InvalidArgumentEncoding),
    };
    rust_bls_public_key_to_bbs_key(&dpk, message_count)
}

} // verus!
