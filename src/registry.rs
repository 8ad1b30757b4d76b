//! Request builders addressed by integer handles.
//!
//! A caller that can pass only flat values builds a request over several
//! calls: `init` opens a builder and returns its handle, `set_field` fills
//! the builder one field at a time, and `finish` performs the request and
//! closes the handle, whatever the outcome. A closed or unknown handle is
//! refused with `HandleNotFound`, and handles are never reused.
use vstd::prelude::*;
use std::collections::HashMap;
use crate::blind::{rust_bbs_verify_blind_signature_proof, verify_commitment_outcome};
use crate::disclosure::{create_proof_meets, rust_bbs_create_proof};
use crate::error::BbsError;
use crate::indices::views;
use crate::signing::{
    check_public_key, public_key_check, rust_bbs_sign, rust_bbs_verify, sign_meets, verify_outcome,
};
use crate::wire::{key_message_count, FR_SIZE, G1_SIZE, SIGNATURE_SIZE};

verus! {

broadcast use vstd::std_specs::hash::group_hash_axioms;

/// The operation a builder prepares.
#[derive(Clone, Copy, Debug, PartialEq, Eq, Structural)]
pub enum RequestKind {
    Sign,
    Verify,
    CreateProof,
    VerifyBlindCommitment,
}

/// One value handed to a builder.
pub enum BuilderField {
    PublicKey(Vec<u8>),
    SecretKey(Vec<u8>),
    Signature(Vec<u8>),
    Nonce(Vec<u8>),
    Commitment(Vec<u8>),
    ChallengeHash(Vec<u8>),
    ProofOfHiddenMessages(Vec<u8>),
    /// The message at an index of the public key; a later one for the same
    /// index replaces an earlier one.
    Message(u64, Vec<u8>),
    /// An index to reveal in a proof.
    Revealed(i64),
    /// An index the recipient keeps hidden from the signer.
    Blinded(i64),
}

/// The state a handle refers to.
pub struct RequestBuilder {
    pub kind: RequestKind,
    pub public_key: Option<Vec<u8>>,
    pub secret_key: Option<Vec<u8>>,
    pub signature: Option<Vec<u8>>,
    pub nonce: Option<Vec<u8>>,
    pub commitment: Option<Vec<u8>>,
    pub challenge_hash: Option<Vec<u8>>,
    pub proof_of_hidden_messages: Option<Vec<u8>>,
    /// One slot per message of the public key.
    pub slots: Vec<Option<Vec<u8>>>,
    pub revealed: Vec<i64>,
    pub blinded: Vec<i64>,
}

/// What a finished request produced.
pub enum Finished {
    Signature(Vec<u8>),
    Proof(Vec<u8>),
    Verified(bool),
}

/// A builder with nothing set yet.
pub open spec fn is_empty_builder(b: RequestBuilder, kind: RequestKind) -> bool {
    &&& b.kind == kind
    &&& b.public_key is None
    &&& b.secret_key is None
    &&& b.signature is None
    &&& b.nonce is None
    &&& b.commitment is None
    &&& b.challenge_hash is None
    &&& b.proof_of_hidden_messages is None
    &&& b.slots@.len() == 0
    &&& b.revealed@.len() == 0
    &&& b.blinded@.len() == 0
}

/// Why a field is refused by a builder, if it is.
pub open spec fn field_check(b: RequestBuilder, f: BuilderField) -> Option<BbsError> {
    match f {
        BuilderField::PublicKey(pk) => public_key_check(pk@),
        BuilderField::SecretKey(sk) => if sk@.len() == FR_SIZE {
            None
        } else {
            Some(BbsError::InvalidArgumentEncoding)
        },
        BuilderField::Signature(s) => if s@.len() == SIGNATURE_SIZE {
            None
        } else {
            Some(BbsError::InvalidArgumentEncoding)
        },
        BuilderField::Commitment(c) => if c@.len() == G1_SIZE {
            None
        } else {
            Some(BbsError::InvalidArgumentEncoding)
        },
        BuilderField::ChallengeHash(c) => if c@.len() == FR_SIZE {
            None
        } else {
            Some(BbsError::InvalidArgumentEncoding)
        },
        BuilderField::Message(i, _) => if b.public_key is None {
            Some(BbsError::MissingField)
        } else if i >= b.slots@.len() {
            Some(BbsError::IndexOutOfBounds)
        } else {
            None
        },
        _ => None,
    }
}

/// `after` is `before` with the field stored; every other field is kept.
pub open spec fn field_applied(before: RequestBuilder, after: RequestBuilder, f: BuilderField) -> bool {
    &&& after.kind == before.kind
    &&& (f is PublicKey || after.public_key == before.public_key)
    &&& (f is SecretKey || after.secret_key == before.secret_key)
    &&& (f is Signature || after.signature == before.signature)
    &&& (f is Nonce || after.nonce == before.nonce)
    &&& (f is Commitment || after.commitment == before.commitment)
    &&& (f is ChallengeHash || after.challenge_hash == before.challenge_hash)
    &&& (f is ProofOfHiddenMessages || after.proof_of_hidden_messages
        == before.proof_of_hidden_messages)
    &&& (f is PublicKey || f is Message || after.slots@ == before.slots@)
    &&& (f is Revealed || after.revealed@ == before.revealed@)
    &&& (f is Blinded || after.blinded@ == before.blinded@)
    &&& match f {
        BuilderField::PublicKey(pk) => after.public_key == Some(pk) && after.slots@ == Seq::new(
            key_message_count(pk@),
            |_i: int| None::<Vec<u8>>,
        ),
        BuilderField::SecretKey(sk) => after.secret_key == Some(sk),
        BuilderField::Signature(s) => after.signature == Some(s),
        BuilderField::Nonce(n) => after.nonce == Some(n),
        BuilderField::Commitment(c) => after.commitment == Some(c),
        BuilderField::ChallengeHash(c) => after.challenge_hash == Some(c),
        BuilderField::ProofOfHiddenMessages(p) => after.proof_of_hidden_messages == Some(p),
        BuilderField::Message(i, m) => after.slots@ == before.slots@.update(i as int, Some(m)),
        BuilderField::Revealed(i) => after.revealed@ == before.revealed@.push(i),
        BuilderField::Blinded(i) => after.blinded@ == before.blinded@.push(i),
    }
}

/// Every message slot is filled.
pub open spec fn slots_filled(slots: Seq<Option<Vec<u8>>>) -> bool {
    forall|i: int| 0 <= i < slots.len() ==> #[trigger] slots[i] is Some
}

/// The messages of filled slots, in index order.
pub open spec fn slot_messages(slots: Seq<Option<Vec<u8>>>) -> Seq<Seq<u8>> {
    slots.map_values(|s: Option<Vec<u8>>| s->Some_0@)
}

/// Every field the builder's operation needs is set.
pub open spec fn complete(b: RequestBuilder) -> bool {
    &&& b.public_key is Some
    &&& match b.kind {
        RequestKind::Sign => b.secret_key is Some && slots_filled(b.slots@),
        RequestKind::Verify => b.signature is Some && slots_filled(b.slots@),
        RequestKind::CreateProof => b.signature is Some && slots_filled(b.slots@),
        RequestKind::VerifyBlindCommitment => b.commitment is Some && b.challenge_hash is Some
            && b.proof_of_hidden_messages is Some,
    }
}

/// What finishing a complete builder returns: what the operation it prepares
/// returns for the builder's fields.
pub open spec fn finish_matches(b: RequestBuilder, r: Result<Finished, BbsError>) -> bool {
    let pk = b.public_key->Some_0@;
    match b.kind {
        RequestKind::Sign => match r {
            Ok(Finished::Signature(s)) => sign_meets(
                b.secret_key->Some_0@,
                pk,
                b.slots@.len(),
                Ok::<Vec<u8>, BbsError>(s),
            ),
            Ok(_) => false,
            Err(e) => sign_meets(
                b.secret_key->Some_0@,
                pk,
                b.slots@.len(),
                Err::<Vec<u8>, BbsError>(e),
            ),
        },
        RequestKind::Verify => match verify_outcome(
            pk,
            b.signature->Some_0@,
            slot_messages(b.slots@),
        ) {
            Ok(v) => r == Ok::<Finished, BbsError>(Finished::Verified(v)),
            Err(e) => r == Err::<Finished, BbsError>(e),
        },
        RequestKind::CreateProof => match r {
            Ok(Finished::Proof(p)) => create_proof_meets(
                b.signature->Some_0@,
                pk,
                slot_messages(b.slots@),
                b.revealed@,
                Ok::<Vec<u8>, BbsError>(p),
            ),
            Ok(_) => false,
            Err(e) => create_proof_meets(
                b.signature->Some_0@,
                pk,
                slot_messages(b.slots@),
                b.revealed@,
                Err::<Vec<u8>, BbsError>(e),
            ),
        },
        RequestKind::VerifyBlindCommitment => match verify_commitment_outcome(
            b.commitment->Some_0@,
            b.challenge_hash->Some_0@,
            b.proof_of_hidden_messages->Some_0@,
            pk,
            b.blinded@,
            b.nonce,
        ) {
            Ok(v) => r == Ok::<Finished, BbsError>(Finished::Verified(v)),
            Err(e) => r == Err::<Finished, BbsError>(e),
        },
    }
}

/// The open builders, by handle.
pub struct HandleRegistry {
    next: u64,
    builders: HashMap<u64, RequestBuilder>,
}

impl View for HandleRegistry {
    type V = Map<u64, RequestBuilder>;

    closed spec fn view(&self) -> Map<u64, RequestBuilder> {
        self.builders@
    }
}

impl HandleRegistry {
    /// The handle the next `init` hands out; every handle ever handed out is
    /// below it.
    pub closed spec fn next_handle(&self) -> u64 {
        self.next
    }

    /// Every open handle is below `next_handle`.
    pub closed spec fn wf(&self) -> bool {
        forall|h: u64| #[trigger] self.builders@.contains_key(h) ==> h < self.next
    }

    /// An empty registry.
    pub fn new() -> (r: Self)
        ensures
            r.wf(),
            r@ == Map::<u64, RequestBuilder>::empty(),
            r.next_handle() == 1,
    {
        HandleRegistry { next: 1, builders: HashMap::new() }
    }

    /// Opens an empty builder for `kind` under a handle never used before.
    /// Fails only once every handle has been handed out.
    pub fn init(&mut self, kind: RequestKind) -> (r: Option<u64>)
        requires
            old(self).wf(),
        ensures
            final(self).wf(),
            match r {
                Some(h) => {
                    &&& h == old(self).next_handle()
                    &&& final(self).next_handle() == h + 1
                    &&& !old(self)@.contains_key(h)
                    &&& final(self)@.contains_key(h)
                    &&& is_empty_builder(final(self)@[h], kind)
                    &&& final(self)@ == old(self)@.insert(h, final(self)@[h])
                },
                None => old(self).next_handle() == u64::MAX && final(self)@ == old(self)@
                    && final(self).next_handle() == old(self).next_handle(),
            },
    {
        if self.next == u64::MAX {
            return None;
        }
        let h = self.next;
        let b = RequestBuilder {
            kind,
            public_key: None,
            secret_key: None,
            signature: None,
            nonce: None,
            commitment: None,
            challenge_hash: None,
            proof_of_hidden_messages: None,
            slots: Vec::new(),
            revealed: Vec::new(),
            blinded: Vec::new(),
        };
        self.builders.insert(h, b);
        self.next = h + 1;
        Some(h)
    }

    /// Stores one field in the builder of `handle`, after checking it.
    pub fn set_field(&mut self, handle: u64, field: BuilderField) -> (r: Result<(), BbsError>)
        requires
            old(self).wf(),
        ensures
            final(self).wf(),
            final(self).next_handle() == old(self).next_handle(),
            !old(self)@.contains_key(handle) ==> r == Err::<(), BbsError>(BbsError::HandleNotFound)
                && final(self)@ == old(self)@,
            old(self)@.contains_key(handle) ==> match field_check(old(self)@[handle], field) {
                Some(e) => r == Err::<(), BbsError>(e) && final(self)@ == old(self)@,
                None => {
                    &&& r == Ok::<(), BbsError>(())
                    &&& final(self)@.contains_key(handle)
                    &&& final(self)@ == old(self)@.insert(handle, final(self)@[handle])
                    &&& field_applied(old(self)@[handle], final(self)@[handle], field)
                },
            },
    {
        let mut b = match self.builders.remove(&handle) {
            Some(b) => b,
            None => return Err(BbsError::HandleNotFound),
        };
        let ghost before = b;
        let ghost removed = self.builders@;
        assert(removed == old(self)@.remove(handle));
        let checked = apply_field(&mut b, field);
        self.builders.insert(handle, b);
        match checked {
            Ok(()) => {
                assert(self.builders@ == old(self)@.insert(handle, self.builders@[handle]));
            },
            Err(e) => {
                assert(self.builders@ =~= old(self)@);
            },
        }
        checked
    }

    /// Performs the request of `handle` and closes the handle, whether the
    /// request succeeds or not. The secret key it held is overwritten.
    pub fn finish(&mut self, handle: u64) -> (r: Result<Finished, BbsError>)
        requires
            old(self).wf(),
        ensures
            final(self).wf(),
            final(self).next_handle() == old(self).next_handle(),
            !old(self)@.contains_key(handle) ==> r == Err::<Finished, BbsError>(
                BbsError::HandleNotFound,
            ) && final(self)@ == old(self)@,
            old(self)@.contains_key(handle) ==> {
                &&& final(self)@ == old(self)@.remove(handle)
                &&& !complete(old(self)@[handle]) ==> r == Err::<Finished, BbsError>(
                    BbsError::MissingField,
                )
                &&& complete(old(self)@[handle]) ==> finish_matches(old(self)@[handle], r)
            },
    {
        let mut b = match self.builders.remove(&handle) {
            Some(b) => b,
            None => return Err(BbsError::HandleNotFound),
        };
        let r = run_request(&b);
        match &mut b.secret_key {
            Some(sk) => wipe(sk),
            None => {},
        }
        r
    }
}

/// Overwrites every byte with zero.
pub fn wipe(bytes: &mut Vec<u8>)
    ensures
        final(bytes)@.len() == old(bytes)@.len(),
        forall|i: int| 0 <= i < final(bytes)@.len() ==> final(bytes)@[i] == 0u8,
{
    let mut i: usize = 0;
    while i < bytes.len()
        invariant
            i <= bytes.len(),
            bytes@.len() == old(bytes)@.len(),
            forall|q: int| 0 <= q < i ==> bytes@[q] == 0u8,
        decreases bytes.len() - i,
    {
        bytes.set(i, 0u8);
        i = i + 1;
    }
}

/// Checks a field and stores it in the builder.
fn apply_field(b: &mut RequestBuilder, f: BuilderField) -> (r: Result<(), BbsError>)
    ensures
        match field_check(*old(b), f) {
            Some(e) => r == Err::<(), BbsError>(e) && *final(b) == *old(b),
            None => r == Ok::<(), BbsError>(()) && field_applied(*old(b), *final(b), f),
        },
{
    match f {
        BuilderField::PublicKey(pk) => {
            let count = match check_public_key(&pk) {
                Ok(c) => c,
                Err(e) => return Err(e),
            };
            let mut slots: Vec<Option<Vec<u8>>> = Vec::new();
            let mut i: usize = 0;
            while i < count
                invariant
                    i <= count,
                    slots@ == Seq::new(i as nat, |_i: int| None::<Vec<u8>>),
                decreases count - i,
            {
                slots.push(None);
                i = i + 1;
                assert(slots@ =~= Seq::new(i as nat, |_i: int| None::<Vec<u8>>));
            }
            b.public_key = Some(pk);
            b.slots = slots;
        },
        BuilderField::SecretKey(sk) => {
            if sk.len() != FR_SIZE {
                return Err(BbsError::InvalidArgumentEncoding);
            }
            match &mut b.secret_key {
                Some(previous) => wipe(previous),
                None => {},
            }
            b.secret_key = Some(sk);
        },
        BuilderField::Signature(s) => {
            if s.len() != SIGNATURE_SIZE {
                return Err(BbsError::InvalidArgumentEncoding);
            }
            b.signature = Some(s);
        },
        BuilderField::Nonce(n) => {
            b.nonce = Some(n);
        },
        BuilderField::Commitment(c) => {
            if c.len() != G1_SIZE {
                return Err(BbsError::InvalidArgumentEncoding);
            }
            b.commitment = Some(c);
        },
        BuilderField::ChallengeHash(c) => {
            if c.len() != FR_SIZE {
                return Err(BbsError::InvalidArgumentEncoding);
            }
            b.challenge_hash = Some(c);
        },
        BuilderField::ProofOfHiddenMessages(p) => {
            b.proof_of_hidden_messages = Some(p);
        },
        BuilderField::Message(i, m) => {
            if b.public_key.is_none() {
                return Err(BbsError::MissingField);
            }
            if i >= b.slots.len() as u64 {
                return Err(BbsError::IndexOutOfBounds);
            }
            b.slots.set(i as usize, Some(m));
        },
        BuilderField::Revealed(i) => {
            b.revealed.push(i);
        },
        BuilderField::Blinded(i) => {
            b.blinded.push(i);
        },
    }
    Ok(())
}

/// The messages of all slots, in index order, if every slot is filled.
pub fn filled_messages(slots: &Vec<Option<Vec<u8>>>) -> (r: Option<Vec<Vec<u8>>>)
    ensures
        slots_filled(slots@) ==> (r matches Some(m) && views(m@) == slot_messages(slots@)),
        !slots_filled(slots@) ==> r is None,
{
    let mut out: Vec<Vec<u8>> = Vec::new();
    let mut i: usize = 0;
    while i < slots.len()
        invariant
            i <= slots.len(),
            forall|q: int| 0 <= q < i ==> #[trigger] slots@[q] is Some,
            views(out@) == slot_messages(slots@.subrange(0, i as int)),
        decreases slots.len() - i,
    {
        let ghost before = out@;
        match &slots[i] {
            Some(m) => {
                let c = m.clone();
                assert(c@ =~= m@);
                out.push(c);
            },
            None => return None,
        }
        proof {
            let want = slot_messages(slots@.subrange(0, i + 1));
            assert(views(before).len() == i);
            assert forall|j: int| 0 <= j <= i implies #[trigger] views(out@)[j] == want[j] by {
                if j < i {
                    assert(out@[j] == before[j]);
                    assert(views(before)[j] == slot_messages(slots@.subrange(0, i as int))[j]);
                }
            }
            assert(views(out@) =~= want);
        }
        i = i + 1;
    }
    assert(slots@.subrange(0, slots.len() as int) =~= slots@);
    Some(out)
}

/// Performs the request a builder prepares.
fn run_request(b: &RequestBuilder) -> (r: Result<Finished, BbsError>)
    ensures
        !complete(*b) ==> r == Err::<Finished, BbsError>(BbsError::MissingField),
        complete(*b) ==> finish_matches(*b, r),
{
    let pk = match &b.public_key {
        Some(pk) => pk,
        None => return Err(BbsError::MissingField),
    };
    match b.kind {
        RequestKind::Sign => {
            let sk = match &b.secret_key {
                Some(sk) => sk,
                None => return Err(BbsError::MissingField),
            };
            let messages = match filled_messages(&b.slots) {
                Some(m) => m,
                None => return Err(BbsError::MissingField),
            };
            assert(views(messages@).len() == messages@.len());
            match rust_bbs_sign(sk, pk, &messages) {
                Ok(s) => Ok(Finished::Signature(s)),
                Err(e) => Err(e),
            }
        },
        RequestKind::Verify => {
            let sig = match &b.signature {
                Some(s) => s,
                None => return Err(BbsError::MissingField),
            };
            let messages = match filled_messages(&b.slots) {
                Some(m) => m,
                None => return Err(BbsError::MissingField),
            };
            match rust_bbs_verify(pk, sig, &messages) {
                Ok(v) => Ok(Finished::Verified(v)),
                Err(e) => Err(e),
            }
        },
        RequestKind::CreateProof => {
            let sig = match &b.signature {
                Some(s) => s,
                None => return Err(BbsError::MissingField),
            };
            let messages = match filled_messages(&b.slots) {
                Some(m) => m,
                None => return Err(BbsError::MissingField),
            };
            assert(views(messages@).len() == messages@.len());
            match rust_bbs_create_proof(sig, pk, &messages, &b.revealed, &b.nonce) {
                Ok(p) => Ok(Finished::Proof(p)),
                Err(e) => Err(e),
            }
        },
        RequestKind::VerifyBlindCommitment => {
            let (c, ch, p) = match (&b.commitment, &b.challenge_hash, &b.proof_of_hidden_messages) {
                (Some(c), Some(ch), Some(p)) => (c, ch, p),
                _ => return Err(BbsError::MissingField),
            };
            match rust_bbs_verify_blind_signature_proof(c, ch, p, pk, &b.blinded, &b.nonce) {
                Ok(v) => Ok(Finished::Verified(v)),
                Err(e) => Err(e),
            }
        },
    }
}

/// Once a handle is finished it is closed: every later `set_field` or
/// `finish` on it is refused with `HandleNotFound`.
pub proof fn lemma_finished_handle_closed(before: HandleRegistry, after: HandleRegistry, handle: u64)
    requires
        before@.contains_key(handle),
        after@ == before@.remove(handle),
    ensures
        !after@.contains_key(handle),
{
}

/// Two calls of `init` hand out different handles, whatever happened
/// between them: every operation keeps or raises `next_handle`.
pub proof fn lemma_init_handles_distinct(
    first_before: HandleRegistry,
    first_after: HandleRegistry,
    h1: u64,
    second_before: HandleRegistry,
    h2: u64,
)
    requires
        h1 == first_before.next_handle(),
        first_after.next_handle() == h1 + 1,
        first_after.next_handle() <= second_before.next_handle(),
        h2 == second_before.next_handle(),
    ensures
        h1 != h2,
        h1 < h2,
{
}

} // verus!
