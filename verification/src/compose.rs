//! Multi-signer transaction composition: deduplicate the signer set with
//! the fee payer first, obtain a freshness token, and make exactly one
//! submission attempt, every failure classified.
use vstd::prelude::*;

use crate::errors::SubmitError;
use crate::errors::ValidationError;
use crate::ident::Identifier;
use crate::instruction::same_instruction;
use crate::instruction::Instruction;
use crate::keys::KeyMaterial;
use crate::ledger::FreshnessToken;
use crate::ledger::Signature;
use crate::ledger::SubmissionOutcome;

verus! {

/// The identifiers of a sequence of key materials, in order.
pub open spec fn ids_of(signers: Seq<KeyMaterial>) -> Seq<Seq<u8>> {
    signers.map_values(|k: KeyMaterial| k.id@)
}

/// The byte views of a sequence of identifiers, in order.
pub open spec fn id_views(ids: Seq<Identifier>) -> Seq<Seq<u8>> {
    ids.map_values(|id: Identifier| id@)
}

/// First-occurrence deduplication: each value keeps its earliest position
/// and later repetitions are dropped.
pub open spec fn dedup_first(s: Seq<Seq<u8>>) -> Seq<Seq<u8>>
    decreases s.len(),
{
    if s.len() == 0 {
        Seq::empty()
    } else {
        let prefix = dedup_first(s.drop_last());
        if prefix.contains(s.last()) {
            prefix
        } else {
            prefix.push(s.last())
        }
    }
}

/// The signing order of a submission: the fee payer first, then the
/// remaining distinct signer identifiers in call order.
pub open spec fn signing_order(fee_payer: Seq<u8>, ids: Seq<Seq<u8>>) -> Seq<Seq<u8>> {
    dedup_first(seq![fee_payer] + ids)
}

/// Deduplication keeps exactly the values of its input.
pub proof fn lemma_dedup_first_same_values(s: Seq<Seq<u8>>, x: Seq<u8>)
    ensures
        dedup_first(s).contains(x) <==> s.contains(x),
    decreases s.len(),
{
    if s.len() == 0 {
    } else {
        lemma_dedup_first_same_values(s.drop_last(), x);
        assert(s.contains(x) <==> (s.drop_last().contains(x) || s.last() == x)) by {
            if s.contains(x) {
                let i = choose|i: int| 0 <= i < s.len() && s[i] == x;
                if i < s.len() - 1 {
                    assert(s.drop_last()[i] == x);
                }
            }
            if s.drop_last().contains(x) {
                let i = choose|i: int| 0 <= i < s.drop_last().len() && s.drop_last()[i] == x;
                assert(s[i] == x);
            }
            if s.last() == x {
                assert(s[s.len() - 1] == x);
            }
        }
        let prefix = dedup_first(s.drop_last());
        if !prefix.contains(s.last()) {
            assert(dedup_first(s) == prefix.push(s.last()));
            assert(dedup_first(s).contains(x) <==> (prefix.contains(x) || s.last() == x)) by {
                if prefix.contains(x) {
                    let i = choose|i: int| 0 <= i < prefix.len() && prefix[i] == x;
                    assert(prefix.push(s.last())[i] == x);
                }
                if s.last() == x {
                    assert(prefix.push(s.last())[prefix.len() as int] == x);
                }
                if prefix.push(s.last()).contains(x) {
                    let i = choose|i: int|
                        0 <= i < prefix.push(s.last()).len() && prefix.push(s.last())[i] == x;
                    if i < prefix.len() {
                        assert(prefix[i] == x);
                    }
                }
            }
        }
    }
}

/// No value appears twice after deduplication.
pub proof fn lemma_dedup_first_distinct(s: Seq<Seq<u8>>)
    ensures
        forall|i: int, j: int|
            0 <= i < j < dedup_first(s).len() ==> dedup_first(s)[i] != dedup_first(s)[j],
    decreases s.len(),
{
    if s.len() == 0 {
    } else {
        lemma_dedup_first_distinct(s.drop_last());
        let prefix = dedup_first(s.drop_last());
        let whole = dedup_first(s);
        if !prefix.contains(s.last()) {
            assert forall|i: int, j: int| 0 <= i < j < whole.len() implies whole[i] != whole[j] by {
                if j == whole.len() - 1 {
                    assert(whole[j] == s.last());
                    assert(whole[i] == prefix[i]);
                    if prefix[i] == s.last() {
                        assert(prefix.contains(s.last()));
                    }
                } else {
                    assert(whole[i] == prefix[i] && whole[j] == prefix[j]);
                }
            }
        }
    }
}

/// The first value of a non-empty input survives deduplication in first
/// place.
pub proof fn lemma_dedup_first_head(s: Seq<Seq<u8>>)
    requires
        s.len() > 0,
    ensures
        dedup_first(s).len() > 0,
        dedup_first(s)[0] == s[0],
    decreases s.len(),
{
    if s.len() == 1 {
        assert(s.drop_last().len() == 0);
        assert(dedup_first(s.drop_last()) == Seq::<Seq<u8>>::empty());
        assert(dedup_first(s) == Seq::<Seq<u8>>::empty().push(s.last()));
        assert(s.last() == s[0]);
    } else {
        lemma_dedup_first_head(s.drop_last());
        assert(s.drop_last()[0] == s[0]);
    }
}

/// The dedicated statement of signer deduplication: the signing order
/// derived from a fee payer and a signer list holds each identifier exactly
/// once, holds the fee payer in first position, and holds precisely the
/// fee payer together with the identifiers of the list. In particular a
/// list naming the fee payer twice still signs for it once.
pub proof fn lemma_signing_order_deduplicates(fee_payer: Seq<u8>, ids: Seq<Seq<u8>>)
    ensures
        forall|i: int, j: int|
            0 <= i < j < signing_order(fee_payer, ids).len() ==> signing_order(fee_payer, ids)[i]
                != signing_order(fee_payer, ids)[j],
        signing_order(fee_payer, ids).len() > 0,
        signing_order(fee_payer, ids)[0] == fee_payer,
        forall|x: Seq<u8>|
            #[trigger] signing_order(fee_payer, ids).contains(x) <==> (x == fee_payer
                || ids.contains(x)),
{
    let s = seq![fee_payer] + ids;
    lemma_dedup_first_distinct(s);
    lemma_dedup_first_head(s);
    assert(s[0] == fee_payer);
    assert forall|x: Seq<u8>|
        #[trigger] signing_order(fee_payer, ids).contains(x) <==> (x == fee_payer || ids.contains(
            x,
        )) by {
        lemma_dedup_first_same_values(s, x);
        assert(s.contains(x) <==> (x == fee_payer || ids.contains(x))) by {
            if s.contains(x) {
                let i = choose|i: int| 0 <= i < s.len() && s[i] == x;
                if i > 0 {
                    assert(ids[i - 1] == x);
                }
            }
            if ids.contains(x) {
                let i = choose|i: int| 0 <= i < ids.len() && ids[i] == x;
                assert(s[i + 1] == x);
            }
            if x == fee_payer {
                assert(s[0] == x);
            }
        }
    }
}

/// Does the list hold a key material with this identifier?
fn holds_id(list: &Vec<KeyMaterial>, id: &Identifier) -> (r: bool)
    ensures
        r == ids_of(list@).contains(id@),
{
    let mut i: usize = 0;
    while i < list.len()
        invariant
            i <= list@.len(),
            forall|j: int| 0 <= j < i ==> ids_of(list@)[j] != id@,
        decreases list@.len() - i,
    {
        if list[i].id.same_id(id) {
            proof {
                assert(ids_of(list@)[i as int] == id@);
            }
            return true;
        }
        i = i + 1;
    }
    proof {
        if ids_of(list@).contains(id@) {
            let j = choose|j: int| 0 <= j < ids_of(list@).len() && ids_of(list@)[j] == id@;
            assert(ids_of(list@)[j] != id@);
        }
    }
    false
}

/// Each output key is one of the input keys (same secret, same identifier).
pub open spec fn keys_drawn_from(out: Seq<KeyMaterial>, source: Seq<KeyMaterial>) -> bool {
    forall|j: int|
        0 <= j < out.len() ==> exists|i: int|
            0 <= i < source.len() && (#[trigger] out[j]).secret@ == source[i].secret@ && out[j].id@
                == source[i].id@
}

/// Deduplicates a signer list by identifier, fee payer first, remaining
/// signers in call order. Fails precisely when no signer carries the fee
/// payer's identifier, since its signature could then never be produced.
pub fn dedup_signers(fee_payer: &Identifier, signers: &Vec<KeyMaterial>) -> (r: Result<
    Vec<KeyMaterial>,
    ValidationError,
>)
    requires
        fee_payer.wf(),
        forall|i: int| 0 <= i < signers@.len() ==> (#[trigger] signers@[i]).wf(),
    ensures
        r is Ok <==> ids_of(signers@).contains(fee_payer@),
        r is Err ==> r == Err::<Vec<KeyMaterial>, ValidationError>(
            ValidationError::FeePayerNotASigner,
        ),
        r matches Ok(out) ==> ids_of(out@) == signing_order(fee_payer@, ids_of(signers@)),
        r matches Ok(out) ==> keys_drawn_from(out@, signers@),
        r matches Ok(out) ==> forall|j: int| 0 <= j < out@.len() ==> (#[trigger] out@[j]).wf(),
{
    let mut out: Vec<KeyMaterial> = Vec::new();
    let mut payer_at: usize = 0;
    let mut payer_found = false;
    let mut i: usize = 0;
    while i < signers.len()
        invariant
            i <= signers@.len(),
            !payer_found ==> forall|j: int| 0 <= j < i ==> ids_of(signers@)[j] != fee_payer@,
            payer_found ==> payer_at < i && signers@[payer_at as int].id@ == fee_payer@,
        decreases signers@.len() - i,
    {
        if !payer_found && signers[i].id.same_id(fee_payer) {
            payer_found = true;
            payer_at = i;
        }
        i = i + 1;
    }
    if !payer_found {
        proof {
            if ids_of(signers@).contains(fee_payer@) {
                let j = choose|j: int|
                    0 <= j < ids_of(signers@).len() && ids_of(signers@)[j] == fee_payer@;
                assert(ids_of(signers@)[j] != fee_payer@);
            }
        }
        return Err(ValidationError::FeePayerNotASigner);
    }
    proof {
        assert(ids_of(signers@)[payer_at as int] == fee_payer@);
    }
    out.push(signers[payer_at].clone());
    proof {
        let s0 = seq![fee_payer@] + ids_of(signers@).take(0);
        assert(s0 =~= seq![fee_payer@]);
        assert(s0.drop_last() =~= Seq::<Seq<u8>>::empty());
        assert(dedup_first(s0.drop_last()) == Seq::<Seq<u8>>::empty());
        assert(ids_of(out@) =~= dedup_first(s0));
    }
    let mut k: usize = 0;
    while k < signers.len()
        invariant
            k <= signers@.len(),
            fee_payer.wf(),
            forall|i2: int| 0 <= i2 < signers@.len() ==> (#[trigger] signers@[i2]).wf(),
            ids_of(out@) == dedup_first(seq![fee_payer@] + ids_of(signers@).take(k as int)),
            keys_drawn_from(out@, signers@),
            forall|j: int| 0 <= j < out@.len() ==> (#[trigger] out@[j]).wf(),
        decreases signers@.len() - k,
    {
        let ghost prev = seq![fee_payer@] + ids_of(signers@).take(k as int);
        let dup = holds_id(&out, &signers[k].id);
        if !dup {
            out.push(signers[k].clone());
        }
        proof {
            let cur = seq![fee_payer@] + ids_of(signers@).take(k + 1 as int);
            assert(cur.drop_last() =~= prev);
            assert(cur.last() == ids_of(signers@)[k as int]);
            if dup {
                assert(ids_of(out@) =~= dedup_first(cur));
            } else {
                assert(ids_of(out@) =~= dedup_first(cur));
            }
        }
        k = k + 1;
    }
    proof {
        assert(ids_of(signers@).take(signers@.len() as int) =~= ids_of(signers@));
    }
    Ok(out)
}

/// Where one submission conversation stands. The order is strict: a
/// freshness token is obtained (or refused) before anything is signed, and
/// at most one submission outcome is ever accepted.
#[derive(Debug, Clone, Copy, PartialEq, Eq, Structural)]
pub enum ComposerState {
    AwaitingFreshness,
    AwaitingSubmission,
    Finished,
}

/// The unsigned transaction body: instructions, fee payer, the signing
/// order, and the freshness token that makes it valid for one submission.
#[derive(Debug)]
pub struct UnsignedTransaction {
    pub instructions: Vec<Instruction>,
    pub fee_payer: Identifier,
    pub signer_order: Vec<Identifier>,
    pub freshness: FreshnessToken,
}

/// One transaction submission, driven step by step: the caller performs
/// the ledger round trips and hands each answer back. Built once, signed
/// once, submitted once; a finished composer accepts nothing further.
#[derive(Debug)]
pub struct TransactionComposer {
    pub instructions: Vec<Instruction>,
    pub fee_payer: Identifier,
    pub signers: Vec<KeyMaterial>,
    pub state: ComposerState,
}

impl TransactionComposer {
    /// The signer set is deduplicated, the fee payer signs first, and every
    /// held identifier is well-formed.
    pub open spec fn wf(&self) -> bool {
        &&& self.fee_payer.wf()
        &&& forall|i: int| 0 <= i < self.signers@.len() ==> (#[trigger] self.signers@[i]).wf()
        &&& forall|i: int| 0 <= i < self.instructions@.len() ==> (#[trigger] self.instructions@[i]).wf()
        &&& self.signers@.len() > 0
        &&& self.signers@[0].id@ == self.fee_payer@
        &&& forall|i: int, j: int|
            0 <= i < j < self.signers@.len() ==> ids_of(self.signers@)[i] != ids_of(self.signers@)[j]
    }

    /// Starts a submission: deduplicates the signers by identifier with the
    /// fee payer first, and waits for a freshness token. Fails precisely
    /// when the fee payer is not among the signers; nothing is signed or
    /// sent before a freshness token arrives.
    pub fn submit(
        instructions: Vec<Instruction>,
        fee_payer: Identifier,
        signers: &Vec<KeyMaterial>,
    ) -> (r: Result<TransactionComposer, ValidationError>)
        requires
            fee_payer.wf(),
            forall|i: int| 0 <= i < signers@.len() ==> (#[trigger] signers@[i]).wf(),
            forall|i: int| 0 <= i < instructions@.len() ==> (#[trigger] instructions@[i]).wf(),
        ensures
            r is Ok <==> ids_of(signers@).contains(fee_payer@),
            r is Err ==> r == Err::<TransactionComposer, ValidationError>(
                ValidationError::FeePayerNotASigner,
            ),
            r matches Ok(c) ==> {
                &&& c.wf()
                &&& c.state == ComposerState::AwaitingFreshness
                &&& c.instructions == instructions
                &&& c.fee_payer@ == fee_payer@
                &&& ids_of(c.signers@) == signing_order(fee_payer@, ids_of(signers@))
                &&& keys_drawn_from(c.signers@, signers@)
            },
    {
        let deduped = match dedup_signers(&fee_payer, signers) {
            Ok(d) => d,
            Err(e) => {
                return Err(e);
            },
        };
        proof {
            lemma_signing_order_deduplicates(fee_payer@, ids_of(signers@));
        }
        Ok(
            TransactionComposer {
                instructions,
                fee_payer,
                signers: deduped,
                state: ComposerState::AwaitingFreshness,
            },
        )
    }

    /// No freshness token could be obtained: the submission is abandoned
    /// before any signing, and the classified error says a wholesale retry
    /// is safe.
    pub fn freshness_unavailable(&mut self) -> (r: SubmitError)
        requires
            old(self).state == ComposerState::AwaitingFreshness,
        ensures
            final(self).state == ComposerState::Finished,
            r == SubmitError::FreshnessUnavailable,
            final(self).instructions == old(self).instructions,
            final(self).fee_payer == old(self).fee_payer,
            final(self).signers == old(self).signers,
    {
        self.state = ComposerState::Finished;
        SubmitError::FreshnessUnavailable
    }

    /// Binds the freshness token and produces the unsigned transaction
    /// body; the composer then accepts exactly one submission outcome. The
    /// body carries the signing order: the fee payer first, then the other
    /// distinct signers in call order.
    pub fn attach_freshness(&mut self, freshness: FreshnessToken) -> (r: UnsignedTransaction)
        requires
            old(self).state == ComposerState::AwaitingFreshness,
            old(self).wf(),
        ensures
            final(self).state == ComposerState::AwaitingSubmission,
            final(self).instructions == old(self).instructions,
            final(self).fee_payer == old(self).fee_payer,
            final(self).signers == old(self).signers,
            final(self).wf(),
            r.fee_payer@ == old(self).fee_payer@,
            r.freshness == freshness,
            r.signer_order@.len() == old(self).signers@.len(),
            id_views(r.signer_order@) == ids_of(old(self).signers@),
            r.instructions@.len() == old(self).instructions@.len(),
            forall|i: int|
                0 <= i < r.instructions@.len() ==> same_instruction(
                    #[trigger] r.instructions@[i],
                    old(self).instructions@[i],
                ),
    {
        let mut order: Vec<Identifier> = Vec::new();
        let mut i: usize = 0;
        while i < self.signers.len()
            invariant
                i <= self.signers@.len(),
                order@.len() == i,
                forall|j: int| 0 <= j < i ==> (#[trigger] order@[j])@ == self.signers@[j].id@,
            decreases self.signers@.len() - i,
        {
            order.push(self.signers[i].id.clone());
            i = i + 1;
        }
        proof {
            assert(id_views(order@) =~= ids_of(self.signers@));
        }
        let mut instructions: Vec<Instruction> = Vec::new();
        let mut j: usize = 0;
        while j < self.instructions.len()
            invariant
                j <= self.instructions@.len(),
                instructions@.len() == j,
                forall|k2: int|
                    0 <= k2 < j ==> same_instruction(
                        #[trigger] instructions@[k2],
                        self.instructions@[k2],
                    ),
            decreases self.instructions@.len() - j,
        {
            instructions.push(self.instructions[j].clone());
            j = j + 1;
        }
        let fee_payer = self.fee_payer.clone();
        self.state = ComposerState::AwaitingSubmission;
        UnsignedTransaction { instructions, fee_payer, signer_order: order, freshness }
    }

    /// Accepts the one submission outcome: a confirmed signature is handed
    /// through, every failure is returned classified. The composer is
    /// finished either way; no retry happens here.
    pub fn complete(&mut self, outcome: SubmissionOutcome) -> (r: Result<Signature, SubmitError>)
        requires
            old(self).state == ComposerState::AwaitingSubmission,
        ensures
            final(self).state == ComposerState::Finished,
            final(self).instructions == old(self).instructions,
            final(self).fee_payer == old(self).fee_payer,
            final(self).signers == old(self).signers,
            outcome matches SubmissionOutcome::Confirmed(s) ==> r == Ok::<Signature, SubmitError>(
                s,
            ),
            outcome matches SubmissionOutcome::Failed(k) ==> r == Err::<Signature, SubmitError>(
                SubmitError::Submission(k),
            ),
    {
        self.state = ComposerState::Finished;
        match outcome {
            SubmissionOutcome::Confirmed(s) => Ok(s),
            SubmissionOutcome::Failed(k) => Err(SubmitError::Submission(k)),
        }
    }
}

} // verus!
