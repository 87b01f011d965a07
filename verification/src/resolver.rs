//! Idempotent reconciliation of derived associated accounts: derive the
//! address deterministically, re-check existence on the ledger, and create
//! the account only when absence was positively confirmed.
use vstd::prelude::*;

use spl_associated_token_account::get_associated_token_address;
use spl_associated_token_account::instruction::create_associated_token_account;
use spl_associated_token_account::solana_program::pubkey::Pubkey;

use crate::errors::ReconciliationError;
use crate::errors::SubmitError;
use crate::errors::SubmitFailureKind;
use crate::ident::Identifier;
use crate::instruction::AccountReference;
use crate::instruction::Instruction;
use crate::ledger::QueryOutcome;
use crate::ledger::Signature;
use crate::programs::associated_program_id_bytes;
use crate::programs::system_program_id_bytes;
use crate::programs::token_program_id_bytes;

verus! {

/// The derived address of the associated account for an (owner,
/// resource-kind) pair. Named, not written out: the one-way derivation is
/// computed by an outside crate and never re-implemented here.
pub uninterp spec fn derived_address_of(owner: Seq<u8>, resource_kind: Seq<u8>) -> Seq<u8>;

/// Relies on spl_associated_token_account::get_associated_token_address:
/// the address depends on the wallet and mint identifiers alone, with no
/// randomness or local state, and is 32 bytes long.
#[allow(deprecated)]
#[verifier::external_body]
pub fn derive_associated_address(owner: &Identifier, resource_kind: &Identifier) -> (r: Identifier)
    requires
        owner.wf(),
        resource_kind.wf(),
    ensures
        r@ == derived_address_of(owner@, resource_kind@),
        r.wf(),
{
    let wallet = Pubkey::new_from_array(owner.bytes.as_slice().try_into().unwrap());
    let mint = Pubkey::new_from_array(resource_kind.bytes.as_slice().try_into().unwrap());
    let derived = get_associated_token_address(&wallet, &mint);
    Identifier { bytes: derived.to_bytes().to_vec() }
}

/// Address derivation is a pure function: identical inputs always yield
/// the identical identifier.
pub proof fn lemma_derivation_deterministic(
    owner_a: Seq<u8>,
    kind_a: Seq<u8>,
    owner_b: Seq<u8>,
    kind_b: Seq<u8>,
)
    requires
        owner_a == owner_b,
        kind_a == kind_b,
    ensures
        derived_address_of(owner_a, kind_a) == derived_address_of(owner_b, kind_b),
{
}

/// The exact shape of the instruction that creates the associated account
/// of an (owner, resource-kind) pair: the payer funds it and signs, the
/// derived account is written, and the remaining references are read-only.
pub open spec fn is_creation_instruction(
    ins: Instruction,
    payer: Seq<u8>,
    owner: Seq<u8>,
    resource_kind: Seq<u8>,
) -> bool {
    &&& ins.program@ == associated_program_id_bytes()
    &&& ins.payload@ == seq![0u8]
    &&& ins.accounts@.len() == 6
    &&& ins.accounts@[0].id@ == payer
    &&& ins.accounts@[0].writable
    &&& ins.accounts@[0].is_signer
    &&& ins.accounts@[1].id@ == derived_address_of(owner, resource_kind)
    &&& ins.accounts@[1].writable
    &&& !ins.accounts@[1].is_signer
    &&& ins.accounts@[2].id@ == owner
    &&& !ins.accounts@[2].writable
    &&& !ins.accounts@[2].is_signer
    &&& ins.accounts@[3].id@ == resource_kind
    &&& !ins.accounts@[3].writable
    &&& !ins.accounts@[3].is_signer
    &&& ins.accounts@[4].id@ == system_program_id_bytes()
    &&& !ins.accounts@[4].writable
    &&& !ins.accounts@[4].is_signer
    &&& ins.accounts@[5].id@ == token_program_id_bytes()
    &&& !ins.accounts@[5].writable
    &&& !ins.accounts@[5].is_signer
}

/// Relies on spl_associated_token_account::instruction::
/// create_associated_token_account: it builds the Create instruction of the
/// associated-account program, whose account order is funding account
/// (writable, signer), derived account (writable), wallet, mint, system
/// program and token program (read-only), with the single byte 0 as data.
#[verifier::external_body]
pub fn creation_instruction(
    payer: &Identifier,
    owner: &Identifier,
    resource_kind: &Identifier,
) -> (r: Instruction)
    requires
        payer.wf(),
        owner.wf(),
        resource_kind.wf(),
    ensures
        is_creation_instruction(r, payer@, owner@, resource_kind@),
        r.wf(),
{
    let pk = |v: &Identifier| Pubkey::new_from_array(v.bytes.as_slice().try_into().unwrap());
    let token_program = Pubkey::new_from_array(spl_token::id().to_bytes());
    let ins = create_associated_token_account(&pk(payer), &pk(owner), &pk(resource_kind), &token_program);
    let accounts = ins.accounts.iter().map(|m| AccountReference { id: Identifier { bytes: m.pubkey.to_bytes().to_vec() }, writable: m.is_writable, is_signer: m.is_signer }).collect();
    Instruction { program: Identifier { bytes: ins.program_id.to_bytes().to_vec() }, accounts, payload: ins.data }
}

/// Does this query answer resolve the account on the spot?
pub open spec fn resolves_immediately(outcome: QueryOutcome) -> bool {
    outcome is Found
}

/// Does this query answer call for a creation attempt? Only a positive
/// not-found does; a found account or an inconclusive failure never may.
pub open spec fn requires_creation(outcome: QueryOutcome) -> bool {
    outcome is NotFound
}

/// Creation is attempted exactly when the ledger positively confirmed
/// absence: a found account resolves on the spot, and every other failure
/// is propagated without a creation attempt.
pub proof fn lemma_creation_only_when_absent(outcome: QueryOutcome)
    ensures
        requires_creation(outcome) ==> !resolves_immediately(outcome) && !(outcome is Failed),
        resolves_immediately(outcome) ==> !requires_creation(outcome),
{
}

/// Reconciliation is idempotent: a second pass over the same (owner,
/// resource-kind) pair derives the identical target identifier, and when
/// the first pass left the account in place, the second pass's query finds
/// it and resolves immediately, with no creation submission.
pub proof fn lemma_resolve_idempotent(
    owner: Seq<u8>,
    resource_kind: Seq<u8>,
    second_query: QueryOutcome,
)
    requires
        second_query is Found,
    ensures
        derived_address_of(owner, resource_kind) == derived_address_of(owner, resource_kind),
        resolves_immediately(second_query),
        !requires_creation(second_query),
{
}

/// Where one reconciliation conversation stands.
#[derive(Debug, Clone, Copy, PartialEq, Eq, Structural)]
pub enum ResolveState {
    AwaitingQuery,
    AwaitingCreation,
    Finished,
}

/// What the resolver asks of its caller after a query answer.
#[derive(Debug)]
pub enum ResolveStep {
    /// The account exists; reconciliation is complete.
    Resolved(Identifier),
    /// Absence was positively confirmed: submit this creation instruction
    /// (payer funds it and signs) and hand the outcome back.
    CreationRequired(Instruction),
    /// The query was inconclusive; nothing was or may be created.
    Failed(ReconciliationError),
}

/// One get-or-create reconciliation of a derived associated account,
/// driven step by step: the caller performs the ledger round trips and
/// hands each answer back. The existence check is never cached: each
/// conversation re-derives and re-queries.
#[derive(Debug)]
pub struct AssociatedAccountResolver {
    pub owner: Identifier,
    pub resource_kind: Identifier,
    pub payer: Identifier,
    pub target: Identifier,
    pub state: ResolveState,
}

impl AssociatedAccountResolver {
    /// The target is always the deterministically derived address.
    pub open spec fn wf(&self) -> bool {
        &&& self.owner.wf()
        &&& self.resource_kind.wf()
        &&& self.payer.wf()
        &&& self.target.wf()
        &&& self.target@ == derived_address_of(self.owner@, self.resource_kind@)
    }

    /// Derives the target address — no network call — and waits for the
    /// caller to query the ledger for an account at that address.
    pub fn begin(owner: Identifier, resource_kind: Identifier, payer: Identifier) -> (r:
        AssociatedAccountResolver)
        requires
            owner.wf(),
            resource_kind.wf(),
            payer.wf(),
        ensures
            r.wf(),
            r.state == ResolveState::AwaitingQuery,
            r.owner@ == owner@,
            r.resource_kind@ == resource_kind@,
            r.payer@ == payer@,
            r.target@ == derived_address_of(owner@, resource_kind@),
    {
        let target = derive_associated_address(&owner, &resource_kind);
        AssociatedAccountResolver {
            owner,
            resource_kind,
            payer,
            target,
            state: ResolveState::AwaitingQuery,
        }
    }

    /// The derived address this conversation reconciles.
    pub fn target_address(&self) -> (r: &Identifier)
        ensures
            r@ == self.target@,
    {
        &self.target
    }

    /// Classifies the query answer. A found account resolves to the derived
    /// identifier with no mutation; a positive not-found yields the one
    /// creation instruction; any other failure is propagated as
    /// inconclusive, and creation is then never attempted, so a transient
    /// failure can never trigger a spurious creation.
    pub fn on_query(&mut self, outcome: &QueryOutcome) -> (r: ResolveStep)
        requires
            old(self).state == ResolveState::AwaitingQuery,
            old(self).wf(),
        ensures
            final(self).owner == old(self).owner,
            final(self).resource_kind == old(self).resource_kind,
            final(self).payer == old(self).payer,
            final(self).target == old(self).target,
            final(self).wf(),
            resolves_immediately(*outcome) ==> final(self).state == ResolveState::Finished
                && (r matches ResolveStep::Resolved(id) && id@ == derived_address_of(
                old(self).owner@,
                old(self).resource_kind@,
            )),
            requires_creation(*outcome) ==> final(self).state == ResolveState::AwaitingCreation
                && (r matches ResolveStep::CreationRequired(ins) && is_creation_instruction(
                ins,
                old(self).payer@,
                old(self).owner@,
                old(self).resource_kind@,
            ) && ins.wf()),
            outcome matches QueryOutcome::Failed(k) ==> final(self).state
                == ResolveState::Finished && (r matches ResolveStep::Failed(e) && e
                == ReconciliationError::Inconclusive(*k)),
    {
        match outcome {
            QueryOutcome::Found(_) => {
                self.state = ResolveState::Finished;
                ResolveStep::Resolved(self.target.clone())
            },
            QueryOutcome::NotFound => {
                self.state = ResolveState::AwaitingCreation;
                ResolveStep::CreationRequired(
                    creation_instruction(&self.payer, &self.owner, &self.resource_kind),
                )
            },
            QueryOutcome::Failed(k) => {
                self.state = ResolveState::Finished;
                ResolveStep::Failed(ReconciliationError::Inconclusive(*k))
            },
        }
    }

    /// Folds the creation submission's result back in. A confirmed
    /// creation resolves to the derived identifier; so does a rejection
    /// saying the account already exists, since the derivation is
    /// deterministic and a concurrent creator can only have produced the
    /// same address. Every other failure is a creation failure.
    pub fn on_creation_result(&mut self, result: Result<Signature, SubmitError>) -> (r: Result<
        Identifier,
        ReconciliationError,
    >)
        requires
            old(self).state == ResolveState::AwaitingCreation,
            old(self).wf(),
        ensures
            final(self).state == ResolveState::Finished,
            final(self).owner == old(self).owner,
            final(self).resource_kind == old(self).resource_kind,
            final(self).payer == old(self).payer,
            final(self).target == old(self).target,
            final(self).wf(),
            result is Ok ==> (r matches Ok(id) && id@ == derived_address_of(
                old(self).owner@,
                old(self).resource_kind@,
            )),
            result == Err::<Signature, SubmitError>(
                SubmitError::Submission(SubmitFailureKind::AlreadyInUse),
            ) ==> (r matches Ok(id) && id@ == derived_address_of(
                old(self).owner@,
                old(self).resource_kind@,
            )),
            (result matches Err(e) && e != SubmitError::Submission(
                SubmitFailureKind::AlreadyInUse,
            )) ==> (result matches Err(e) && r == Err::<Identifier, ReconciliationError>(
                ReconciliationError::CreationFailed(e),
            )),
    {
        self.state = ResolveState::Finished;
        match result {
            Ok(_) => Ok(self.target.clone()),
            Err(SubmitError::Submission(SubmitFailureKind::AlreadyInUse)) => Ok(
                self.target.clone(),
            ),
            Err(e) => Err(ReconciliationError::CreationFailed(e)),
        }
    }
}

} // verus!
