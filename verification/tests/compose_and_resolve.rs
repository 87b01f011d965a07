use std::collections::HashMap;

use solclient::compose::ComposerState;
use solclient::compose::TransactionComposer;
use solclient::errors::QueryFailureKind;
use solclient::errors::ReconciliationError;
use solclient::errors::SubmitError;
use solclient::errors::SubmitFailureKind;
use solclient::errors::ValidationError;
use solclient::ident::Identifier;
use solclient::keys::KeyMaterial;
use solclient::ledger::FreshnessToken;
use solclient::ledger::QueryOutcome;
use solclient::ledger::Signature;
use solclient::ledger::SubmissionOutcome;
use solclient::resolver::derive_associated_address;
use solclient::resolver::AssociatedAccountResolver;
use solclient::resolver::ResolveState;
use solclient::resolver::ResolveStep;
use spl_associated_token_account::solana_program::pubkey::Pubkey;

fn ident(byte: u8) -> Identifier {
    Identifier::from_bytes(vec![byte; 32]).unwrap()
}

fn key(byte: u8) -> KeyMaterial {
    let mut secret = vec![0u8; 64];
    for i in 32..64 {
        secret[i] = byte;
    }
    KeyMaterial::from_secret_bytes(secret).unwrap()
}

#[test]
fn submit_deduplicates_fee_payer_listed_twice() {
    let fee_payer = ident(1);
    let signers = vec![key(1), key(2), key(1)];
    let composer = TransactionComposer::submit(Vec::new(), fee_payer, &signers).unwrap();
    assert_eq!(composer.signers.len(), 2);
    assert_eq!(composer.signers[0].id.bytes, vec![1u8; 32]);
    assert_eq!(composer.signers[1].id.bytes, vec![2u8; 32]);
}

#[test]
fn submit_keeps_call_order_after_fee_payer() {
    let fee_payer = ident(3);
    let signers = vec![key(5), key(3), key(4), key(5)];
    let composer = TransactionComposer::submit(Vec::new(), fee_payer, &signers).unwrap();
    let ids: Vec<Vec<u8>> = composer.signers.iter().map(|k| k.id.bytes.clone()).collect();
    assert_eq!(ids, vec![vec![3u8; 32], vec![5u8; 32], vec![4u8; 32]]);
}

#[test]
fn submit_requires_fee_payer_among_signers() {
    let fee_payer = ident(9);
    let signers = vec![key(1), key(2)];
    let err = TransactionComposer::submit(Vec::new(), fee_payer, &signers).unwrap_err();
    assert_eq!(err, ValidationError::FeePayerNotASigner);
}

#[test]
fn composer_walks_freshness_then_single_submission() {
    let fee_payer = ident(1);
    let signers = vec![key(1), key(2)];
    let mut composer = TransactionComposer::submit(Vec::new(), fee_payer, &signers).unwrap();
    assert_eq!(composer.state, ComposerState::AwaitingFreshness);
    let tx = composer.attach_freshness(FreshnessToken { bytes: vec![7; 32] });
    assert_eq!(composer.state, ComposerState::AwaitingSubmission);
    assert_eq!(tx.fee_payer.bytes, vec![1u8; 32]);
    assert_eq!(tx.signer_order.len(), 2);
    assert_eq!(tx.signer_order[0].bytes, vec![1u8; 32]);
    assert_eq!(tx.freshness.bytes, vec![7; 32]);
    let got = composer
        .complete(SubmissionOutcome::Confirmed(Signature { bytes: vec![9; 64] }))
        .unwrap();
    assert_eq!(got.bytes, vec![9; 64]);
    assert_eq!(composer.state, ComposerState::Finished);
}

#[test]
fn composer_aborts_without_freshness() {
    let fee_payer = ident(1);
    let signers = vec![key(1)];
    let mut composer = TransactionComposer::submit(Vec::new(), fee_payer, &signers).unwrap();
    let err = composer.freshness_unavailable();
    assert_eq!(err, SubmitError::FreshnessUnavailable);
    assert_eq!(composer.state, ComposerState::Finished);
}

#[test]
fn composer_classifies_submission_failure() {
    let fee_payer = ident(1);
    let signers = vec![key(1)];
    let mut composer = TransactionComposer::submit(Vec::new(), fee_payer, &signers).unwrap();
    let _ = composer.attach_freshness(FreshnessToken { bytes: vec![0; 32] });
    let err = composer
        .complete(SubmissionOutcome::Failed(SubmitFailureKind::Rejected))
        .unwrap_err();
    assert_eq!(err, SubmitError::Submission(SubmitFailureKind::Rejected));
}

#[test]
fn composer_classifies_network_failure() {
    let fee_payer = ident(1);
    let signers = vec![key(1)];
    let mut composer = TransactionComposer::submit(Vec::new(), fee_payer, &signers).unwrap();
    let _ = composer.attach_freshness(FreshnessToken { bytes: vec![0; 32] });
    let err = composer
        .complete(SubmissionOutcome::Failed(SubmitFailureKind::Network))
        .unwrap_err();
    assert_eq!(err, SubmitError::Submission(SubmitFailureKind::Network));
}

#[test]
fn derivation_is_pure_and_owner_sensitive() {
    let owner = ident(10);
    let kind = ident(20);
    let a = derive_associated_address(&owner, &kind);
    let b = derive_associated_address(&owner, &kind);
    assert_eq!(a.bytes, b.bytes);
    let other = derive_associated_address(&ident(11), &kind);
    assert_ne!(a.bytes, other.bytes);
}

/// A mock ledger: a map from addresses to account bytes, counting every
/// creation submission it receives.
struct MockLedger {
    accounts: HashMap<Vec<u8>, Vec<u8>>,
    submissions: usize,
}

impl MockLedger {
    fn get_account(&self, address: &Identifier) -> QueryOutcome {
        match self.accounts.get(&address.bytes) {
            Some(bytes) => QueryOutcome::Found(bytes.clone()),
            None => QueryOutcome::NotFound,
        }
    }

    fn submit_creation(&mut self, address: &Identifier) -> SubmissionOutcome {
        self.submissions += 1;
        if self.accounts.contains_key(&address.bytes) {
            return SubmissionOutcome::Failed(SubmitFailureKind::AlreadyInUse);
        }
        self.accounts.insert(address.bytes.clone(), vec![0u8; 16]);
        SubmissionOutcome::Confirmed(Signature { bytes: vec![1; 64] })
    }
}

/// Runs one full reconciliation against the mock ledger, the way a driver
/// would: query, then create only when asked to.
fn resolve_once(
    ledger: &mut MockLedger,
    owner: &Identifier,
    kind: &Identifier,
    payer: &Identifier,
    payer_key: &KeyMaterial,
) -> Result<Identifier, ReconciliationError> {
    let mut resolver =
        AssociatedAccountResolver::begin(owner.clone(), kind.clone(), payer.clone());
    let outcome = ledger.get_account(resolver.target_address());
    match resolver.on_query(&outcome) {
        ResolveStep::Resolved(id) => Ok(id),
        ResolveStep::Failed(e) => Err(e),
        ResolveStep::CreationRequired(instruction) => {
            let signers = vec![payer_key.clone()];
            let mut composer =
                TransactionComposer::submit(vec![instruction], payer.clone(), &signers).unwrap();
            let _tx = composer.attach_freshness(FreshnessToken { bytes: vec![3; 32] });
            let target = resolver.target_address().clone();
            let submitted = ledger.submit_creation(&target);
            let result = composer.complete(submitted);
            resolver.on_creation_result(result)
        }
    }
}

#[test]
fn resolve_creates_once_then_is_idempotent() {
    let owner = ident(40);
    let kind = ident(41);
    let payer = ident(1);
    let payer_key = key(1);
    let mut ledger = MockLedger { accounts: HashMap::new(), submissions: 0 };

    let first = resolve_once(&mut ledger, &owner, &kind, &payer, &payer_key).unwrap();
    assert_eq!(ledger.submissions, 1);
    assert_eq!(first.bytes, derive_associated_address(&owner, &kind).bytes);

    let second = resolve_once(&mut ledger, &owner, &kind, &payer, &payer_key).unwrap();
    assert_eq!(ledger.submissions, 1, "the second pass must submit nothing");
    assert_eq!(first.bytes, second.bytes);
}

#[test]
fn resolve_existing_account_submits_nothing() {
    let owner = ident(50);
    let kind = ident(51);
    let payer = ident(1);
    let payer_key = key(1);
    let target = derive_associated_address(&owner, &kind);
    let mut ledger = MockLedger { accounts: HashMap::new(), submissions: 0 };
    ledger.accounts.insert(target.bytes.clone(), vec![5u8; 16]);

    let got = resolve_once(&mut ledger, &owner, &kind, &payer, &payer_key).unwrap();
    assert_eq!(ledger.submissions, 0);
    assert_eq!(got.bytes, target.bytes);
}

#[test]
fn inconclusive_query_never_creates() {
    let kinds = [
        QueryFailureKind::Network,
        QueryFailureKind::RateLimited,
        QueryFailureKind::Malformed,
    ];
    for kind in kinds {
        let mut resolver = AssociatedAccountResolver::begin(ident(60), ident(61), ident(1));
        let step = resolver.on_query(&QueryOutcome::Failed(kind));
        match step {
            ResolveStep::Failed(e) => {
                assert_eq!(e, ReconciliationError::Inconclusive(kind));
            }
            _ => panic!("an inconclusive query must fail the reconciliation"),
        }
        assert_eq!(resolver.state, ResolveState::Finished);
    }
}

#[test]
fn creation_instruction_targets_the_derived_account() {
    let owner = ident(70);
    let kind = ident(71);
    let payer = ident(1);
    let mut resolver = AssociatedAccountResolver::begin(owner.clone(), kind.clone(), payer.clone());
    let step = resolver.on_query(&QueryOutcome::NotFound);
    let instruction = match step {
        ResolveStep::CreationRequired(ins) => ins,
        _ => panic!("a positive not-found must require creation"),
    };
    let derived = derive_associated_address(&owner, &kind);
    assert_eq!(instruction.payload, vec![0u8]);
    assert_eq!(instruction.accounts.len(), 6);
    assert_eq!(instruction.accounts[0].id.bytes, payer.bytes);
    assert!(instruction.accounts[0].writable && instruction.accounts[0].is_signer);
    assert_eq!(instruction.accounts[1].id.bytes, derived.bytes);
    assert!(instruction.accounts[1].writable && !instruction.accounts[1].is_signer);
    assert_eq!(instruction.accounts[2].id.bytes, owner.bytes);
    assert_eq!(instruction.accounts[3].id.bytes, kind.bytes);
    assert_eq!(instruction.accounts[4].id.bytes, vec![0u8; 32]);
    assert_eq!(instruction.accounts[5].id.bytes, spl_token::id().to_bytes().to_vec());
    assert_eq!(
        instruction.program.bytes,
        spl_associated_token_account::id().to_bytes().to_vec()
    );
}

#[test]
fn already_in_use_rejection_resolves_to_the_same_address() {
    let owner = ident(80);
    let kind = ident(81);
    let mut resolver = AssociatedAccountResolver::begin(owner.clone(), kind.clone(), ident(1));
    let _ = resolver.on_query(&QueryOutcome::NotFound);
    let got = resolver
        .on_creation_result(Err(SubmitError::Submission(SubmitFailureKind::AlreadyInUse)))
        .unwrap();
    assert_eq!(got.bytes, derive_associated_address(&owner, &kind).bytes);
}

#[test]
fn other_creation_failures_propagate() {
    let mut resolver = AssociatedAccountResolver::begin(ident(90), ident(91), ident(1));
    let _ = resolver.on_query(&QueryOutcome::NotFound);
    let err = resolver
        .on_creation_result(Err(SubmitError::FreshnessUnavailable))
        .unwrap_err();
    assert_eq!(err, ReconciliationError::CreationFailed(SubmitError::FreshnessUnavailable));
}

#[test]
fn derivation_matches_the_outside_convention() {
    let owner = ident(100);
    let kind = ident(101);
    let ours = derive_associated_address(&owner, &kind);
    let theirs = spl_associated_token_account::get_associated_token_address(
        &Pubkey::new_from_array([100u8; 32]),
        &Pubkey::new_from_array([101u8; 32]),
    );
    assert_eq!(ours.bytes, theirs.to_bytes().to_vec());
}
