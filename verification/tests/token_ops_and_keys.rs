use solclient::contract::plan_account_initialization;
use solclient::contract::plan_generic_method_call;
use solclient::dispatch::discriminator;
use solclient::errors::ValidationError;
use solclient::holdings::collect_token_entries;
use solclient::holdings::parse_u64_decimal;
use solclient::holdings::TokenInfo;
use solclient::ident::Identifier;
use solclient::instruction::build;
use solclient::instruction::method_instruction;
use solclient::instruction::AccountReference;
use solclient::keys::KeyMaterial;
use solclient::programs;
use solclient::resolver::derive_associated_address;
use solclient::token_ops::plan_mint_creation;
use solclient::token_ops::plan_mint_to;
use solclient::token_ops::plan_native_transfer;
use solclient::token_ops::plan_token_transfer;
use solana_sdk::signature::Signer;

fn ident(byte: u8) -> Identifier {
    Identifier::from_bytes(vec![byte; 32]).unwrap()
}

fn le(x: u64) -> Vec<u8> {
    x.to_le_bytes().to_vec()
}

#[test]
fn program_identifiers_match_the_outside_crates() {
    assert_eq!(
        programs::token_program_id().bytes,
        spl_token::id().to_bytes().to_vec()
    );
    assert_eq!(
        programs::associated_program_id().bytes,
        spl_associated_token_account::id().to_bytes().to_vec()
    );
    assert_eq!(
        programs::system_program_id().bytes,
        solana_program::system_program::id().to_bytes().to_vec()
    );
    assert_eq!(
        programs::rent_sysvar_id().bytes,
        solana_program::sysvar::rent::id().to_bytes().to_vec()
    );
}

#[test]
fn native_transfer_is_planned_only_when_funded() {
    let sender = ident(1);
    let recipient = ident(2);
    assert!(plan_native_transfer(&sender, &recipient, 100, 99).is_none());
    let ins = plan_native_transfer(&sender, &recipient, 100, 100).unwrap();
    let mut expected = vec![2u8, 0, 0, 0];
    expected.extend_from_slice(&le(100));
    assert_eq!(ins.payload, expected);
    assert_eq!(ins.program.bytes, vec![0u8; 32]);
    assert_eq!(ins.accounts.len(), 2);
    assert_eq!(ins.accounts[0].id.bytes, sender.bytes);
    assert!(ins.accounts[0].writable && ins.accounts[0].is_signer);
    assert_eq!(ins.accounts[1].id.bytes, recipient.bytes);
    assert!(ins.accounts[1].writable && !ins.accounts[1].is_signer);
}

#[test]
fn mint_creation_plans_funding_then_initialization() {
    let payer = ident(1);
    let mint = ident(9);
    let plan = plan_mint_creation(&payer, &mint, 5000, 9);
    assert_eq!(plan.len(), 2);

    let create = &plan[0];
    let mut expected = vec![0u8, 0, 0, 0];
    expected.extend_from_slice(&le(5000));
    expected.extend_from_slice(&le(82));
    expected.extend_from_slice(&spl_token::id().to_bytes());
    assert_eq!(create.payload, expected);
    assert_eq!(create.accounts.len(), 2);
    assert!(create.accounts[0].is_signer && create.accounts[1].is_signer);

    let init = &plan[1];
    assert_eq!(init.program.bytes, spl_token::id().to_bytes().to_vec());
    let mut expected = vec![0u8, 9];
    expected.extend_from_slice(&mint.bytes);
    expected.push(0);
    assert_eq!(init.payload, expected);
    assert_eq!(init.accounts[0].id.bytes, mint.bytes);
    assert_eq!(
        init.accounts[1].id.bytes,
        solana_program::sysvar::rent::id().to_bytes().to_vec()
    );
}

#[test]
fn token_transfer_derives_the_source_account() {
    let sender = ident(11);
    let mint = ident(12);
    let authority = ident(13);
    let recipient_account = ident(14);
    let ins = plan_token_transfer(&sender, &recipient_account, &authority, &mint, 777);
    let mut expected = vec![3u8];
    expected.extend_from_slice(&le(777));
    assert_eq!(ins.payload, expected);
    assert_eq!(ins.accounts.len(), 4);
    let derived = derive_associated_address(&sender, &mint);
    assert_eq!(ins.accounts[0].id.bytes, derived.bytes);
    assert_eq!(ins.accounts[1].id.bytes, recipient_account.bytes);
    assert_eq!(ins.accounts[2].id.bytes, authority.bytes);
    assert!(!ins.accounts[2].is_signer);
    assert_eq!(ins.accounts[3].id.bytes, authority.bytes);
    assert!(ins.accounts[3].is_signer);
}

#[test]
fn mint_to_uses_the_authority_as_mint_and_signer() {
    let authority = ident(21);
    let destination = ident(22);
    let ins = plan_mint_to(&authority, &destination, 1000);
    let mut expected = vec![7u8];
    expected.extend_from_slice(&le(1000));
    assert_eq!(ins.payload, expected);
    assert_eq!(ins.accounts.len(), 4);
    assert_eq!(ins.accounts[0].id.bytes, authority.bytes);
    assert_eq!(ins.accounts[1].id.bytes, destination.bytes);
    assert!(ins.accounts[3].is_signer);
}

#[test]
fn generic_method_call_inserts_the_payer_second() {
    let program = ident(31);
    let payer = ident(32);
    let accounts = vec![ident(33), ident(34)];
    let data = vec![1u8, 2, 3];
    let ins = plan_generic_method_call(program, "update", &accounts, payer, &data).unwrap();
    assert_eq!(ins.accounts.len(), 3);
    assert_eq!(ins.accounts[0].id.bytes, vec![33u8; 32]);
    assert_eq!(ins.accounts[1].id.bytes, vec![32u8; 32]);
    assert!(ins.accounts[1].is_signer);
    assert_eq!(ins.accounts[2].id.bytes, vec![34u8; 32]);
    let mut expected = discriminator("update").unwrap();
    expected.extend_from_slice(&data);
    assert_eq!(ins.payload, expected);
}

#[test]
fn account_initialization_references_the_system_program() {
    let program = ident(41);
    let account = ident(42);
    let payer = ident(43);
    let ins = plan_account_initialization(program, &account, &payer).unwrap();
    assert_eq!(ins.accounts.len(), 3);
    assert!(ins.accounts[0].is_signer && ins.accounts[1].is_signer);
    assert_eq!(ins.accounts[2].id.bytes, vec![0u8; 32]);
    assert!(!ins.accounts[2].is_signer && !ins.accounts[2].writable);
    assert_eq!(ins.payload, discriminator("initialize").unwrap());
}

#[test]
fn build_concatenates_discriminator_and_arguments() {
    let program = ident(51);
    let tag = vec![1u8, 2, 3, 4, 5, 6, 7, 8];
    let args = vec![9u8, 10];
    let accounts = vec![AccountReference::readonly(ident(52), false)];
    let ins = build(program, &tag, accounts, &args);
    assert_eq!(ins.payload, vec![1, 2, 3, 4, 5, 6, 7, 8, 9, 10]);
    assert_eq!(ins.accounts.len(), 1);
}

#[test]
fn method_instruction_rejects_an_empty_name() {
    let err = method_instruction(ident(61), "", Vec::new(), &Vec::new()).unwrap_err();
    assert_eq!(err, ValidationError::EmptyMethodName);
}

#[test]
fn key_material_splits_the_secret_blob() {
    let mut secret = vec![0u8; 64];
    for i in 0..64 {
        secret[i] = i as u8;
    }
    let key = KeyMaterial::from_secret_bytes(secret.clone()).unwrap();
    assert_eq!(key.id.bytes, secret[32..].to_vec());
    assert_eq!(
        KeyMaterial::from_secret_bytes(vec![0u8; 63]).unwrap_err(),
        ValidationError::BadKeyLength
    );
}

#[test]
fn key_material_agrees_with_the_outside_keypair_layout() {
    let keypair = solana_sdk::signature::Keypair::new();
    let key = KeyMaterial::from_secret_bytes(keypair.to_bytes().to_vec()).unwrap();
    assert_eq!(key.id.bytes, keypair.pubkey().to_bytes().to_vec());
}

#[test]
fn balance_strings_parse_exactly() {
    assert_eq!(parse_u64_decimal("0"), Some(0));
    assert_eq!(parse_u64_decimal("90071992547"), Some(90071992547));
    assert_eq!(parse_u64_decimal("18446744073709551615"), Some(u64::MAX));
    assert_eq!(parse_u64_decimal("18446744073709551616"), None);
    assert_eq!(parse_u64_decimal(""), None);
    assert_eq!(parse_u64_decimal("12a"), None);
    assert_eq!(parse_u64_decimal("-1"), None);
}

#[test]
fn token_entries_keep_only_readable_records_in_order() {
    let entries = vec![
        Some(TokenInfo {
            mint: "m1".to_string(),
            balance: "5".to_string(),
            owner: "o1".to_string(),
        }),
        None,
        Some(TokenInfo {
            mint: "m2".to_string(),
            balance: "6".to_string(),
            owner: "o2".to_string(),
        }),
    ];
    let list = collect_token_entries(entries);
    assert_eq!(list.length(), 2);
    assert_eq!(list.data[0].mint, "m1");
    assert_eq!(list.data[1].mint, "m2");
}
