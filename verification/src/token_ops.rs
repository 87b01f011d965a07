//! Token operations: the instruction units for native transfers, token
//! account funding, mint creation and initialization, minting, and token
//! transfers, together with the planning steps around them.
use vstd::prelude::*;

use solana_program::pubkey::Pubkey;
use solana_program::system_instruction;
use spl_token::solana_program::pubkey::Pubkey as TokenPubkey;

use crate::codec::u64_le_bytes;
use crate::ident::Identifier;
use crate::instruction::AccountReference;
use crate::instruction::Instruction;
use crate::programs::system_program_id_bytes;
use crate::programs::token_program_id_bytes;
use crate::programs::rent_sysvar_id_bytes;
use crate::resolver::derive_associated_address;
use crate::resolver::derived_address_of;

verus! {

/// Relies on solana_program::system_instruction::transfer: the system
/// program moves `lamports` from the funding account (writable, signer) to
/// the recipient (writable); the data is the 4-byte little-endian transfer
/// tag 2 followed by the amount in little-endian.
#[verifier::external_body]
pub fn system_transfer_instruction(from: &Identifier, to: &Identifier, lamports: u64) -> (r:
    Instruction)
    requires
        from.wf(),
        to.wf(),
    ensures
        r.program@ == system_program_id_bytes(),
        r.payload@ == seq![2u8, 0u8, 0u8, 0u8] + u64_le_bytes(lamports),
        r.accounts@.len() == 2,
        r.accounts@[0].id@ == from@ && r.accounts@[0].writable && r.accounts@[0].is_signer,
        r.accounts@[1].id@ == to@ && r.accounts@[1].writable && !r.accounts@[1].is_signer,
        r.wf(),
{
    let pk = |v: &Identifier| Pubkey::new_from_array(v.bytes.as_slice().try_into().unwrap());
    let ins = system_instruction::transfer(&pk(from), &pk(to), lamports);
    let accounts = ins.accounts.iter().map(|m| AccountReference { id: Identifier { bytes: m.pubkey.to_bytes().to_vec() }, writable: m.is_writable, is_signer: m.is_signer }).collect();
    Instruction { program: Identifier { bytes: ins.program_id.to_bytes().to_vec() }, accounts, payload: ins.data }
}

/// Relies on solana_program::system_instruction::create_account: the
/// system program funds and allocates a new account (both the funder and
/// the new account sign) and assigns it to the owning program; the data is
/// the 4-byte tag 0, the lamports and the space in little-endian, then the
/// owner's 32 bytes.
#[verifier::external_body]
pub fn create_account_instruction(
    from: &Identifier,
    new_account: &Identifier,
    lamports: u64,
    space: u64,
    owner_program: &Identifier,
) -> (r: Instruction)
    requires
        from.wf(),
        new_account.wf(),
        owner_program.wf(),
    ensures
        r.program@ == system_program_id_bytes(),
        r.payload@ == seq![0u8, 0u8, 0u8, 0u8] + u64_le_bytes(lamports) + u64_le_bytes(space)
            + owner_program@,
        r.accounts@.len() == 2,
        r.accounts@[0].id@ == from@ && r.accounts@[0].writable && r.accounts@[0].is_signer,
        r.accounts@[1].id@ == new_account@ && r.accounts@[1].writable && r.accounts@[1].is_signer,
        r.wf(),
{
    let pk = |v: &Identifier| Pubkey::new_from_array(v.bytes.as_slice().try_into().unwrap());
    let ins = system_instruction::create_account(&pk(from), &pk(new_account), lamports, space, &pk(owner_program));
    let accounts = ins.accounts.iter().map(|m| AccountReference { id: Identifier { bytes: m.pubkey.to_bytes().to_vec() }, writable: m.is_writable, is_signer: m.is_signer }).collect();
    Instruction { program: Identifier { bytes: ins.program_id.to_bytes().to_vec() }, accounts, payload: ins.data }
}

/// Relies on spl_token::instruction::initialize_mint (with no freeze
/// authority): the token program initializes a mint account; the data is
/// the tag byte 0, the decimals, the mint authority's 32 bytes and the
/// absent-freeze-authority tag byte 0; the accounts are the mint
/// (writable) and the rent sysvar (read-only).
#[verifier::external_body]
pub fn initialize_mint_instruction(
    mint: &Identifier,
    mint_authority: &Identifier,
    decimals: u8,
) -> (r: Instruction)
    requires
        mint.wf(),
        mint_authority.wf(),
    ensures
        r.program@ == token_program_id_bytes(),
        r.payload@ == seq![0u8, decimals] + mint_authority@ + seq![0u8],
        r.accounts@.len() == 2,
        r.accounts@[0].id@ == mint@ && r.accounts@[0].writable && !r.accounts@[0].is_signer,
        r.accounts@[1].id@ == rent_sysvar_id_bytes() && !r.accounts@[1].writable
            && !r.accounts@[1].is_signer,
        r.wf(),
{
    let pk = |v: &Identifier| TokenPubkey::new_from_array(v.bytes.as_slice().try_into().unwrap());
    let ins = spl_token::instruction::initialize_mint(&spl_token::id(), &pk(mint), &pk(mint_authority), None, decimals).unwrap();
    let accounts = ins.accounts.iter().map(|m| AccountReference { id: Identifier { bytes: m.pubkey.to_bytes().to_vec() }, writable: m.is_writable, is_signer: m.is_signer }).collect();
    Instruction { program: Identifier { bytes: ins.program_id.to_bytes().to_vec() }, accounts, payload: ins.data }
}

/// Relies on spl_token::instruction::transfer, called with a one-element
/// signer list: the token program moves `amount` from the source to the
/// destination token account; the data is the tag byte 3 and the amount
/// in little-endian, and the accounts are the source and destination
/// (writable), the authority (read-only, not a direct signer since a
/// signer is listed) and the one listed signing key (read-only, signer).
#[verifier::external_body]
pub fn token_transfer_instruction(
    source: &Identifier,
    destination: &Identifier,
    authority: &Identifier,
    signing_key: &Identifier,
    amount: u64,
) -> (r: Instruction)
    requires
        source.wf(),
        destination.wf(),
        authority.wf(),
        signing_key.wf(),
    ensures
        r.program@ == token_program_id_bytes(),
        r.payload@ == seq![3u8] + u64_le_bytes(amount),
        r.accounts@.len() == 4,
        r.accounts@[0].id@ == source@ && r.accounts@[0].writable && !r.accounts@[0].is_signer,
        r.accounts@[1].id@ == destination@ && r.accounts@[1].writable && !r.accounts@[1].is_signer,
        r.accounts@[2].id@ == authority@ && !r.accounts@[2].writable && !r.accounts@[2].is_signer,
        r.accounts@[3].id@ == signing_key@ && !r.accounts@[3].writable && r.accounts@[3].is_signer,
        r.wf(),
{
    let pk = |v: &Identifier| TokenPubkey::new_from_array(v.bytes.as_slice().try_into().unwrap());
    let ins = spl_token::instruction::transfer(&spl_token::id(), &pk(source), &pk(destination), &pk(authority), &[&pk(signing_key)], amount).unwrap();
    let accounts = ins.accounts.iter().map(|m| AccountReference { id: Identifier { bytes: m.pubkey.to_bytes().to_vec() }, writable: m.is_writable, is_signer: m.is_signer }).collect();
    Instruction { program: Identifier { bytes: ins.program_id.to_bytes().to_vec() }, accounts, payload: ins.data }
}

/// Relies on spl_token::instruction::mint_to, called with a one-element
/// signer list: the token program mints `amount` into the destination
/// token account under the mint authority; the data is the tag byte 7 and
/// the amount in little-endian, and the accounts are the mint and the
/// destination (writable), the authority (read-only, not a direct signer
/// since a signer is listed) and the one listed signing key (read-only,
/// signer).
#[verifier::external_body]
pub fn mint_to_instruction(
    mint: &Identifier,
    destination: &Identifier,
    authority: &Identifier,
    signing_key: &Identifier,
    amount: u64,
) -> (r: Instruction)
    requires
        mint.wf(),
        destination.wf(),
        authority.wf(),
        signing_key.wf(),
    ensures
        r.program@ == token_program_id_bytes(),
        r.payload@ == seq![7u8] + u64_le_bytes(amount),
        r.accounts@.len() == 4,
        r.accounts@[0].id@ == mint@ && r.accounts@[0].writable && !r.accounts@[0].is_signer,
        r.accounts@[1].id@ == destination@ && r.accounts@[1].writable && !r.accounts@[1].is_signer,
        r.accounts@[2].id@ == authority@ && !r.accounts@[2].writable && !r.accounts@[2].is_signer,
        r.accounts@[3].id@ == signing_key@ && !r.accounts@[3].writable && r.accounts@[3].is_signer,
        r.wf(),
{
    let pk = |v: &Identifier| TokenPubkey::new_from_array(v.bytes.as_slice().try_into().unwrap());
    let ins = spl_token::instruction::mint_to(&spl_token::id(), &pk(mint), &pk(destination), &pk(authority), &[&pk(signing_key)], amount).unwrap();
    let accounts = ins.accounts.iter().map(|m| AccountReference { id: Identifier { bytes: m.pubkey.to_bytes().to_vec() }, writable: m.is_writable, is_signer: m.is_signer }).collect();
    Instruction { program: Identifier { bytes: ins.program_id.to_bytes().to_vec() }, accounts, payload: ins.data }
}

/// The encoded size of a mint account, which a mint creation must allocate.
pub const MINT_ACCOUNT_SPACE: u64 = 82;

/// Plans a native transfer against the sender's known balance: no
/// instruction is produced when the balance cannot cover the amount.
pub fn plan_native_transfer(
    sender: &Identifier,
    recipient: &Identifier,
    lamports: u64,
    sender_balance: u64,
) -> (r: Option<Instruction>)
    requires
        sender.wf(),
        recipient.wf(),
    ensures
        r is Some <==> sender_balance >= lamports,
        r matches Some(ins) ==> {
            &&& ins.program@ == system_program_id_bytes()
            &&& ins.payload@ == seq![2u8, 0u8, 0u8, 0u8] + u64_le_bytes(lamports)
            &&& ins.accounts@.len() == 2
            &&& ins.accounts@[0].id@ == sender@ && ins.accounts@[0].writable
                && ins.accounts@[0].is_signer
            &&& ins.accounts@[1].id@ == recipient@ && ins.accounts@[1].writable
                && !ins.accounts@[1].is_signer
            &&& ins.wf()
        },
{
    if sender_balance < lamports {
        return None;
    }
    Some(system_transfer_instruction(sender, recipient, lamports))
}

/// Plans the creation of a new mint: fund and allocate the mint account
/// with the given rent-exempt funding, then initialize it with the mint
/// itself as its authority.
pub fn plan_mint_creation(payer: &Identifier, mint: &Identifier, funding: u64, decimals: u8) -> (r:
    Vec<Instruction>)
    requires
        payer.wf(),
        mint.wf(),
    ensures
        r@.len() == 2,
        r@[0].program@ == system_program_id_bytes(),
        r@[0].payload@ == seq![0u8, 0u8, 0u8, 0u8] + u64_le_bytes(funding) + u64_le_bytes(
            MINT_ACCOUNT_SPACE,
        ) + token_program_id_bytes(),
        r@[0].accounts@.len() == 2,
        r@[0].accounts@[0].id@ == payer@ && r@[0].accounts@[0].writable
            && r@[0].accounts@[0].is_signer,
        r@[0].accounts@[1].id@ == mint@ && r@[0].accounts@[1].writable
            && r@[0].accounts@[1].is_signer,
        r@[1].program@ == token_program_id_bytes(),
        r@[1].payload@ == seq![0u8, decimals] + mint@ + seq![0u8],
        r@[1].accounts@.len() == 2,
        r@[1].accounts@[0].id@ == mint@ && r@[1].accounts@[0].writable
            && !r@[1].accounts@[0].is_signer,
        r@[1].accounts@[1].id@ == rent_sysvar_id_bytes(),
        forall|i: int| 0 <= i < r@.len() ==> (#[trigger] r@[i]).wf(),
{
    let token_program = crate::programs::token_program_id();
    let create = create_account_instruction(payer, mint, funding, MINT_ACCOUNT_SPACE,
        &token_program);
    let init = initialize_mint_instruction(mint, mint, decimals);
    let mut out: Vec<Instruction> = Vec::new();
    out.push(create);
    out.push(init);
    out
}

/// Plans a token transfer: the sender's token account is derived from the
/// sender and the mint, the recipient's token account has already been
/// reconciled, and the authority signs.
pub fn plan_token_transfer(
    sender: &Identifier,
    recipient_account: &Identifier,
    authority: &Identifier,
    mint: &Identifier,
    amount: u64,
) -> (r: Instruction)
    requires
        sender.wf(),
        recipient_account.wf(),
        authority.wf(),
        mint.wf(),
    ensures
        r.program@ == token_program_id_bytes(),
        r.payload@ == seq![3u8] + u64_le_bytes(amount),
        r.accounts@.len() == 4,
        r.accounts@[0].id@ == derived_address_of(sender@, mint@) && r.accounts@[0].writable
            && !r.accounts@[0].is_signer,
        r.accounts@[1].id@ == recipient_account@ && r.accounts@[1].writable
            && !r.accounts@[1].is_signer,
        r.accounts@[2].id@ == authority@ && !r.accounts@[2].writable && !r.accounts@[2].is_signer,
        r.accounts@[3].id@ == authority@ && !r.accounts@[3].writable && r.accounts@[3].is_signer,
        r.wf(),
{
    let source = derive_associated_address(sender, mint);
    token_transfer_instruction(&source, recipient_account, authority, authority, amount)
}

/// Plans minting into a reconciled token account, with the mint authority
/// signing; the mint account is the authority's own, as the mint-creation
/// plan sets it up.
pub fn plan_mint_to(mint_authority: &Identifier, destination_account: &Identifier, amount: u64) -> (
    r: Instruction)
    requires
        mint_authority.wf(),
        destination_account.wf(),
    ensures
        r.program@ == token_program_id_bytes(),
        r.payload@ == seq![7u8] + u64_le_bytes(amount),
        r.accounts@.len() == 4,
        r.accounts@[0].id@ == mint_authority@ && r.accounts@[0].writable
            && !r.accounts@[0].is_signer,
        r.accounts@[1].id@ == destination_account@ && r.accounts@[1].writable
            && !r.accounts@[1].is_signer,
        r.accounts@[2].id@ == mint_authority@ && !r.accounts@[2].writable
            && !r.accounts@[2].is_signer,
        r.accounts@[3].id@ == mint_authority@ && !r.accounts@[3].writable
            && r.accounts@[3].is_signer,
        r.wf(),
{
    mint_to_instruction(mint_authority, destination_account, mint_authority, mint_authority, amount)
}

} // verus!
