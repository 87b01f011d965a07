//! Planning calls into a deployed remote program: a generic method call as
//! the host interface shapes it, and the initialization call for a fresh
//! account.
use vstd::prelude::*;

use crate::dispatch;
use crate::errors::ValidationError;
use crate::ident::Identifier;
use crate::instruction;
use crate::instruction::AccountReference;
use crate::instruction::Instruction;
use crate::programs;
use crate::programs::system_program_id_bytes;
use vstd::string::StringSliceAdditionalSpecFns;

verus! {

/// Plans a generic method call as the host interface expects it: each
/// listed account is referenced writable and unsigned, the paying signer
/// is inserted in second position, and the payload is the method's
/// discriminator followed by the argument bytes. At least one account must
/// be listed for the second position to exist.
pub fn plan_generic_method_call(
    program: Identifier,
    method_name: &str,
    account_ids: &Vec<Identifier>,
    payer: Identifier,
    data: &Vec<u8>,
) -> (r: Result<Instruction, ValidationError>)
    requires
        program.wf(),
        payer.wf(),
        account_ids@.len() >= 1,
        forall|i: int| 0 <= i < account_ids@.len() ==> (#[trigger] account_ids@[i]).wf(),
    ensures
        method_name.spec_bytes().len() == 0 ==> r == Err::<Instruction, ValidationError>(
            ValidationError::EmptyMethodName,
        ),
        method_name.spec_bytes().len() > 0 ==> (r matches Ok(ins) && {
            &&& ins.program@ == program@
            &&& ins.payload@ == dispatch::discriminator_of(method_name.spec_bytes()) + data@
            &&& ins.accounts@.len() == account_ids@.len() + 1
            &&& ins.accounts@[0].id@ == account_ids@[0]@ && ins.accounts@[0].writable
                && !ins.accounts@[0].is_signer
            &&& ins.accounts@[1].id@ == payer@ && ins.accounts@[1].writable
                && ins.accounts@[1].is_signer
            &&& forall|i: int|
                2 <= i < ins.accounts@.len() ==> (#[trigger] ins.accounts@[i]).id@
                    == account_ids@[i - 1]@ && ins.accounts@[i].writable
                    && !ins.accounts@[i].is_signer
            &&& ins.wf()
        }),
{
    let mut accounts: Vec<AccountReference> = Vec::new();
    let mut i: usize = 0;
    while i < account_ids.len()
        invariant
            i <= account_ids@.len(),
            accounts@.len() == i,
            forall|i2: int| 0 <= i2 < account_ids@.len() ==> (#[trigger] account_ids@[i2]).wf(),
            forall|j: int|
                0 <= j < i ==> (#[trigger] accounts@[j]).id@ == account_ids@[j]@
                    && accounts@[j].writable && !accounts@[j].is_signer && accounts@[j].wf(),
        decreases account_ids@.len() - i,
    {
        accounts.push(AccountReference::writable(account_ids[i].clone(), false));
        i = i + 1;
    }
    let ghost before = accounts@;
    accounts.insert(1, AccountReference::writable(payer, true));
    proof {
        assert(accounts@[0] == before[0]);
        assert(forall|j: int| 2 <= j < accounts@.len() ==> accounts@[j] == before[j - 1]);
        assert(forall|j: int|
            0 <= j < accounts@.len() ==> (#[trigger] accounts@[j]).wf());
    }
    instruction::method_instruction(program, method_name, accounts, data)
}

/// Plans the initialization call for a fresh account: the new account and
/// the payer both sign and are funded writable, the system program is
/// referenced read-only, and the method is the program's initialization
/// method with no further arguments.
pub fn plan_account_initialization(
    program: Identifier,
    account: &Identifier,
    payer: &Identifier,
) -> (r: Result<Instruction, ValidationError>)
    requires
        program.wf(),
        account.wf(),
        payer.wf(),
    ensures
        r is Err ==> ("initialize").spec_bytes().len() == 0,
        r matches Ok(ins) ==> {
            &&& ins.program@ == program@
            &&& ins.payload@ == dispatch::discriminator_of(("initialize").spec_bytes())
                + Seq::<u8>::empty()
            &&& ins.accounts@.len() == 3
            &&& ins.accounts@[0].id@ == account@ && ins.accounts@[0].writable
                && ins.accounts@[0].is_signer
            &&& ins.accounts@[1].id@ == payer@ && ins.accounts@[1].writable
                && ins.accounts@[1].is_signer
            &&& ins.accounts@[2].id@ == system_program_id_bytes() && !ins.accounts@[2].writable
                && !ins.accounts@[2].is_signer
            &&& ins.wf()
        },
{
    let mut accounts: Vec<AccountReference> = Vec::new();
    accounts.push(AccountReference::writable(account.clone(), true));
    accounts.push(AccountReference::writable(payer.clone(), true));
    accounts.push(AccountReference::readonly(programs::system_program_id(), false));
    let data: Vec<u8> = Vec::new();
    instruction::method_instruction(program, "initialize", accounts, &data)
}

} // verus!
