//! Atomic instruction units: a target program, an ordered list of account
//! references, and an opaque payload of discriminator plus argument bytes.
use vstd::prelude::*;

use crate::dispatch;
use crate::errors::ValidationError;
use crate::ident::Identifier;
use vstd::string::StringSliceAdditionalSpecFns;

verus! {

/// One account an instruction touches, with its access flags. Order within
/// an instruction is significant and must match the remote program's
/// expected account layout.
#[derive(Debug)]
pub struct AccountReference {
    pub id: Identifier,
    pub writable: bool,
    pub is_signer: bool,
}

/// Field-wise sameness of two account references.
pub open spec fn same_account_ref(a: AccountReference, b: AccountReference) -> bool {
    &&& a.id@ == b.id@
    &&& a.writable == b.writable
    &&& a.is_signer == b.is_signer
}

impl AccountReference {
    pub open spec fn wf(&self) -> bool {
        self.id.wf()
    }

    /// A writable account reference.
    pub fn writable(id: Identifier, is_signer: bool) -> (r: AccountReference)
        ensures
            r.id@ == id@,
            r.writable,
            r.is_signer == is_signer,
            r.wf() == id.wf(),
    {
        AccountReference { id, writable: true, is_signer }
    }

    /// A read-only account reference.
    pub fn readonly(id: Identifier, is_signer: bool) -> (r: AccountReference)
        ensures
            r.id@ == id@,
            !r.writable,
            r.is_signer == is_signer,
            r.wf() == id.wf(),
    {
        AccountReference { id, writable: false, is_signer }
    }
}

impl Clone for AccountReference {
    fn clone(&self) -> (r: Self)
        ensures
            same_account_ref(r, *self),
            r.wf() == self.wf(),
    {
        AccountReference { id: self.id.clone(), writable: self.writable, is_signer: self.is_signer }
    }
}

/// One atomic instruction unit. Immutable once built.
#[derive(Debug)]
pub struct Instruction {
    pub program: Identifier,
    pub accounts: Vec<AccountReference>,
    pub payload: Vec<u8>,
}

/// Field-wise sameness of two instructions.
pub open spec fn same_instruction(a: Instruction, b: Instruction) -> bool {
    &&& a.program@ == b.program@
    &&& a.payload@ == b.payload@
    &&& a.accounts@.len() == b.accounts@.len()
    &&& forall|i: int|
        0 <= i < a.accounts@.len() ==> same_account_ref(
            #[trigger] a.accounts@[i],
            b.accounts@[i],
        )
}

impl Instruction {
    pub open spec fn wf(&self) -> bool {
        &&& self.program.wf()
        &&& forall|i: int| 0 <= i < self.accounts@.len() ==> (#[trigger] self.accounts@[i]).wf()
    }
}

impl Clone for Instruction {
    fn clone(&self) -> (r: Self)
        ensures
            same_instruction(r, *self),
            self.wf() ==> r.wf(),
    {
        let mut accounts: Vec<AccountReference> = Vec::new();
        let mut i: usize = 0;
        while i < self.accounts.len()
            invariant
                i <= self.accounts@.len(),
                accounts@.len() == i,
                forall|j: int|
                    0 <= j < i ==> same_account_ref(
                        #[trigger] accounts@[j],
                        self.accounts@[j],
                    ) && accounts@[j].wf() == self.accounts@[j].wf(),
            decreases self.accounts@.len() - i,
        {
            accounts.push(self.accounts[i].clone());
            i = i + 1;
        }
        let mut payload: Vec<u8> = Vec::new();
        payload.extend_from_slice(self.payload.as_slice());
        proof {
            assert(payload@ =~= self.payload@);
        }
        Instruction { program: self.program.clone(), accounts, payload }
    }
}

/// Composes a target program, account references, and a payload of
/// discriminator plus argument bytes into one instruction. Side-effect
/// free; account references are taken as given, their fit with the remote
/// program's expected shape is the caller's contract with that program.
pub fn build(
    program: Identifier,
    discriminator: &Vec<u8>,
    accounts: Vec<AccountReference>,
    extra_args: &Vec<u8>,
) -> (r: Instruction)
    ensures
        r.program@ == program@,
        r.accounts == accounts,
        r.payload@ == discriminator@ + extra_args@,
        program.wf() && (forall|i: int|
            0 <= i < accounts@.len() ==> (#[trigger] accounts@[i]).wf()) ==> r.wf(),
{
    let mut payload: Vec<u8> = Vec::new();
    payload.extend_from_slice(discriminator.as_slice());
    payload.extend_from_slice(extra_args.as_slice());
    proof {
        assert(payload@ =~= discriminator@ + extra_args@);
    }
    Instruction { program, accounts, payload }
}

/// Builds the instruction for a named remote method: the payload is the
/// name's 8-byte discriminator followed by the argument bytes. An empty
/// method name is rejected before anything is assembled.
pub fn method_instruction(
    program: Identifier,
    method_name: &str,
    accounts: Vec<AccountReference>,
    extra_args: &Vec<u8>,
) -> (r: Result<Instruction, ValidationError>)
    ensures
        method_name.spec_bytes().len() == 0 ==> r == Err::<Instruction, ValidationError>(
            ValidationError::EmptyMethodName,
        ),
        method_name.spec_bytes().len() > 0 ==> (r matches Ok(ins)
            && ins.program@ == program@
            && ins.accounts == accounts
            && ins.payload@ == dispatch::discriminator_of(method_name.spec_bytes()) + extra_args@),
        program.wf() && (forall|i: int|
            0 <= i < accounts@.len() ==> (#[trigger] accounts@[i]).wf()) ==> (r matches Ok(ins)
            ==> ins.wf()),
{
    let tag = match dispatch::discriminator(method_name) {
        Ok(tag) => tag,
        Err(e) => {
            return Err(e);
        },
    };
    Ok(build(program, &tag, accounts, extra_args))
}

} // verus!
