//! Signing key material: a 64-byte secret blob whose second half is the
//! derived public identifier, as the ledger's key-file convention stores it.
use vstd::prelude::*;

use crate::errors::ValidationError;
use crate::ident::Identifier;
use crate::ident::IDENTIFIER_LEN;

verus! {

/// The number of bytes in a signing key blob: the 32-byte private seed
/// followed by the 32-byte public identifier.
pub const KEY_MATERIAL_LEN: usize = 64;

/// A signing keypair and its derived public identifier. Exclusively owned;
/// passing one to an operation is a borrow for that call only.
#[derive(Debug)]
pub struct KeyMaterial {
    pub secret: Vec<u8>,
    pub id: Identifier,
}

impl KeyMaterial {
    /// The secret is 64 bytes and the identifier is its second half.
    pub open spec fn wf(&self) -> bool {
        &&& self.secret@.len() == KEY_MATERIAL_LEN
        &&& self.id.wf()
        &&& self.id@ == self.secret@.subrange(IDENTIFIER_LEN as int, KEY_MATERIAL_LEN as int)
    }

    /// Accepts exactly 64 bytes and derives the public identifier from the
    /// second half; anything else is rejected before any use.
    pub fn from_secret_bytes(secret: Vec<u8>) -> (r: Result<KeyMaterial, ValidationError>)
        ensures
            secret@.len() == KEY_MATERIAL_LEN ==> (r matches Ok(k) && k.wf() && k.secret@
                == secret@),
            secret@.len() != KEY_MATERIAL_LEN ==> r == Err::<KeyMaterial, ValidationError>(
                ValidationError::BadKeyLength,
            ),
    {
        if secret.len() != KEY_MATERIAL_LEN {
            return Err(ValidationError::BadKeyLength);
        }
        let mut id_bytes: Vec<u8> = Vec::new();
        let mut i: usize = IDENTIFIER_LEN;
        while i < KEY_MATERIAL_LEN
            invariant
                IDENTIFIER_LEN <= i <= KEY_MATERIAL_LEN,
                secret@.len() == KEY_MATERIAL_LEN,
                id_bytes@ == secret@.subrange(IDENTIFIER_LEN as int, i as int),
            decreases KEY_MATERIAL_LEN - i,
        {
            id_bytes.push(secret[i]);
            proof {
                assert(id_bytes@ =~= secret@.subrange(IDENTIFIER_LEN as int, i + 1 as int));
            }
            i = i + 1;
        }
        Ok(KeyMaterial { id: Identifier { bytes: id_bytes }, secret })
    }

    /// The public identifier this key signs for.
    pub fn identifier(&self) -> (r: &Identifier)
        ensures
            r@ == self.id@,
    {
        &self.id
    }
}

impl Clone for KeyMaterial {
    fn clone(&self) -> (r: Self)
        ensures
            r.secret@ == self.secret@,
            r.id@ == self.id@,
            r.wf() == self.wf(),
    {
        let mut secret: Vec<u8> = Vec::new();
        secret.extend_from_slice(self.secret.as_slice());
        proof {
            assert(secret@ =~= self.secret@);
        }
        KeyMaterial { secret, id: self.id.clone() }
    }
}

} // verus!
