//! Fixed-width identifiers naming accounts and programs on the ledger.
use vstd::prelude::*;

use crate::errors::ValidationError;

verus! {

/// The number of bytes in an [`Identifier`].
pub const IDENTIFIER_LEN: usize = 32;

/// A 32-byte value uniquely naming an account or program on the ledger.
/// Immutable once constructed; equality is byte-wise.
#[derive(Debug)]
pub struct Identifier {
    pub bytes: Vec<u8>,
}

impl View for Identifier {
    type V = Seq<u8>;

    open spec fn view(&self) -> Seq<u8> {
        self.bytes@
    }
}

impl Identifier {
    /// Every identifier holds exactly 32 bytes.
    pub open spec fn wf(&self) -> bool {
        self.bytes@.len() == IDENTIFIER_LEN
    }

    /// Accepts exactly 32 bytes; anything else is the caller's bug.
    pub fn from_bytes(bytes: Vec<u8>) -> (r: Result<Identifier, ValidationError>)
        ensures
            bytes@.len() == IDENTIFIER_LEN ==> (r matches Ok(id) && id.wf() && id@ == bytes@),
            bytes@.len() != IDENTIFIER_LEN ==> r == Err::<Identifier, ValidationError>(
                ValidationError::BadIdentifierLength,
            ),
    {
        if bytes.len() == IDENTIFIER_LEN {
            Ok(Identifier { bytes })
        } else {
            Err(ValidationError::BadIdentifierLength)
        }
    }

    /// Byte-wise equality.
    pub fn same_id(&self, other: &Identifier) -> (r: bool)
        ensures
            r == (self@ == other@),
    {
        let r = self.bytes == other.bytes;
        proof {
            if r {
                assert(self.bytes@ =~= other.bytes@);
            }
        }
        r
    }
}

impl Clone for Identifier {
    fn clone(&self) -> (r: Self)
        ensures
            r@ == self@,
            r.wf() == self.wf(),
    {
        let mut bytes: Vec<u8> = Vec::new();
        let mut i: usize = 0;
        while i < self.bytes.len()
            invariant
                i <= self.bytes@.len(),
                bytes@ == self.bytes@.take(i as int),
            decreases self.bytes@.len() - i,
        {
            bytes.push(self.bytes[i]);
            proof {
                assert(bytes@ =~= self.bytes@.take(i + 1 as int));
            }
            i = i + 1;
        }
        proof {
            assert(bytes@ =~= self.bytes@);
        }
        Identifier { bytes }
    }
}

} // verus!
