//! Method dispatch: a remote program routes an instruction by comparing the
//! leading 8 bytes of its payload against a tag derived from the method name.
use vstd::prelude::*;

use sha2::Digest;

use crate::errors::ValidationError;
use vstd::string::StringSliceAdditionalSpecFns;

verus! {

/// The number of bytes in a method discriminator.
pub const DISCRIMINATOR_LEN: usize = 8;

/// The SHA-256 digest of a byte sequence. Named, not written out: the hash
/// itself is computed by an outside crate and never re-implemented here.
pub uninterp spec fn sha256_of(data: Seq<u8>) -> Seq<u8>;

/// Relies on sha2::Sha256 through the Digest trait: the digest depends on
/// the input bytes alone and is always 32 bytes long.
#[verifier::external_body]
fn sha256(data: &Vec<u8>) -> (r: Vec<u8>)
    ensures
        r@ == sha256_of(data@),
        r@.len() == 32,
{
    let mut hasher = sha2::Sha256::new();
    hasher.update(data.as_slice());
    hasher.finalize().to_vec()
}

/// The namespaced form of a method name: the bytes of `"global:"` followed
/// by the name's bytes.
pub open spec fn namespaced(name: Seq<u8>) -> Seq<u8> {
    seq![103u8, 108u8, 111u8, 98u8, 97u8, 108u8, 58u8] + name
}

/// The dispatch tag for a method name: the first 8 bytes of the SHA-256
/// digest of the namespaced name.
pub open spec fn discriminator_of(name: Seq<u8>) -> Seq<u8> {
    sha256_of(namespaced(name)).take(DISCRIMINATOR_LEN as int)
}

/// Two method names with the same bytes always map to the same dispatch tag:
/// the derivation uses no randomness and no local state.
pub proof fn lemma_discriminator_deterministic(a: Seq<u8>, b: Seq<u8>)
    requires
        a == b,
    ensures
        discriminator_of(a) == discriminator_of(b),
{
}

/// Computes the 8-byte discriminator for a method name. An empty name is
/// rejected locally; any other name yields exactly 8 bytes.
pub fn discriminator(method_name: &str) -> (r: Result<Vec<u8>, ValidationError>)
    ensures
        method_name.spec_bytes().len() == 0 ==> r == Err::<Vec<u8>, ValidationError>(
            ValidationError::EmptyMethodName,
        ),
        method_name.spec_bytes().len() > 0 ==> (r matches Ok(d)
            && d@ == discriminator_of(method_name.spec_bytes())
            && d@.len() == DISCRIMINATOR_LEN),
{
    let name_bytes: &[u8] = method_name.as_bytes();
    if name_bytes.len() == 0 {
        return Err(ValidationError::EmptyMethodName);
    }
    let mut data: Vec<u8> = Vec::new();
    data.push(103);
    data.push(108);
    data.push(111);
    data.push(98);
    data.push(97);
    data.push(108);
    data.push(58);
    data.extend_from_slice(name_bytes);
    proof {
        assert(data@ =~= namespaced(method_name.spec_bytes()));
    }
    let mut digest = sha256(&data);
    digest.truncate(DISCRIMINATOR_LEN);
    proof {
        assert(digest@ =~= discriminator_of(method_name.spec_bytes()));
    }
    Ok(digest)
}

} // verus!
