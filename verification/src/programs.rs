//! Well-known program identifiers on the ledger, as 32-byte values.
//! Each executable constant is pinned to the byte sequence its spec names,
//! and the test suite holds them against the outside crates' constants.
use vstd::prelude::*;

use crate::ident::Identifier;

verus! {

/// The system program's identifier: 32 zero bytes.
pub open spec fn system_program_id_bytes() -> Seq<u8> {
    Seq::new(32, |i: int| 0u8)
}

/// The token program's identifier.
pub open spec fn token_program_id_bytes() -> Seq<u8> {
    seq![
        6u8, 221u8, 246u8, 225u8, 215u8, 101u8, 161u8, 147u8, 217u8, 203u8, 225u8, 70u8, 206u8,
        235u8, 121u8, 172u8, 28u8, 180u8, 133u8, 237u8, 95u8, 91u8, 55u8, 145u8, 58u8, 140u8,
        245u8, 133u8, 126u8, 255u8, 0u8, 169u8,
    ]
}

/// The associated-account program's identifier.
pub open spec fn associated_program_id_bytes() -> Seq<u8> {
    seq![
        140u8, 151u8, 37u8, 143u8, 78u8, 36u8, 137u8, 241u8, 187u8, 61u8, 16u8, 41u8, 20u8, 142u8,
        13u8, 131u8, 11u8, 90u8, 19u8, 153u8, 218u8, 255u8, 16u8, 132u8, 4u8, 142u8, 123u8, 216u8,
        219u8, 233u8, 248u8, 89u8,
    ]
}

/// The rent sysvar's identifier.
pub open spec fn rent_sysvar_id_bytes() -> Seq<u8> {
    seq![
        6u8, 167u8, 213u8, 23u8, 25u8, 44u8, 92u8, 81u8, 33u8, 140u8, 201u8, 76u8, 61u8, 74u8,
        241u8, 127u8, 88u8, 218u8, 238u8, 8u8, 155u8, 161u8, 253u8, 68u8, 227u8, 219u8, 217u8,
        138u8, 0u8, 0u8, 0u8, 0u8,
    ]
}

/// The system program's identifier as a value.
pub fn system_program_id() -> (r: Identifier)
    ensures
        r@ == system_program_id_bytes(),
        r.wf(),
{
    let bytes: Vec<u8> = vec![0u8; 32];
    proof {
        assert(bytes@ =~= system_program_id_bytes());
    }
    Identifier { bytes }
}

/// The token program's identifier as a value.
pub fn token_program_id() -> (r: Identifier)
    ensures
        r@ == token_program_id_bytes(),
        r.wf(),
{
    let bytes: Vec<u8> = vec![
        6u8, 221u8, 246u8, 225u8, 215u8, 101u8, 161u8, 147u8, 217u8, 203u8, 225u8, 70u8, 206u8,
        235u8, 121u8, 172u8, 28u8, 180u8, 133u8, 237u8, 95u8, 91u8, 55u8, 145u8, 58u8, 140u8,
        245u8, 133u8, 126u8, 255u8, 0u8, 169u8,
    ];
    proof {
        assert(bytes@ =~= token_program_id_bytes());
    }
    Identifier { bytes }
}

/// The associated-account program's identifier as a value.
pub fn associated_program_id() -> (r: Identifier)
    ensures
        r@ == associated_program_id_bytes(),
        r.wf(),
{
    let bytes: Vec<u8> = vec![
        140u8, 151u8, 37u8, 143u8, 78u8, 36u8, 137u8, 241u8, 187u8, 61u8, 16u8, 41u8, 20u8, 142u8,
        13u8, 131u8, 11u8, 90u8, 19u8, 153u8, 218u8, 255u8, 16u8, 132u8, 4u8, 142u8, 123u8, 216u8,
        219u8, 233u8, 248u8, 89u8,
    ];
    proof {
        assert(bytes@ =~= associated_program_id_bytes());
    }
    Identifier { bytes }
}

/// The rent sysvar's identifier as a value.
pub fn rent_sysvar_id() -> (r: Identifier)
    ensures
        r@ == rent_sysvar_id_bytes(),
        r.wf(),
{
    let bytes: Vec<u8> = vec![
        6u8, 167u8, 213u8, 23u8, 25u8, 44u8, 92u8, 81u8, 33u8, 140u8, 201u8, 76u8, 61u8, 74u8,
        241u8, 127u8, 88u8, 218u8, 238u8, 8u8, 155u8, 161u8, 253u8, 68u8, 227u8, 219u8, 217u8,
        138u8, 0u8, 0u8, 0u8, 0u8,
    ];
    proof {
        assert(bytes@ =~= rent_sysvar_id_bytes());
    }
    Identifier { bytes }
}

} // verus!
