//! Fixed-layout account payload codec: strip the 8-byte framing prefix a
//! stored account begins with, then read fixed-width little-endian fields
//! in declared order. Nothing is ever silently defaulted: a payload that
//! does not match its schema is a classified decode error.
use vstd::prelude::*;

use crate::errors::DecodeError;
use crate::ident::Identifier;

verus! {

/// The little-endian bytes of a 64-bit value, least significant first.
pub open spec fn u64_le_bytes(x: u64) -> Seq<u8> {
    seq![
        (x & 0xff) as u8,
        ((x >> 8) & 0xff) as u8,
        ((x >> 16) & 0xff) as u8,
        ((x >> 24) & 0xff) as u8,
        ((x >> 32) & 0xff) as u8,
        ((x >> 40) & 0xff) as u8,
        ((x >> 48) & 0xff) as u8,
        ((x >> 56) & 0xff) as u8,
    ]
}

/// The 64-bit value read from 8 little-endian bytes.
pub open spec fn u64_from_le(b: Seq<u8>) -> u64
    recommends
        b.len() == 8,
{
    ((b[0] as u64) | ((b[1] as u64) << 8u64) | ((b[2] as u64) << 16u64) | ((b[3] as u64) << 24u64)
        | ((b[4] as u64) << 32u64) | ((b[5] as u64) << 40u64) | ((b[6] as u64) << 48u64) | ((
    b[7] as u64) << 56u64)) as u64
}

/// Reading back the written bytes returns the original value.
pub proof fn lemma_u64_le_round_trip(x: u64)
    ensures
        u64_from_le(u64_le_bytes(x)) == x,
{
    let b = u64_le_bytes(x);
    assert(b[0] == (x & 0xff) as u8);
    assert(b[1] == ((x >> 8) & 0xff) as u8);
    assert(b[2] == ((x >> 16) & 0xff) as u8);
    assert(b[3] == ((x >> 24) & 0xff) as u8);
    assert(b[4] == ((x >> 32) & 0xff) as u8);
    assert(b[5] == ((x >> 40) & 0xff) as u8);
    assert(b[6] == ((x >> 48) & 0xff) as u8);
    assert(b[7] == ((x >> 56) & 0xff) as u8);
    assert(((((x & 0xff) as u8) as u64) | ((((x >> 8) & 0xff) as u8) as u64) << 8u64 | ((((x
        >> 16) & 0xff) as u8) as u64) << 16u64 | ((((x >> 24) & 0xff) as u8) as u64) << 24u64 | ((((
    x >> 32) & 0xff) as u8) as u64) << 32u64 | ((((x >> 40) & 0xff) as u8) as u64) << 40u64 | ((((x
        >> 48) & 0xff) as u8) as u64) << 48u64 | ((((x >> 56) & 0xff) as u8) as u64) << 56u64) as u64
        == x) by (bit_vector);
}

/// Appends the 8 little-endian bytes of `x`.
pub fn write_u64_le(out: &mut Vec<u8>, x: u64)
    ensures
        final(out)@ == old(out)@ + u64_le_bytes(x),
{
    out.push((x & 0xff) as u8);
    out.push(((x >> 8) & 0xff) as u8);
    out.push(((x >> 16) & 0xff) as u8);
    out.push(((x >> 24) & 0xff) as u8);
    out.push(((x >> 32) & 0xff) as u8);
    out.push(((x >> 40) & 0xff) as u8);
    out.push(((x >> 48) & 0xff) as u8);
    out.push(((x >> 56) & 0xff) as u8);
    proof {
        assert(out@ =~= old(out)@ + u64_le_bytes(x));
    }
}

/// Reads the 64-bit value stored at `at` in 8 little-endian bytes.
pub fn read_u64_le(bytes: &Vec<u8>, at: usize) -> (r: u64)
    requires
        at + 8 <= bytes@.len(),
    ensures
        r == u64_from_le(bytes@.subrange(at as int, at + 8)),
{
    let n = bytes.len();
    let r = (bytes[at] as u64) | ((bytes[at + 1] as u64) << 8u64) | ((bytes[at + 2] as u64)
        << 16u64) | ((bytes[at + 3] as u64) << 24u64) | ((bytes[at + 4] as u64) << 32u64) | ((
    bytes[at + 5] as u64) << 40u64) | ((bytes[at + 6] as u64) << 48u64) | ((bytes[at + 7] as u64)
        << 56u64);
    proof {
        let s = bytes@.subrange(at as int, at + 8);
        assert(s[0] == bytes@[at as int]);
        assert(s[1] == bytes@[at + 1]);
        assert(s[2] == bytes@[at + 2]);
        assert(s[3] == bytes@[at + 3]);
        assert(s[4] == bytes@[at + 4]);
        assert(s[5] == bytes@[at + 5]);
        assert(s[6] == bytes@[at + 6]);
        assert(s[7] == bytes@[at + 7]);
    }
    r
}

/// The framing prefix: every stored account payload begins with an 8-byte
/// account-level discriminator written by the remote program at creation
/// time (distinct from a method discriminator).
pub const FRAME_PREFIX_LEN: usize = 8;

/// A counter record: the single 64-bit field stored in a counter account.
#[derive(Debug, Clone, Copy, PartialEq, Eq, Structural)]
pub struct Counter {
    pub count: u64,
}

/// The total encoded size of a framed counter account.
pub const COUNTER_ACCOUNT_LEN: usize = 16;

/// A framed counter account: 8 framing bytes, then the count in
/// little-endian.
pub open spec fn counter_encoding(frame: Seq<u8>, c: Counter) -> Seq<u8> {
    frame + u64_le_bytes(c.count)
}

/// Encodes a counter record under the given framing prefix.
pub fn encode_counter(frame: &Vec<u8>, c: &Counter) -> (r: Vec<u8>)
    requires
        frame@.len() == FRAME_PREFIX_LEN,
    ensures
        r@ == counter_encoding(frame@, *c),
        r@.len() == COUNTER_ACCOUNT_LEN,
{
    let mut out: Vec<u8> = Vec::new();
    out.extend_from_slice(frame.as_slice());
    proof {
        assert(out@ =~= frame@);
    }
    write_u64_le(&mut out, c.count);
    out
}

/// Decodes a framed counter account: strips the 8 framing bytes and reads
/// the count. Fewer bytes than the schema requires is `Truncated`;
/// trailing bytes beyond the schema are `Malformed`.
pub fn decode_counter(bytes: &Vec<u8>) -> (r: Result<Counter, DecodeError>)
    ensures
        bytes@.len() < COUNTER_ACCOUNT_LEN ==> r == Err::<Counter, DecodeError>(
            DecodeError::Truncated,
        ),
        bytes@.len() > COUNTER_ACCOUNT_LEN ==> r == Err::<Counter, DecodeError>(
            DecodeError::Malformed,
        ),
        bytes@.len() == COUNTER_ACCOUNT_LEN ==> (r matches Ok(c) && c.count == u64_from_le(
            bytes@.subrange(FRAME_PREFIX_LEN as int, COUNTER_ACCOUNT_LEN as int),
        )),
{
    if bytes.len() < COUNTER_ACCOUNT_LEN {
        return Err(DecodeError::Truncated);
    }
    if bytes.len() > COUNTER_ACCOUNT_LEN {
        return Err(DecodeError::Malformed);
    }
    Ok(Counter { count: read_u64_le(bytes, FRAME_PREFIX_LEN) })
}

/// Encoding a counter under a framing prefix and decoding the bytes
/// returns the original record: the encoded form has the schema's exact
/// size and the count read back is the count written.
pub proof fn lemma_counter_round_trip(frame: Seq<u8>, c: Counter)
    requires
        frame.len() == FRAME_PREFIX_LEN,
    ensures
        counter_encoding(frame, c).len() == COUNTER_ACCOUNT_LEN,
        u64_from_le(
            counter_encoding(frame, c).subrange(FRAME_PREFIX_LEN as int, COUNTER_ACCOUNT_LEN as int),
        ) == c.count,
{
    assert(counter_encoding(frame, c).subrange(
        FRAME_PREFIX_LEN as int,
        COUNTER_ACCOUNT_LEN as int,
    ) =~= u64_le_bytes(c.count));
    lemma_u64_le_round_trip(c.count);
}

/// A mint record: the fixed-field account payload describing a token mint.
/// Optional authorities are stored under a 4-byte tag; an absent authority
/// stores a zeroed key.
#[derive(Debug)]
pub struct SolMint {
    pub mint_authority: Option<Identifier>,
    pub supply: u64,
    pub decimals: u8,
    pub is_initialized: bool,
    pub freeze_authority: Option<Identifier>,
}

impl SolMint {
    pub open spec fn wf(&self) -> bool {
        &&& match self.mint_authority {
            Some(id) => id.wf(),
            None => true,
        }
        &&& match self.freeze_authority {
            Some(id) => id.wf(),
            None => true,
        }
    }
}

/// The total encoded size of a mint account.
pub const MINT_ACCOUNT_LEN: usize = 82;

/// The 4-byte little-endian tag of an optional authority: 1 if present,
/// 0 if absent.
pub open spec fn authority_tag(a: Option<Identifier>) -> Seq<u8> {
    match a {
        Some(_) => seq![1u8, 0u8, 0u8, 0u8],
        None => seq![0u8, 0u8, 0u8, 0u8],
    }
}

/// The 32 key bytes of an optional authority: the key if present, zeroes
/// if absent.
pub open spec fn authority_key(a: Option<Identifier>) -> Seq<u8> {
    match a {
        Some(id) => id@,
        None => Seq::new(32, |i: int| 0u8),
    }
}

/// A mint account's layout: tagged mint authority, supply in
/// little-endian, decimals, an initialization flag byte, then the tagged
/// freeze authority.
pub open spec fn mint_encoding(m: SolMint) -> Seq<u8> {
    authority_tag(m.mint_authority) + authority_key(m.mint_authority) + u64_le_bytes(m.supply)
        + seq![m.decimals, (if m.is_initialized { 1u8 } else { 0u8 })] + authority_tag(
        m.freeze_authority,
    ) + authority_key(m.freeze_authority)
}

/// Is there a well-formed optional-authority encoding at `at`? The tag
/// must be exactly 0 or 1 in 4 little-endian bytes.
pub open spec fn valid_authority_tag(b: Seq<u8>, at: int) -> bool {
    (b[at] == 0 || b[at] == 1) && b[at + 1] == 0 && b[at + 2] == 0 && b[at + 3] == 0
}

/// Every byte of a mint account the schema constrains is within range.
pub open spec fn valid_mint_encoding(b: Seq<u8>) -> bool {
    &&& b.len() == MINT_ACCOUNT_LEN
    &&& valid_authority_tag(b, 0)
    &&& b[45] == 0 || b[45] == 1
    &&& valid_authority_tag(b, 46)
}

/// Reads the optional authority stored at `at`: a 4-byte tag, then 32 key
/// bytes.
fn read_authority(bytes: &Vec<u8>, at: usize) -> (r: Result<Option<Identifier>, DecodeError>)
    requires
        at + 36 <= bytes@.len(),
    ensures
        !valid_authority_tag(bytes@, at as int) ==> r == Err::<Option<Identifier>, DecodeError>(
            DecodeError::Malformed,
        ),
        valid_authority_tag(bytes@, at as int) && bytes@[at as int] == 0 ==> r == Ok::<
            Option<Identifier>,
            DecodeError,
        >(None),
        valid_authority_tag(bytes@, at as int) && bytes@[at as int] == 1 ==> (r matches Ok(a) && a
            matches Some(id) && id@ == bytes@.subrange(at + 4, at + 36) && id.wf()),
{
    let n = bytes.len();
    if bytes[at + 1] != 0 || bytes[at + 2] != 0 || bytes[at + 3] != 0 {
        return Err(DecodeError::Malformed);
    }
    let tag = bytes[at];
    if tag == 0 {
        return Ok(None);
    }
    if tag != 1 {
        return Err(DecodeError::Malformed);
    }
    let mut key: Vec<u8> = Vec::new();
    let mut i: usize = at + 4;
    while i < at + 36
        invariant
            at + 4 <= i <= at + 36,
            at + 36 <= n == bytes@.len(),
            key@ == bytes@.subrange(at + 4, i as int),
        decreases at + 36 - i,
    {
        key.push(bytes[i]);
        proof {
            assert(key@ =~= bytes@.subrange(at + 4, i + 1 as int));
        }
        i = i + 1;
    }
    Ok(Some(Identifier { bytes: key }))
}

/// Decodes a mint account. Fewer than 82 bytes is `Truncated`; trailing
/// bytes, an authority tag other than 0 or 1, or an initialization byte
/// other than 0 or 1 are `Malformed`; otherwise every field is read at its
/// fixed offset.
pub fn decode_mint(bytes: &Vec<u8>) -> (r: Result<SolMint, DecodeError>)
    ensures
        bytes@.len() < MINT_ACCOUNT_LEN ==> r == Err::<SolMint, DecodeError>(DecodeError::Truncated),
        bytes@.len() > MINT_ACCOUNT_LEN ==> r == Err::<SolMint, DecodeError>(DecodeError::Malformed),
        bytes@.len() == MINT_ACCOUNT_LEN && !valid_mint_encoding(bytes@) ==> r == Err::<
            SolMint,
            DecodeError,
        >(DecodeError::Malformed),
        valid_mint_encoding(bytes@) ==> (r matches Ok(m) && {
            &&& m.wf()
            &&& (bytes@[0] == 1 ==> (m.mint_authority matches Some(id) && id@
                == bytes@.subrange(4, 36)))
            &&& (bytes@[0] == 0 ==> m.mint_authority is None)
            &&& m.supply == u64_from_le(bytes@.subrange(36, 44))
            &&& m.decimals == bytes@[44]
            &&& m.is_initialized == (bytes@[45] == 1)
            &&& (bytes@[46] == 1 ==> (m.freeze_authority matches Some(id) && id@
                == bytes@.subrange(50, 82)))
            &&& (bytes@[46] == 0 ==> m.freeze_authority is None)
        }),
{
    if bytes.len() < MINT_ACCOUNT_LEN {
        return Err(DecodeError::Truncated);
    }
    if bytes.len() > MINT_ACCOUNT_LEN {
        return Err(DecodeError::Malformed);
    }
    let mint_authority = match read_authority(bytes, 0) {
        Ok(a) => a,
        Err(e) => {
            return Err(e);
        },
    };
    let supply = read_u64_le(bytes, 36);
    let decimals = bytes[44];
    let init_byte = bytes[45];
    if init_byte != 0 && init_byte != 1 {
        return Err(DecodeError::Malformed);
    }
    let freeze_authority = match read_authority(bytes, 46) {
        Ok(a) => a,
        Err(e) => {
            return Err(e);
        },
    };
    Ok(
        SolMint {
            mint_authority,
            supply,
            decimals,
            is_initialized: init_byte == 1,
            freeze_authority,
        },
    )
}

/// Encodes a mint record in its account layout.
pub fn encode_mint(m: &SolMint) -> (r: Vec<u8>)
    requires
        m.wf(),
    ensures
        r@ == mint_encoding(*m),
        r@.len() == MINT_ACCOUNT_LEN,
{
    let mut out: Vec<u8> = Vec::new();
    write_authority(&mut out, &m.mint_authority);
    write_u64_le(&mut out, m.supply);
    out.push(m.decimals);
    out.push(if m.is_initialized { 1 } else { 0 });
    write_authority(&mut out, &m.freeze_authority);
    proof {
        assert(out@ =~= mint_encoding(*m));
    }
    out
}

/// Appends an optional authority: a 4-byte tag, then the key bytes or 32
/// zeroes.
fn write_authority(out: &mut Vec<u8>, a: &Option<Identifier>)
    requires
        match a {
            Some(id) => id.wf(),
            None => true,
        },
    ensures
        final(out)@ == old(out)@ + authority_tag(*a) + authority_key(*a),
{
    match a {
        Some(id) => {
            out.push(1);
            out.push(0);
            out.push(0);
            out.push(0);
            out.extend_from_slice(id.bytes.as_slice());
            proof {
                assert(out@ =~= old(out)@ + authority_tag(*a) + authority_key(*a));
            }
        },
        None => {
            out.push(0);
            out.push(0);
            out.push(0);
            out.push(0);
            let mut i: usize = 0;
            while i < 32
                invariant
                    i <= 32,
                    out@ == old(out)@ + authority_tag(*a) + Seq::new(i as nat, |j: int| 0u8),
                    a is None,
                decreases 32 - i,
            {
                out.push(0);
                proof {
                    assert(out@ =~= old(out)@ + authority_tag(*a) + Seq::new(
                        (i + 1) as nat,
                        |j: int| 0u8,
                    ));
                }
                i = i + 1;
            }
            proof {
                assert(out@ =~= old(out)@ + authority_tag(*a) + authority_key(*a));
            }
        },
    }
}

/// Encoding a mint record and decoding the bytes returns the original
/// fields: the encoding is valid, has the schema's exact size, and every
/// field reads back at its offset.
pub proof fn lemma_mint_round_trip(m: SolMint)
    requires
        m.wf(),
    ensures
        mint_encoding(m).len() == MINT_ACCOUNT_LEN,
        valid_mint_encoding(mint_encoding(m)),
        m.mint_authority matches Some(id) ==> mint_encoding(m)[0] == 1 && mint_encoding(
            m,
        ).subrange(4, 36) == id@,
        m.mint_authority is None ==> mint_encoding(m)[0] == 0,
        u64_from_le(mint_encoding(m).subrange(36, 44)) == m.supply,
        mint_encoding(m)[44] == m.decimals,
        (mint_encoding(m)[45] == 1) == m.is_initialized,
        m.freeze_authority matches Some(id) ==> mint_encoding(m)[46] == 1 && mint_encoding(
            m,
        ).subrange(50, 82) == id@,
        m.freeze_authority is None ==> mint_encoding(m)[46] == 0,
{
    let e = mint_encoding(m);
    assert(e.subrange(36, 44) =~= u64_le_bytes(m.supply));
    lemma_u64_le_round_trip(m.supply);
    match m.mint_authority {
        Some(id) => {
            assert(e.subrange(4, 36) =~= id@);
        },
        None => {},
    }
    match m.freeze_authority {
        Some(id) => {
            assert(e.subrange(50, 82) =~= id@);
        },
        None => {},
    }
}

} // verus!
