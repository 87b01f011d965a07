//! Listing a wallet's token holdings and reading reported balances. The
//! ledger answers with loosely structured display records; only the
//! entries whose fields could all be read are kept, and balance strings
//! are parsed exactly or not at all.
use vstd::prelude::*;

use vstd::string::StringSliceAdditionalSpecFns;

verus! {

/// One token holding listed for a wallet: the mint, the balance and the
/// owner in the display form the ledger reports.
#[derive(Debug)]
pub struct TokenInfo {
    pub mint: String,
    pub balance: String,
    pub owner: String,
}

/// A wallet's token holdings, with the count carried alongside.
#[derive(Debug)]
pub struct TokenList {
    pub data: Vec<TokenInfo>,
    pub len: usize,
}

impl TokenList {
    /// The carried count is the list's length.
    pub open spec fn wf(&self) -> bool {
        self.len == self.data@.len()
    }

    /// How many holdings were listed.
    pub fn length(&self) -> (r: usize)
        ensures
            r == self.len,
    {
        self.len
    }
}

/// Keeps an entry only when every field of it could be read.
pub open spec fn readable(e: Option<TokenInfo>) -> bool {
    e is Some
}

/// Collects the fully readable holdings, keeping their order; entries
/// with an unreadable field are skipped, never defaulted.
pub fn collect_token_entries(entries: Vec<Option<TokenInfo>>) -> (r: TokenList)
    ensures
        r.wf(),
        r.data@ == entries@.filter(|e: Option<TokenInfo>| readable(e)).map_values(
            |e: Option<TokenInfo>| e->Some_0,
        ),
{
    let ghost orig = entries@;
    let mut entries = entries;
    let mut data: Vec<TokenInfo> = Vec::new();
    while entries.len() > 0
        invariant
            entries@.len() <= orig.len(),
            entries@ == orig.subrange(orig.len() - entries@.len(), orig.len() as int),
            data@ == orig.take(orig.len() - entries@.len()).filter(
                |e: Option<TokenInfo>| readable(e),
            ).map_values(|e: Option<TokenInfo>| e->Some_0),
        decreases entries@.len(),
    {
        let ghost done = orig.len() - entries@.len();
        let entry = entries.remove(0);
        proof {
            assert(entry == orig[done]);
            assert(entries@ =~= orig.subrange(done + 1, orig.len() as int));
            reveal(Seq::filter);
            let prev = orig.take(done);
            let cur = orig.take(done + 1);
            assert(cur.drop_last() =~= prev);
            assert(cur.last() == orig[done]);
        }
        match entry {
            Some(t) => {
                data.push(t);
                proof {
                    let done2 = orig.len() - entries@.len();
                    let prev = orig.take(done2 - 1);
                    let cur = orig.take(done2);
                    let pred = |e: Option<TokenInfo>| readable(e);
                    let f = |e: Option<TokenInfo>| e->Some_0;
                    assert(cur.filter(pred) =~= prev.filter(pred).push(orig[done2 - 1]));
                    assert(data@ =~= cur.filter(pred).map_values(f));
                }
            },
            None => {
                proof {
                    let done2 = orig.len() - entries@.len();
                    let prev = orig.take(done2 - 1);
                    let cur = orig.take(done2);
                    let pred = |e: Option<TokenInfo>| readable(e);
                    assert(cur.filter(pred) =~= prev.filter(pred));
                }
            },
        }
    }
    let len = data.len();
    proof {
        assert(orig.take(orig.len() as int) =~= orig);
    }
    TokenList { data, len }
}

/// Is this byte an ASCII decimal digit?
pub open spec fn is_digit(b: u8) -> bool {
    48 <= b <= 57
}

/// Does the byte string consist of decimal digits only?
pub open spec fn all_digits(s: Seq<u8>) -> bool {
    forall|i: int| 0 <= i < s.len() ==> is_digit(#[trigger] s[i])
}

/// The numeric value of a decimal digit string, most significant digit
/// first. A byte outside the digit range contributes nothing; callers
/// guard with `all_digits`.
pub open spec fn decimal_value(digits: Seq<u8>) -> nat
    decreases digits.len(),
{
    if digits.len() == 0 {
        0
    } else {
        decimal_value(digits.drop_last()) * 10 + (if is_digit(digits.last()) {
            (digits.last() - 48) as nat
        } else {
            0
        })
    }
}

/// A longer digit prefix never has a smaller value.
proof fn lemma_decimal_value_prefix_le(s: Seq<u8>, i: int, j: int)
    requires
        0 <= i <= j <= s.len(),
    ensures
        decimal_value(s.take(i)) <= decimal_value(s.take(j)),
    decreases j - i,
{
    if i < j {
        lemma_decimal_value_prefix_le(s, i, j - 1);
        assert(s.take(j).drop_last() =~= s.take(j - 1));
    }
}

/// Parses a plain decimal digit string as a 64-bit value, exactly: it
/// succeeds precisely on a non-empty all-digit string whose value fits,
/// and never rounds, truncates or defaults.
pub fn parse_u64_decimal(s: &str) -> (r: Option<u64>)
    ensures
        r is Some <==> (s.spec_bytes().len() > 0 && all_digits(s.spec_bytes()) && decimal_value(
            s.spec_bytes(),
        ) <= u64::MAX),
        r matches Some(v) ==> v == decimal_value(s.spec_bytes()),
{
    let bytes: &[u8] = s.as_bytes();
    let n = bytes.len();
    if n == 0 {
        return None;
    }
    let mut acc: u64 = 0;
    let mut i: usize = 0;
    while i < n
        invariant
            i <= n == bytes@.len(),
            bytes@ == s.spec_bytes(),
            all_digits(bytes@.take(i as int)),
            acc == decimal_value(bytes@.take(i as int)),
        decreases n - i,
    {
        let b = bytes[i];
        if b < 48 || b > 57 {
            proof {
                assert(bytes@[i as int] == b);
            }
            return None;
        }
        let d = (b - 48) as u64;
        proof {
            assert(bytes@.take(i + 1 as int).drop_last() =~= bytes@.take(i as int));
            assert(bytes@.take(i + 1 as int).last() == b);
        }
        let step = match acc.checked_mul(10) {
            Some(x) => x.checked_add(d),
            None => None,
        };
        acc = match step {
            Some(v) => v,
            None => {
                proof {
                    assert(decimal_value(bytes@.take(i + 1 as int)) > u64::MAX);
                    lemma_decimal_value_prefix_le(bytes@, i + 1, bytes@.len() as int);
                    assert(bytes@.take(bytes@.len() as int) =~= bytes@);
                }
                return None;
            },
        };
        i = i + 1;
    }
    proof {
        assert(bytes@.take(n as int) =~= bytes@);
    }
    Some(acc)
}

} // verus!
