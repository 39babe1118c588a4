//! Small verified helpers: decimal parsing of the ids and totals that the
//! remote side sends as strings, saturating size accounting, and the
//! greeting probe.

use vstd::prelude::*;
use vstd::string::StrSliceExecFns;
use vstd::string::StringExecFns;

verus! {

/// The magnitude of `i64::MIN`.
pub const I64_MIN_MAG: u128 = 9223372036854775808;

pub open spec fn is_dec_digit(c: char) -> bool {
    '0' <= c && c <= '9'
}

pub open spec fn all_dec_digits(s: Seq<char>) -> bool {
    forall|i: int| 0 <= i < s.len() ==> is_dec_digit(#[trigger] s[i])
}

/// The value of a string of decimal digits, most significant first.
pub open spec fn digits_value(s: Seq<char>) -> int
    decreases s.len(),
{
    if s.len() == 0 {
        0
    } else {
        digits_value(s.drop_last()) * 10 + (s.last() as int - '0' as int)
    }
}

/// A digit string never has a negative value.
pub proof fn lemma_digits_value_nonneg(s: Seq<char>)
    requires
        all_dec_digits(s),
    ensures
        digits_value(s) >= 0,
    decreases s.len(),
{
    if s.len() > 0 {
        assert(all_dec_digits(s.drop_last()));
        lemma_digits_value_nonneg(s.drop_last());
    }
}

/// Whether `s` is a decimal integer that fits in an `i64`: an optional
/// leading sign, at least one digit, value in range.
pub open spec fn parse_i64_ok(s: Seq<char>) -> bool {
    if s.len() >= 1 && s[0] == '-' {
        s.len() >= 2 && all_dec_digits(s.skip(1)) && digits_value(s.skip(1)) <= I64_MIN_MAG
    } else if s.len() >= 1 && s[0] == '+' {
        s.len() >= 2 && all_dec_digits(s.skip(1)) && digits_value(s.skip(1)) <= i64::MAX
    } else {
        s.len() >= 1 && all_dec_digits(s) && digits_value(s) <= i64::MAX
    }
}

/// The value `s` denotes (meaningful under `parse_i64_ok`).
pub open spec fn parse_i64_value(s: Seq<char>) -> int {
    if s.len() >= 1 && s[0] == '-' {
        -digits_value(s.skip(1))
    } else if s.len() >= 1 && s[0] == '+' {
        digits_value(s.skip(1))
    } else {
        digits_value(s)
    }
}

/// Parse a decimal integer, as the remote side writes ids and totals.
/// Returns `Some` exactly on an optionally signed digit string whose value
/// fits in an `i64`, and then the denoted value.
pub fn parse_i64(s: &str) -> (r: Option<i64>)
    ensures
        r is Some <==> parse_i64_ok(s@),
        r matches Some(v) ==> v == parse_i64_value(s@),
{
    let n = s.unicode_len();
    if n == 0 {
        return None;
    }
    let head = s.get_char(0);
    let neg = head == '-';
    let signed = neg || head == '+';
    let start: usize = if signed { 1 } else { 0 };
    if start >= n {
        return None;
    }
    let ghost body = s@.skip(start as int);
    // Accumulated magnitude, capped just above the largest admissible value
    // so that overflow of the true value is still detected exactly.
    let mut acc: u128 = 0;
    let mut i: usize = start;
    while i < n
        invariant
            start <= i <= n,
            n == s@.len(),
            n >= 1,
            body == s@.skip(start as int),
            neg <==> s@[0] == '-',
            signed <==> (s@[0] == '-' || s@[0] == '+'),
            start == (if signed { 1int } else { 0int }),
            all_dec_digits(body.subrange(0, i - start)),
            acc <= I64_MIN_MAG + 1,
            digits_value(body.subrange(0, i - start)) <= I64_MIN_MAG
                ==> acc == digits_value(body.subrange(0, i - start)),
            digits_value(body.subrange(0, i - start)) > I64_MIN_MAG
                ==> acc == I64_MIN_MAG + 1,
        decreases n - i,
    {
        let c = s.get_char(i);
        if !('0' <= c && c <= '9') {
            proof {
                assert(body[i - start] == c);
                assert(!is_dec_digit(body[i - start]));
                assert(!all_dec_digits(body));
                if !signed {
                    assert(body =~= s@);
                }
            }
            return None;
        }
        let d: u128 = (c as u128) - ('0' as u128);
        let ghost prefix = body.subrange(0, i - start);
        let ghost prefix1 = body.subrange(0, i + 1 - start);
        proof {
            assert(prefix1.drop_last() =~= prefix);
            assert(prefix1.last() == c);
            lemma_digits_value_nonneg(prefix);
        }
        let next: u128 = if acc > I64_MIN_MAG { acc } else { acc * 10 + d };
        acc = if next > I64_MIN_MAG { I64_MIN_MAG + 1 } else { next };
        i = i + 1;
    }
    proof {
        assert(body.subrange(0, n - start) =~= body);
        assert(all_dec_digits(body));
        if !signed {
            assert(body =~= s@);
        }
    }
    if neg {
        if acc > I64_MIN_MAG {
            None
        } else if acc == I64_MIN_MAG {
            Some(i64::MIN)
        } else {
            Some(-(acc as i64))
        }
    } else {
        if acc > i64::MAX as u128 {
            None
        } else {
            Some(acc as i64)
        }
    }
}

/// `a + b`, stopping at the top of the `u64` range.
pub open spec fn sat_add_u64(a: int, b: int) -> int {
    if a + b > u64::MAX {
        u64::MAX as int
    } else {
        a + b
    }
}

/// The saturating sum of a list of sizes.
pub open spec fn total_size(s: Seq<u64>) -> int
    decreases s.len(),
{
    if s.len() == 0 {
        0
    } else {
        sat_add_u64(total_size(s.drop_last()), s.last() as int)
    }
}

/// Sum the sizes of a directory's entries, saturating instead of wrapping.
pub fn dir_total_size(sizes: &Vec<u64>) -> (r: u64)
    ensures
        r == total_size(sizes@),
{
    let n = sizes.len();
    let mut acc: u64 = 0;
    let mut i: usize = 0;
    while i < n
        invariant
            i <= n,
            n == sizes@.len(),
            acc == total_size(sizes@.subrange(0, i as int)),
        decreases n - i,
    {
        let sz = sizes[i];
        proof {
            assert(sizes@.subrange(0, i + 1 as int).drop_last() =~= sizes@.subrange(0, i as int));
            assert(sizes@.subrange(0, i + 1 as int).last() == sz);
        }
        acc = if acc > u64::MAX - sz {
            u64::MAX
        } else {
            acc + sz
        };
        i = i + 1;
    }
    proof {
        assert(sizes@.subrange(0, n as int) =~= sizes@);
    }
    acc
}

/// The greeting the UI shows on its probe call.
pub fn greet(name: &str) -> (r: String)
    ensures
        r@ == "Hello, "@ + name@ + "! You've been greeted from Rust!"@,
{
    let hello = String::from_str("Hello, ");
    let with_name = hello.concat(name);
    with_name.concat("! You've been greeted from Rust!")
}

} // verus!
