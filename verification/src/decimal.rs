//! Decimal text for unsigned 64-bit integers: rendering a value to its
//! digits, and parsing a digit string back, with overflow rejected rather
//! than wrapped.

use vstd::prelude::*;
use vstd::string::StrSliceExecFns;
use vstd::string::StringExecFns;

verus! {

/// The decimal digit of value `n`.
pub open spec fn dec_digit_char(n: int) -> char
    recommends
        0 <= n < 10,
{
    if n == 0 { '0' }
    else if n == 1 { '1' }
    else if n == 2 { '2' }
    else if n == 3 { '3' }
    else if n == 4 { '4' }
    else if n == 5 { '5' }
    else if n == 6 { '6' }
    else if n == 7 { '7' }
    else if n == 8 { '8' }
    else { '9' }
}

/// The decimal digits of `n`, most significant first, with no sign and no
/// leading zero except for zero itself.
pub open spec fn dec_digits(n: nat) -> Seq<char>
    decreases n,
{
    if n < 10 {
        seq![dec_digit_char(n as int)]
    } else {
        dec_digits(n / 10).push(dec_digit_char((n % 10) as int))
    }
}

/// Whether `c` is a decimal digit.
pub open spec fn is_dec_digit(c: char) -> bool {
    '0' as u32 <= c as u32 && c as u32 <= '9' as u32
}

/// The numeric value of a decimal digit; other characters count zero.
pub open spec fn dec_digit_val(c: char) -> nat {
    if is_dec_digit(c) {
        (c as u32 - '0' as u32) as nat
    } else {
        0
    }
}

/// A leading plus sign, removed if present.
pub open spec fn strip_plus(s: Seq<char>) -> Seq<char> {
    if s.len() >= 1 && s[0] == '+' {
        s.skip(1)
    } else {
        s
    }
}

/// The number a digit string denotes, read left to right.
pub open spec fn dec_value(s: Seq<char>) -> nat
    decreases s.len(),
{
    if s.len() == 0 {
        0
    } else {
        dec_value(s.drop_last()) * 10 + dec_digit_val(s.last())
    }
}

/// Whether `s` parses as a `u64`: an optional leading plus, then at least
/// one decimal digit, denoting a value that fits in 64 bits.
pub open spec fn dec_parse_ok(s: Seq<char>) -> bool {
    let t = strip_plus(s);
    &&& t.len() > 0
    &&& forall|i: int| 0 <= i < t.len() ==> is_dec_digit(#[trigger] t[i])
    &&& dec_value(t) <= u64::MAX
}

/// A longer digit string never denotes a smaller number.
proof fn lemma_dec_value_take_monotone(s: Seq<char>, k: int)
    requires
        0 <= k <= s.len(),
    ensures
        dec_value(s.take(k)) <= dec_value(s),
    decreases s.len() - k,
{
    if k < s.len() {
        lemma_dec_value_take_monotone(s, k + 1);
        assert(s.take(k + 1).drop_last() =~= s.take(k));
        assert(dec_value(s.take(k + 1)) == dec_value(s.take(k)) * 10 + dec_digit_val(s.take(k + 1).last()));
    } else {
        assert(s.take(k) =~= s);
    }
}

/// Law: the decimal rendering of any number is at least one digit, all
/// of them decimal digits and none a sign, and reads back to exactly
/// that number; so a rendered `u64` always parses, to the value it was
/// rendered from.
pub proof fn lemma_dec_round_trip(n: nat)
    ensures
        dec_digits(n).len() >= 1,
        forall|i: int| 0 <= i < dec_digits(n).len() ==> is_dec_digit(#[trigger] dec_digits(n)[i]),
        strip_plus(dec_digits(n)) == dec_digits(n),
        dec_value(dec_digits(n)) == n,
    decreases n,
{
    if n < 10 {
        let s = dec_digits(n);
        assert(s.len() == 1 && s.last() == dec_digit_char(n as int));
        assert(s.drop_last().len() == 0);
        assert(dec_value(s.drop_last()) == 0);
        assert(dec_value(s) == dec_value(s.drop_last()) * 10 + dec_digit_val(s.last()));
    } else {
        lemma_dec_round_trip(n / 10);
        let pre = dec_digits(n / 10);
        let c = dec_digit_char((n % 10) as int);
        assert(dec_digits(n).drop_last() =~= pre);
        assert(dec_value(dec_digits(n)) == dec_value(pre) * 10 + dec_digit_val(c));
        assert((n / 10) * 10 + n % 10 == n);
    }
}

/// The single-character string of one decimal digit.
fn digit_str(d: u64) -> (r: &'static str)
    requires
        d < 10,
    ensures
        r@ =~= seq![dec_digit_char(d as int)],
{
    proof {
        reveal_strlit("0");
        reveal_strlit("1");
        reveal_strlit("2");
        reveal_strlit("3");
        reveal_strlit("4");
        reveal_strlit("5");
        reveal_strlit("6");
        reveal_strlit("7");
        reveal_strlit("8");
        reveal_strlit("9");
    }
    match d {
        0 => "0",
        1 => "1",
        2 => "2",
        3 => "3",
        4 => "4",
        5 => "5",
        6 => "6",
        7 => "7",
        8 => "8",
        _ => "9",
    }
}

/// Renders `n` as its decimal digits.
pub fn u64_to_dec(n: u64) -> (r: String)
    ensures
        r@ == dec_digits(n as nat),
    decreases n,
{
    if n < 10 {
        digit_str(n).to_owned()
    } else {
        let mut prefix = u64_to_dec(n / 10);
        prefix.append(digit_str(n % 10));
        proof {
            assert(prefix@ =~= dec_digits((n / 10) as nat).push(dec_digit_char((n % 10) as int)));
        }
        prefix
    }
}

/// Parses a decimal string as a `u64`.  Succeeds exactly on an optional
/// leading plus followed by at least one decimal digit whose value fits in
/// 64 bits, and returns that value; anything else — an empty string, a
/// stray character, or a value past `u64::MAX` — yields `None`.
pub fn parse_u64(s: &String) -> (r: Option<u64>)
    ensures
        r is Some <==> dec_parse_ok(s@),
        r matches Some(v) ==> v as nat == dec_value(strip_plus(s@)),
{
    let t: &str = s.as_str();
    let len = t.unicode_len();
    let mut start: usize = 0;
    if len >= 1 && t.get_char(0) == '+' {
        start = 1;
    }
    let ghost digits = strip_plus(s@);
    proof {
        assert(digits =~= s@.skip(start as int));
    }
    if start >= len {
        return None;
    }
    let mut val: u64 = 0;
    let mut i: usize = start;
    while i < len
        invariant
            start <= i <= len,
            len == s@.len(),
            t@ == s@,
            digits == s@.skip(start as int),
            digits == strip_plus(s@),
            start < len,
            forall|j: int| 0 <= j < i - start ==> is_dec_digit(#[trigger] digits[j]),
            val as nat == dec_value(digits.take(i - start)),
        decreases len - i,
    {
        let c = t.get_char(i);
        let cu: u32 = c as u32;
        proof {
            assert(digits[i - start] == s@[i as int]);
            assert(digits.take(i + 1 - start).drop_last() =~= digits.take(i - start));
        }
        if cu < 48 || cu > 57 {
            proof {
                assert(!is_dec_digit(digits[i - start]));
            }
            return None;
        }
        let d: u64 = (cu - 48) as u64;
        proof {
            assert('0' as u32 == 48 && '9' as u32 == 57);
            assert(d as nat == dec_digit_val(digits[i - start]));
        }
        if val > (u64::MAX - d) / 10 {
            proof {
                assert(val * 10 + d > u64::MAX) by (nonlinear_arith)
                    requires
                        val > (u64::MAX - d) / 10,
                        d <= 9,
                ;
                assert(dec_value(digits.take(i + 1 - start)) == val * 10 + d);
                lemma_dec_value_take_monotone(digits, i + 1 - start);
            }
            return None;
        }
        proof {
            assert(val * 10 + d <= u64::MAX) by (nonlinear_arith)
                requires
                    val <= (u64::MAX - d) / 10,
                    d <= 9,
            ;
        }
        val = val * 10 + d;
        i = i + 1;
    }
    proof {
        assert(digits.take(len - start) =~= digits);
    }
    Some(val)
}

} // verus!
