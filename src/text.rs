//! Decimal text of integers, in both directions.
use vstd::prelude::*;

verus! {

/// The character of a decimal digit.
pub open spec fn digit_char(d: int) -> char {
    if d == 0 { '0' }
    else if d == 1 { '1' }
    else if d == 2 { '2' }
    else if d == 3 { '3' }
    else if d == 4 { '4' }
    else if d == 5 { '5' }
    else if d == 6 { '6' }
    else if d == 7 { '7' }
    else if d == 8 { '8' }
    else { '9' }
}

/// Shortest decimal text of a natural number, without sign or leading zeros.
pub open spec fn decimal_text(n: nat) -> Seq<char>
    decreases n,
{
    if n < 10 {
        seq![digit_char(n as int)]
    } else {
        decimal_text(n / 10).push(digit_char((n % 10) as int))
    }
}

pub open spec fn is_digit(c: char) -> bool {
    '0' <= c && c <= '9'
}

pub open spec fn digit_value(c: char) -> int {
    (c as u32) as int - ('0' as u32) as int
}

/// Non-empty and made of decimal digits only.
pub open spec fn all_digits(s: Seq<char>) -> bool {
    s.len() > 0 && forall|i: int| 0 <= i < s.len() ==> is_digit(#[trigger] s[i])
}

/// Value of a string of decimal digits (leading zeros allowed).
pub open spec fn digits_value(s: Seq<char>) -> int
    decreases s.len(),
{
    if s.len() == 0 {
        0
    } else {
        digits_value(s.drop_last()) * 10 + digit_value(s.last())
    }
}

/// The integer that a decimal text denotes: an optional `+` or `-`, then one or more digits.
pub open spec fn signed_decimal(s: Seq<char>) -> Option<int> {
    if s.len() > 0 && s[0] == '-' && all_digits(s.drop_first()) {
        Some(-digits_value(s.drop_first()))
    } else if s.len() > 0 && s[0] == '+' && all_digits(s.drop_first()) {
        Some(digits_value(s.drop_first()))
    } else if all_digits(s) {
        Some(digits_value(s))
    } else {
        None
    }
}

/// What parsing a decimal text as an `i64` gives: the value where the text is well formed and
/// the value fits, nothing otherwise.
pub open spec fn parsed_i64(s: Seq<char>) -> Option<i64> {
    match signed_decimal(s) {
        Some(v) => if i64::MIN <= v <= i64::MAX { Some(v as i64) } else { None },
        None => None,
    }
}

fn digit_str(d: u64) -> (r: &'static str)
    requires
        d < 10,
    ensures
        r@ == seq![digit_char(d as int)],
{
    proof {
        reveal_strlit("0");
        reveal_strlit("1");
        reveal_strlit("2");
        reveal_strlit("3");
        reveal_strlit("4");
        reveal_strlit("5");
        reveal_strlit("6");
        reveal_strlit("7");
        reveal_strlit("8");
        reveal_strlit("9");
    }
    match d {
        0 => "0",
        1 => "1",
        2 => "2",
        3 => "3",
        4 => "4",
        5 => "5",
        6 => "6",
        7 => "7",
        8 => "8",
        _ => "9",
    }
}

/// Decimal text of `n`.
pub fn decimal(n: u64) -> (r: String)
    ensures
        r@ == decimal_text(n as nat),
    decreases n,
{
    if n < 10 {
        String::from_str(digit_str(n))
    } else {
        let mut s = decimal(n / 10);
        s.append(digit_str(n % 10));
        s
    }
}

const CAP: u64 = 0x8000_0000_0000_0001;

proof fn lemma_digits_nonneg(s: Seq<char>)
    requires
        forall|i: int| 0 <= i < s.len() ==> is_digit(#[trigger] s[i]),
    ensures
        digits_value(s) >= 0,
    decreases s.len(),
{
    if s.len() > 0 {
        assert(is_digit(s[s.len() - 1]));
        lemma_digits_nonneg(s.drop_last());
    }
}

/// Reads the digits of `s` from `start` on; the value, capped at `CAP`, and whether all were digits.
fn read_digits(s: &str, start: usize) -> (r: (bool, u64))
    requires
        start <= s@.len(),
        s@.len() < usize::MAX,
    ensures
        r.0 == all_digits(s@.subrange(start as int, s@.len() as int)),
        r.0 ==> r.1 as int == if digits_value(s@.subrange(start as int, s@.len() as int)) < CAP as int {
            digits_value(s@.subrange(start as int, s@.len() as int))
        } else {
            CAP as int
        },
{
    let len = s.unicode_len();
    if start >= len {
        return (false, 0);
    }
    let mut i: usize = start;
    let mut acc: u64 = 0;
    while i < len
        invariant
            start <= i <= len,
            len == s@.len(),
            forall|k: int| start <= k < i ==> is_digit(#[trigger] s@[k]),
            acc as int == if digits_value(s@.subrange(start as int, i as int)) < CAP as int {
                digits_value(s@.subrange(start as int, i as int))
            } else {
                CAP as int
            },
        decreases len - i,
    {
        let c = s.get_char(i);
        if !('0' <= c && c <= '9') {
            assert(!is_digit(s@.subrange(start as int, len as int)[i - start]));
            return (false, 0);
        }
        let d = (c as u32 - '0' as u32) as u64;
        let ghost prev = s@.subrange(start as int, i as int);
        let ghost next = s@.subrange(start as int, i + 1);
        assert(next.drop_last() =~= prev);
        assert(next.last() == c);
        proof {
            assert forall|k: int| 0 <= k < prev.len() implies is_digit(#[trigger] prev[k]) by {
                assert(prev[k] == s@[start + k]);
            }
            lemma_digits_nonneg(prev);
        }
        let ghost v = digits_value(prev);
        assert(digits_value(next) == v * 10 + d);
        if acc >= CAP / 10 + 1 {
            assert(v >= CAP as int / 10 + 1);
            assert(v * 10 + d >= CAP as int) by (nonlinear_arith)
                requires v >= CAP as int / 10 + 1, d >= 0;
            acc = CAP;
        } else {
            let t = acc * 10 + d;
            if t >= CAP {
                acc = CAP;
            } else {
                acc = t;
            }
        }
        i = i + 1;
    }
    assert(s@.subrange(start as int, len as int).len() > 0);
    (true, acc)
}

/// Parses a decimal integer with an optional sign, as `str::parse::<i64>` does.
pub fn parse_i64(s: &str) -> (r: Option<i64>)
    requires
        s@.len() < usize::MAX,
    ensures
        r == parsed_i64(s@),
{
    let len = s.unicode_len();
    if len == 0 {
        return None;
    }
    let first = s.get_char(0);
    if first == '-' || first == '+' {
        let (ok, mag) = read_digits(s, 1);
        assert(s@.drop_first() =~= s@.subrange(1, len as int));
        if !ok {
            return None;
        }
        if first == '-' {
            if mag <= 0x8000_0000_0000_0000 {
                if mag == 0x8000_0000_0000_0000 {
                    Some(i64::MIN)
                } else {
                    Some(-(mag as i64))
                }
            } else {
                None
            }
        } else if mag <= 0x7fff_ffff_ffff_ffff {
            Some(mag as i64)
        } else {
            None
        }
    } else {
        let (ok, mag) = read_digits(s, 0);
        assert(s@ =~= s@.subrange(0, len as int));
        if ok && mag <= 0x7fff_ffff_ffff_ffff {
            Some(mag as i64)
        } else {
            None
        }
    }
}

/// `a` followed by `b`.
pub fn concat(a: &str, b: &str) -> (r: String)
    ensures
        r@ == a@ + b@,
{
    let mut s = String::from_str(a);
    s.append(b);
    s
}

/// `a`, `b` and `c`, one after the other.
pub fn concat3(a: &str, b: &str, c: &str) -> (r: String)
    ensures
        r@ == a@ + b@ + c@,
{
    let mut s = String::from_str(a);
    s.append(b);
    s.append(c);
    s
}

/// A copy of an optional string.
pub fn copy_opt(o: &Option<String>) -> (r: Option<String>)
    ensures
        r == *o,
{
    match o {
        Some(s) => Some(s.clone()),
        None => None,
    }
}

} // verus!
