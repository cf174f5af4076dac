//! Decimal text of integers and booleans, as `Display` writes them, and
//! the decimal reading of `u32` that `str::parse` performs.

use vstd::prelude::*;

verus! {

/// The character of a decimal digit (`d < 10`).
pub open spec fn digit_char(d: nat) -> char {
    if d == 0 { '0' }
    else if d == 1 { '1' }
    else if d == 2 { '2' }
    else if d == 3 { '3' }
    else if d == 4 { '4' }
    else if d == 5 { '5' }
    else if d == 6 { '6' }
    else if d == 7 { '7' }
    else if d == 8 { '8' }
    else { '9' }
}

/// The decimal representation of `n`: most significant digit first, no
/// leading zeros, `"0"` for zero.
pub open spec fn decimal_text(n: nat) -> Seq<char>
    decreases n,
{
    if n < 10 {
        seq![digit_char(n)]
    } else {
        decimal_text(n / 10).push(digit_char(n % 10))
    }
}

/// The decimal representation of a signed integer: a `-` before the
/// digits of its magnitude when it is negative.
pub open spec fn signed_decimal_text(n: int) -> Seq<char> {
    if n < 0 {
        seq!['-'] + decimal_text((-n) as nat)
    } else {
        decimal_text(n as nat)
    }
}

/// `"true"` or `"false"`.
pub open spec fn bool_text(b: bool) -> Seq<char> {
    if b {
        seq!['t', 'r', 'u', 'e']
    } else {
        seq!['f', 'a', 'l', 's', 'e']
    }
}

/// Whether `c` is an ASCII decimal digit.
pub open spec fn is_ascii_digit(c: char) -> bool {
    48 <= (c as u32) && (c as u32) <= 57
}

/// The value of a character that is an ASCII decimal digit.
pub open spec fn digit_value(c: char) -> nat {
    ((c as u32) - 48) as nat
}

/// The number that a sequence of decimal digits spells.
pub open spec fn digits_value(s: Seq<char>) -> nat
    decreases s.len(),
{
    if s.len() == 0 {
        0
    } else {
        digits_value(s.drop_last()) * 10 + digit_value(s.last())
    }
}

/// Whether every character of `s` is an ASCII decimal digit.
pub open spec fn all_digits(s: Seq<char>) -> bool {
    forall|i: int| 0 <= i < s.len() ==> is_ascii_digit(#[trigger] s[i])
}

/// What `s.parse::<u32>()` gives: an optional leading `+`, then one or
/// more ASCII digits whose value fits in a `u32`; anything else fails.
pub open spec fn parsed_u32(s: Seq<char>) -> Option<u32> {
    let digits = if s.len() > 0 && s[0] == '+' { s.drop_first() } else { s };
    if digits.len() > 0 && all_digits(digits) && digits_value(digits) <= u32::MAX {
        Some(digits_value(digits) as u32)
    } else {
        None
    }
}

fn digit_string(d: u64) -> (s: String)
    requires
        d < 10,
    ensures
        s@ == seq![digit_char(d as nat)],
{
    proof {
        reveal_strlit("0");
        reveal_strlit("1");
        reveal_strlit("2");
        reveal_strlit("3");
        reveal_strlit("4");
        reveal_strlit("5");
        reveal_strlit("6");
        reveal_strlit("7");
        reveal_strlit("8");
        reveal_strlit("9");
    }
    if d == 0 {
        String::from_str("0")
    } else if d == 1 {
        String::from_str("1")
    } else if d == 2 {
        String::from_str("2")
    } else if d == 3 {
        String::from_str("3")
    } else if d == 4 {
        String::from_str("4")
    } else if d == 5 {
        String::from_str("5")
    } else if d == 6 {
        String::from_str("6")
    } else if d == 7 {
        String::from_str("7")
    } else if d == 8 {
        String::from_str("8")
    } else {
        String::from_str("9")
    }
}

/// The decimal text of `n`, as `n.to_string()` writes it.
pub fn u64_text(n: u64) -> (s: String)
    ensures
        s@ == decimal_text(n as nat),
{
    let mut s = digit_string(n % 10);
    let mut m: u64 = n / 10;
    while m > 0
        invariant
            m > 0 ==> decimal_text(n as nat) == decimal_text(m as nat) + s@,
            m == 0 ==> decimal_text(n as nat) == s@,
        decreases m,
    {
        let d = digit_string(m % 10);
        let ghost old_s = s@;
        s = d.concat(s.as_str());
        proof {
            if m >= 10 {
                assert(decimal_text(m as nat) == decimal_text((m / 10) as nat).push(
                    digit_char((m % 10) as nat),
                ));
                assert(decimal_text((m / 10) as nat).push(digit_char((m % 10) as nat)) + old_s
                    =~= decimal_text((m / 10) as nat) + s@);
            } else {
                assert(decimal_text(m as nat) == seq![digit_char(m as nat)]);
                assert(seq![digit_char(m as nat)] + old_s =~= s@);
            }
        }
        m = m / 10;
    }
    s
}

/// The decimal text of `n`, as `n.to_string()` writes it.
pub fn u32_text(n: u32) -> (s: String)
    ensures
        s@ == decimal_text(n as nat),
{
    u64_text(n as u64)
}

/// The decimal text of `n`, as `n.to_string()` writes it.
pub fn i32_text(n: i32) -> (s: String)
    ensures
        s@ == signed_decimal_text(n as int),
{
    if n < 0 {
        let magnitude: i64 = -(n as i64);
        let digits = u64_text(magnitude as u64);
        proof {
            reveal_strlit("-");
        }
        String::from_str("-").concat(digits.as_str())
    } else {
        u64_text(n as u64)
    }
}

/// `"true"` or `"false"`, as `b.to_string()` writes it.
pub fn bool_string(b: bool) -> (s: String)
    ensures
        s@ == bool_text(b),
{
    proof {
        reveal_strlit("true");
        reveal_strlit("false");
    }
    if b {
        String::from_str("true")
    } else {
        String::from_str("false")
    }
}

proof fn lemma_digits_value_push(s: Seq<char>, c: char)
    ensures
        digits_value(s.push(c)) == digits_value(s) * 10 + digit_value(c),
{
    assert(s.push(c).drop_last() =~= s);
}

/// Reads `s` as `s.parse::<u32>().ok()` does.
pub fn parse_u32(s: &str) -> (r: Option<u32>)
    ensures
        r == parsed_u32(s@),
{
    let len = s.unicode_len();
    let mut start: usize = 0;
    if len > 0 && s.get_char(0) == '+' {
        start = 1;
    }
    let ghost digits = if s@.len() > 0 && s@[0] == '+' { s@.drop_first() } else { s@ };
    assert(digits =~= s@.subrange(start as int, len as int));
    if start == len {
        return None;
    }
    let mut i: usize = start;
    let mut value: u64 = 0;
    let mut overflow = false;
    while i < len
        invariant
            start <= i <= len,
            len == s@.len(),
            digits =~= s@.subrange(start as int, len as int),
            digits == (if s@.len() > 0 && s@[0] == '+' { s@.drop_first() } else { s@ }),
            all_digits(s@.subrange(start as int, i as int)),
            !overflow ==> value == digits_value(s@.subrange(start as int, i as int)),
            !overflow ==> value <= u32::MAX,
            overflow ==> digits_value(s@.subrange(start as int, i as int)) > u32::MAX,
        decreases len - i,
    {
        let c = s.get_char(i);
        let code = c as u32;
        if code < 48 || code > 57 {
            assert(digits[i - start] == s@[i as int]);
            assert(!is_ascii_digit(digits[i - start]));
            assert(!all_digits(digits));
            return None;
        }
        let ghost prefix = s@.subrange(start as int, i as int);
        assert(s@.subrange(start as int, i + 1) =~= prefix.push(c));
        proof {
            lemma_digits_value_push(prefix, c);
        }
        if !overflow {
            let next: u64 = value * 10 + (code - 48) as u64;
            if next > 4294967295 {
                overflow = true;
            } else {
                value = next;
            }
        }
        i = i + 1;
    }
    assert(s@.subrange(start as int, len as int) =~= digits);
    if overflow {
        None
    } else {
        Some(value as u32)
    }
}

proof fn lemma_digit_char(d: nat)
    requires
        d < 10,
    ensures
        is_ascii_digit(digit_char(d)),
        digit_value(digit_char(d)) == d,
{
}

/// The decimal text of `n` is made of ASCII digits, spells `n`, and has
/// no leading zero (it starts with `0` only for zero itself).
pub proof fn law_decimal_text(n: nat)
    ensures
        decimal_text(n).len() >= 1,
        all_digits(decimal_text(n)),
        digits_value(decimal_text(n)) == n,
        decimal_text(n)[0] == '0' ==> n == 0,
    decreases n,
{
    if n < 10 {
        lemma_digit_char(n);
        let s = decimal_text(n);
        assert(s.drop_last() =~= Seq::<char>::empty());
        assert(digits_value(s.drop_last()) == 0);
        assert(digits_value(s) == digits_value(s.drop_last()) * 10 + digit_value(s.last()));
    } else {
        law_decimal_text(n / 10);
        lemma_digit_char(n % 10);
        let s = decimal_text(n);
        assert(s.drop_last() =~= decimal_text(n / 10));
        assert(s.last() == digit_char(n % 10));
        assert((n / 10) * 10 + n % 10 == n) by (nonlinear_arith);
        assert(digits_value(s) == digits_value(s.drop_last()) * 10 + digit_value(s.last()));
        assert(s[0] == decimal_text(n / 10)[0]);
        assert forall|i: int| 0 <= i < s.len() implies is_ascii_digit(#[trigger] s[i]) by {
            if i < s.len() - 1 {
                assert(s[i] == decimal_text(n / 10)[i]);
            }
        }
    }
}

/// Reading back the decimal text of a `u32` gives that number: what
/// [`u32_text`] writes, [`parse_u32`] reads.
pub proof fn law_decimal_text_reads_back(n: u32)
    ensures
        parsed_u32(decimal_text(n as nat)) == Some(n),
{
    law_decimal_text(n as nat);
    let s = decimal_text(n as nat);
    assert(!is_ascii_digit('+'));
    assert(s[0] != '+') by {
        assert(is_ascii_digit(s[0]));
    }
}

/// The text of a boolean is `"true"` or `"false"`.
pub proof fn law_bool_text(b: bool)
    ensures
        bool_text(b) == (if b { "true"@ } else { "false"@ }),
{
    reveal_strlit("true");
    reveal_strlit("false");
}

} // verus!
