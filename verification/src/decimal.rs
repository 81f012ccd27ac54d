//! Decimal numerals: how the library writes integers into headers and
//! bodies, and how it reads a length back from a header.

use crate::text::string_of;
use vstd::prelude::*;

verus! {

/// Whether `c` is one of the ten ASCII digits.
pub open spec fn is_digit(c: char) -> bool {
    '0' <= c <= '9'
}

/// The digit character for `d`, where `d` is below ten.
pub open spec fn digit_char(d: nat) -> char {
    (d + 48) as char
}

/// The value of the digit `c`; 0 for any other character.
pub open spec fn digit_value(c: char) -> nat {
    if is_digit(c) {
        (c as int - 48) as nat
    } else {
        0
    }
}

/// The decimal numeral of `n`: no sign, no leading zero but for 0 itself.
pub open spec fn decimal(n: nat) -> Seq<char>
    decreases n,
{
    if n < 10 {
        seq![digit_char(n)]
    } else {
        decimal(n / 10).push(digit_char(n % 10))
    }
}

/// The decimal numeral of `n`, with a minus sign before it when `n` is
/// negative.
pub open spec fn signed_decimal(n: int) -> Seq<char> {
    if n < 0 {
        seq!['-'] + decimal((-n) as nat)
    } else {
        decimal(n as nat)
    }
}

/// Whether `s` holds digits only.
pub open spec fn all_digits(s: Seq<char>) -> bool {
    forall|i: int| 0 <= i < s.len() ==> is_digit(#[trigger] s[i])
}

/// The number that the digits of `s` spell, most significant first.
pub open spec fn number(s: Seq<char>) -> nat
    decreases s.len(),
{
    if s.len() == 0 {
        0
    } else {
        number(s.drop_last()) * 10 + digit_value(s.last())
    }
}

/// `s` without the plus sign that it may begin with.
pub open spec fn unsigned_part(s: Seq<char>) -> Seq<char> {
    if s.len() > 0 && s[0] == '+' {
        s.skip(1)
    } else {
        s
    }
}

/// The number that the numeral `s` denotes, if it is one and denotes at most
/// `max`: an optional plus sign, then one digit or more.
pub open spec fn parse_decimal(s: Seq<char>, max: nat) -> Option<nat> {
    let body = unsigned_part(s);
    if body.len() > 0 && all_digits(body) && number(body) <= max {
        Some(number(body))
    } else {
        None
    }
}

/// A numeral written by `decimal` is made of digits and spells its number.
pub proof fn lemma_decimal_digits(n: nat)
    ensures
        decimal(n).len() > 0,
        all_digits(decimal(n)),
        number(decimal(n)) == n,
    decreases n,
{
    if n < 10 {
        assert(decimal(n).drop_last() =~= Seq::<char>::empty());
        assert(number(decimal(n).drop_last()) == 0);
    } else {
        lemma_decimal_digits(n / 10);
        assert(decimal(n).drop_last() =~= decimal(n / 10));
    }
}

/// Reading back what `decimal` wrote gives the number that was written.
pub proof fn lemma_parse_decimal_roundtrip(n: nat, max: nat)
    requires
        n <= max,
    ensures
        parse_decimal(decimal(n), max) == Some(n),
{
    lemma_decimal_digits(n);
    assert(is_digit(decimal(n)[0]));
}

/// A prefix of a numeral spells no more than the whole.
pub proof fn lemma_number_prefix(s: Seq<char>, k: int)
    requires
        0 <= k <= s.len(),
    ensures
        number(s.take(k)) <= number(s),
    decreases s.len() - k,
{
    if k < s.len() {
        lemma_number_prefix(s, k + 1);
        assert(s.take(k + 1).drop_last() =~= s.take(k));
    } else {
        assert(s.take(k) =~= s);
    }
}

/// Appends the decimal numeral of `n` to `out`.
pub fn push_decimal(out: &mut Vec<char>, n: u64)
    ensures
        final(out)@ == old(out)@ + decimal(n as nat),
    decreases n,
{
    if n >= 10 {
        push_decimal(out, n / 10);
    }
    let d: u8 = (n % 10) as u8;
    let c: char = (d + 48) as char;
    out.push(c);
    proof {
        assert(c == digit_char((n % 10) as nat));
        if n < 10 {
            assert(final(out)@ =~= old(out)@ + decimal(n as nat));
        } else {
            assert(final(out)@ =~= old(out)@ + decimal(n as nat));
        }
    }
}

/// Writes `n` as a decimal numeral.
pub fn format_u64(n: u64) -> (out: String)
    ensures
        out@ == decimal(n as nat),
{
    let mut digits: Vec<char> = Vec::new();
    push_decimal(&mut digits, n);
    string_of(digits.as_slice())
}

/// Writes `n` as a decimal numeral.
pub fn format_usize(n: usize) -> (out: String)
    ensures
        out@ == decimal(n as nat),
{
    format_u64(n as u64)
}

/// Writes `n` as a decimal numeral, with a minus sign when it is negative.
pub fn format_i32(n: i32) -> (out: String)
    ensures
        out@ == signed_decimal(n as int),
{
    let mut digits: Vec<char> = Vec::new();
    if n < 0 {
        digits.push('-');
        let wide: i64 = n as i64;
        push_decimal(&mut digits, (0 - wide) as u64);
    } else {
        push_decimal(&mut digits, n as u64);
    }
    string_of(digits.as_slice())
}

/// Reads the numeral `s` as a `usize`. `None` when `s` is no numeral or
/// denotes a number that a `usize` cannot hold.
pub fn parse_usize(s: &[char]) -> (out: Option<usize>)
    ensures
        match out {
            Some(n) => parse_decimal(s@, usize::MAX as nat) == Some(n as nat),
            None => parse_decimal(s@, usize::MAX as nat) is None,
        },
{
    let start: usize = if s.len() > 0 && s[0] == '+' {
        1
    } else {
        0
    };
    let ghost body = unsigned_part(s@);
    proof {
        assert(body =~= s@.skip(start as int));
    }
    if start >= s.len() {
        return None;
    }
    let mut acc: usize = 0;
    let mut i: usize = start;
    proof {
        assert(number(body.take(0)) == 0);
    }
    while i < s.len()
        invariant
            start <= i <= s@.len(),
            body == unsigned_part(s@),
            body == s@.skip(start as int),
            body.len() > 0,
            all_digits(body.take(i - start)),
            acc == number(body.take(i - start)),
        decreases s@.len() - i,
    {
        let c = s[i];
        let ghost seen = body.take(i - start);
        let ghost next = body.take(i - start + 1);
        proof {
            assert(next.drop_last() =~= seen);
            assert(next.last() == c);
        }
        if c < '0' || c > '9' {
            proof {
                assert(!is_digit(body[i - start]));
            }
            return None;
        }
        let d: usize = (c as u8 - 48) as usize;
        if acc > (usize::MAX - d) / 10 {
            proof {
                lemma_number_prefix(body, i - start + 1);
            }
            return None;
        }
        acc = acc * 10 + d;
        i += 1;
        proof {
            assert forall|j: int| 0 <= j < next.len() implies is_digit(#[trigger] next[j]) by {
                if j < seen.len() {
                    assert(next[j] == seen[j]);
                }
            }
        }
    }
    proof {
        assert(body.take(i - start) =~= body);
    }
    Some(acc)
}

} // verus!
