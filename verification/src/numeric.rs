//! Numbers as text: reading an unsigned number in a given radix, and writing
//! one in decimal.

use vstd::prelude::*;
use crate::text::push_char;

verus! {

/// The value of a digit in the given radix, if the character is one. Letters
/// count from ten, in either case.
pub open spec fn digit_value(c: char, radix: int) -> Option<int> {
    let v: int = if '0' <= c <= '9' {
        c as int - '0' as int
    } else if 'a' <= c <= 'z' {
        c as int - 'a' as int + 10
    } else if 'A' <= c <= 'Z' {
        c as int - 'A' as int + 10
    } else {
        radix
    };
    if v < radix {
        Some(v)
    } else {
        None
    }
}

/// Whether every character is a digit in the given radix.
pub open spec fn all_digits(d: Seq<char>, radix: int) -> bool {
    forall|i: int| 0 <= i < d.len() ==> digit_value(#[trigger] d[i], radix) is Some
}

/// The number that a sequence of digits denotes in the given radix.
pub open spec fn digits_value(d: Seq<char>, radix: int) -> int
    decreases d.len(),
{
    if d.len() == 0 {
        0
    } else {
        digits_value(d.drop_last(), radix) * radix + digit_value(d.last(), radix).unwrap()
    }
}

/// The digits of a number's text: what follows one optional leading `+`.
pub open spec fn digits_of(s: Seq<char>) -> Seq<char> {
    if s.len() > 0 && s[0] == '+' {
        s.skip(1)
    } else {
        s
    }
}

/// The unsigned number that a text denotes in the given radix, where it
/// denotes one that is at most `max`: an optional `+`, then at least one
/// digit and nothing else.
pub open spec fn unsigned(s: Seq<char>, radix: int, max: int) -> Option<int> {
    let d = digits_of(s);
    if d.len() > 0 && all_digits(d, radix) && digits_value(d, radix) <= max {
        Some(digits_value(d, radix))
    } else {
        None
    }
}

/// A number does not shrink when digits are added to its text.
pub proof fn lemma_digits_value_grows(d: Seq<char>, radix: int, k: int)
    requires
        radix >= 1,
        all_digits(d, radix),
        0 <= k <= d.len(),
    ensures
        0 <= digits_value(d.take(k), radix) <= digits_value(d, radix),
    decreases d.len() - k,
{
    lemma_digits_value_nonnegative(d.take(k), radix);
    if k < d.len() {
        lemma_digits_value_grows(d, radix, k + 1);
        let e = d.take(k + 1);
        assert(e.drop_last() == d.take(k));
        let p = digits_value(d.take(k), radix);
        let v = digit_value(e.last(), radix).unwrap();
        assert(e.last() == d[k]);
        assert(p * radix + v >= p) by (nonlinear_arith)
            requires
                p >= 0,
                radix >= 1,
                v >= 0,
        ;
    } else {
        assert(d.take(k) == d);
    }
}

/// A sequence of digits denotes no negative number.
pub proof fn lemma_digits_value_nonnegative(d: Seq<char>, radix: int)
    requires
        radix >= 1,
        all_digits(d, radix),
    ensures
        digits_value(d, radix) >= 0,
    decreases d.len(),
{
    if d.len() > 0 {
        assert(all_digits(d.drop_last(), radix)) by {
            assert forall|i: int| 0 <= i < d.drop_last().len() implies digit_value(
                #[trigger] d.drop_last()[i],
                radix,
            ) is Some by {
                assert(d.drop_last()[i] == d[i]);
            }
        }
        lemma_digits_value_nonnegative(d.drop_last(), radix);
        let p = digits_value(d.drop_last(), radix);
        assert(digit_value(d.last(), radix) is Some);
        assert(p * radix >= 0) by (nonlinear_arith)
            requires
                p >= 0,
                radix >= 1,
        ;
    }
}

/// The value of a digit in the given radix, if the character is one. The
/// radix is at least 2 and at most 36, the number of digits and letters.
pub fn digit(c: char, radix: u8) -> (r: Option<u8>)
    requires
        2 <= radix <= 36,
    ensures
        match r {
            Some(v) => digit_value(c, radix as int) == Some(v as int),
            None => digit_value(c, radix as int) is None,
        },
{
    let v: u8 = if '0' <= c && c <= '9' {
        (c as u8) - 48
    } else if 'a' <= c && c <= 'z' {
        (c as u8) - 97 + 10
    } else if 'A' <= c && c <= 'Z' {
        (c as u8) - 65 + 10
    } else {
        radix
    };
    if v < radix {
        Some(v)
    } else {
        None
    }
}

/// Reads an unsigned number of at most `max` in the given radix, which is at
/// least 2 and at most 36.
pub fn parse_unsigned(s: &[char], radix: u8, max: u64) -> (r: Option<u64>)
    requires
        2 <= radix <= 36,
    ensures
        match r {
            Some(v) => unsigned(s@, radix as int, max as int) == Some(v as int),
            None => unsigned(s@, radix as int, max as int) is None,
        },
{
    let start: usize = if s.len() > 0 && s[0] == '+' {
        1
    } else {
        0
    };
    let ghost d = digits_of(s@);
    proof {
        assert(d == s@.skip(start as int));
    }
    if start == s.len() {
        return None;
    }
    let mut acc: u64 = 0;
    let mut i: usize = start;
    while i < s.len()
        invariant
            start <= i <= s.len(),
            2 <= radix <= 36,
            d == s@.skip(start as int),
            d == digits_of(s@),
            all_digits(d.take(i - start), radix as int),
            acc == digits_value(d.take(i - start), radix as int),
            acc <= max,
        decreases s.len() - i,
    {
        let ghost k = i - start;
        proof {
            assert(d[k] == s@[i as int]);
            assert(d.take(k + 1).drop_last() == d.take(k));
            assert(d.take(k + 1).last() == d[k]);
        }
        match digit(s[i], radix) {
            None => {
                proof {
                    assert(digit_value(d[k], radix as int) is None);
                }
                return None;
            },
            Some(v) => {
                proof {
                    assert(acc * radix <= 0xffff_ffff_ffff_ffff * 36) by (nonlinear_arith)
                        requires
                            0 <= acc <= 0xffff_ffff_ffff_ffff,
                            0 <= radix <= 36,
                    ;
                }
                let next: u128 = (acc as u128) * (radix as u128) + (v as u128);
                proof {
                    assert(all_digits(d.take(k + 1), radix as int)) by {
                        assert forall|j: int| 0 <= j < k + 1 implies digit_value(
                            #[trigger] d.take(k + 1)[j],
                            radix as int,
                        ) is Some by {
                            if j < k {
                                assert(d.take(k + 1)[j] == d.take(k)[j]);
                            }
                        }
                    }
                    assert(next == digits_value(d.take(k + 1), radix as int));
                }
                if next > max as u128 {
                    proof {
                        if all_digits(d, radix as int) {
                            lemma_digits_value_grows(d, radix as int, k + 1);
                        }
                    }
                    return None;
                }
                acc = next as u64;
            },
        }
        i += 1;
    }
    proof {
        assert(d.take(i - start) == d);
    }
    Some(acc)
}

/// The character of a decimal digit.
pub open spec fn digit_char(d: int) -> char {
    (d + 48) as u8 as char
}

/// The decimal text of a number, without leading zeros.
pub open spec fn decimal_text(n: nat) -> Seq<char>
    decreases n,
{
    if n < 10 {
        seq![digit_char(n as int)]
    } else {
        decimal_text(n / 10).push(digit_char((n % 10) as int))
    }
}

/// Appends the decimal text of `n` to `out`.
pub fn push_decimal(out: &mut String, n: u64)
    ensures
        final(out)@ == old(out)@ + decimal_text(n as nat),
    decreases n,
{
    if n >= 10 {
        push_decimal(out, n / 10);
    }
    push_char(out, ((n % 10) as u8 + 48) as char);
}

/// The decimal text of `n`.
pub fn decimal(n: u64) -> (out: String)
    ensures
        out@ == decimal_text(n as nat),
{
    let mut out = String::new();
    push_decimal(&mut out, n);
    out
}

} // verus!
