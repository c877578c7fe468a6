//! Decimal text of unsigned numbers: writing it, and reading it back as
//! `str::parse::<u32>` does.
use vstd::prelude::*;

verus! {

/// The character of a decimal digit.
pub open spec fn digit_char(d: int) -> char {
    (d + 48) as char
}

/// Whether `c` is one of `0` to `9`.
pub open spec fn is_digit(c: char) -> bool {
    48 <= c as int <= 57
}

/// Whether every character of `s` is a decimal digit.
pub open spec fn all_digits(s: Seq<char>) -> bool {
    forall|i: int| 0 <= i < s.len() ==> is_digit(#[trigger] s[i])
}

/// The number that a string of decimal digits denotes.
pub open spec fn digits_value(s: Seq<char>) -> nat
    decreases s.len(),
{
    if s.len() == 0 {
        0
    } else {
        digits_value(s.drop_last()) * 10 + (s.last() as int - 48) as nat
    }
}

/// The decimal text of `n`, without leading zeros.
pub open spec fn decimal(n: nat) -> Seq<char>
    decreases n,
{
    if n < 10 {
        seq![digit_char(n as int)]
    } else {
        decimal(n / 10).push(digit_char((n % 10) as int))
    }
}

/// The digits that `u32` parsing reads: one leading `+` is allowed.
pub open spec fn unsigned_digits(s: Seq<char>) -> Seq<char> {
    if s.len() > 0 && s[0] == '+' {
        s.drop_first()
    } else {
        s
    }
}

/// What parsing `s` as a `u32` gives: an optional `+`, then at least one
/// decimal digit and nothing else, denoting a value that fits in 32 bits.
pub open spec fn u32_from_text(s: Seq<char>) -> Option<u32> {
    let d = unsigned_digits(s);
    if d.len() > 0 && all_digits(d) && digits_value(d) <= u32::MAX {
        Some(digits_value(d) as u32)
    } else {
        None
    }
}

/// The text of one decimal digit.
fn digit_text(d: u32) -> (t: &'static str)
    requires
        d < 10,
    ensures
        t@ == seq![digit_char(d as int)],
{
    match d {
        0 => {
            proof {
                reveal_strlit("0");
            }
            "0"
        },
        1 => {
            proof {
                reveal_strlit("1");
            }
            "1"
        },
        2 => {
            proof {
                reveal_strlit("2");
            }
            "2"
        },
        3 => {
            proof {
                reveal_strlit("3");
            }
            "3"
        },
        4 => {
            proof {
                reveal_strlit("4");
            }
            "4"
        },
        5 => {
            proof {
                reveal_strlit("5");
            }
            "5"
        },
        6 => {
            proof {
                reveal_strlit("6");
            }
            "6"
        },
        7 => {
            proof {
                reveal_strlit("7");
            }
            "7"
        },
        8 => {
            proof {
                reveal_strlit("8");
            }
            "8"
        },
        _ => {
            proof {
                reveal_strlit("9");
            }
            "9"
        },
    }
}

/// Appends the decimal text of `n` to `out`.
pub fn append_decimal(out: &mut String, n: u32)
    ensures
        final(out)@ == old(out)@ + decimal(n as nat),
    decreases n,
{
    if n >= 10 {
        append_decimal(out, n / 10);
    }
    let t = digit_text(n % 10);
    let ghost before = out@;
    out.append(t);
    proof {
        assert(before + t@ =~= old(out)@ + decimal(n as nat));
    }
}

/// A longer string of digits never denotes less than a prefix of it.
proof fn lemma_digits_value_prefix(s: Seq<char>, k: int)
    requires
        all_digits(s),
        0 <= k <= s.len(),
    ensures
        digits_value(s.take(k)) <= digits_value(s),
    decreases s.len(),
{
    if k < s.len() {
        assert(all_digits(s.drop_last()));
        lemma_digits_value_prefix(s.drop_last(), k);
        assert(s.drop_last().take(k) =~= s.take(k));
    } else {
        assert(s.take(k) =~= s);
    }
}

/// Parses `text[..end]` as a `u32`, as `str::parse::<u32>` does.
pub fn parse_u32_prefix(text: &str, end: usize) -> (r: Option<u32>)
    requires
        end <= text@.len(),
    ensures
        r == u32_from_text(text@.take(end as int)),
{
    let ghost whole = text@.take(end as int);
    let mut start: usize = 0;
    if end > 0 && text.get_char(0) == '+' {
        start = 1;
    }
    let ghost digits = text@.subrange(start as int, end as int);
    assert(unsigned_digits(whole) =~= digits);
    if start == end {
        return None;
    }
    let mut value: u32 = 0;
    let mut k: usize = start;
    assert(text@.subrange(start as int, start as int) =~= Seq::<char>::empty());
    while k < end
        invariant
            start <= k <= end,
            end <= text@.len(),
            digits == text@.subrange(start as int, end as int),
            unsigned_digits(whole) == digits,
            whole == text@.take(end as int),
            all_digits(text@.subrange(start as int, k as int)),
            value as nat == digits_value(text@.subrange(start as int, k as int)),
        decreases end - k,
    {
        let c = text.get_char(k);
        assert(digits[k - start] == c);
        if !('0' <= c && c <= '9') {
            assert(!is_digit(c));
            assert(!all_digits(digits));
            return None;
        }
        let d: u32 = (c as u32) - 48;
        let ghost next = text@.subrange(start as int, k + 1);
        assert(next.drop_last() =~= text@.subrange(start as int, k as int));
        assert(next.last() == c);
        assert(digits_value(next) == value as nat * 10 + d as nat);
        assert(all_digits(next));
        if value > (u32::MAX - d) / 10 {
            proof {
                assert(value as nat * 10 + d as nat > u32::MAX) by (nonlinear_arith)
                    requires
                        value > (u32::MAX - d) / 10,
                        d <= 9,
                ;
                assert(next =~= digits.take(k + 1 - start));
                if all_digits(digits) {
                    lemma_digits_value_prefix(digits, k + 1 - start);
                }
            }
            return None;
        }
        assert(value as nat * 10 + d as nat <= u32::MAX) by (nonlinear_arith)
            requires
                value <= (u32::MAX - d) / 10,
                d <= 9,
        ;
        value = value * 10 + d;
        k = k + 1;
    }
    Some(value)
}

/// The character of a digit is a digit, and neither a sign nor a slash.
proof fn lemma_digit_char(d: int)
    requires
        0 <= d < 10,
    ensures
        digit_char(d) as int == d + 48,
        is_digit(digit_char(d)),
        digit_char(d) != '+',
        digit_char(d) != '/',
{
}

/// Decimal text consists of digits, is never empty, and denotes its number.
pub proof fn lemma_decimal_digits(n: nat)
    ensures
        decimal(n).len() > 0,
        all_digits(decimal(n)),
        digits_value(decimal(n)) == n,
        decimal(n)[0] != '+',
    decreases n,
{
    lemma_digit_char((n % 10) as int);
    if n >= 10 {
        lemma_decimal_digits(n / 10);
        let d = decimal(n);
        assert(d.drop_last() =~= decimal(n / 10));
        assert(d.last() == digit_char((n % 10) as int));
        assert(d[0] == decimal(n / 10)[0]);
        assert(digits_value(d) == (n / 10) * 10 + n % 10);
        assert(n == (n / 10) * 10 + n % 10) by (nonlinear_arith);
    } else {
        lemma_digit_char(n as int);
        assert(decimal(n).drop_last() =~= Seq::<char>::empty());
        assert(digits_value(Seq::<char>::empty()) == 0);
    }
}

/// Parsing the decimal text of a `u32` gives it back.
pub proof fn lemma_decimal_parse_roundtrip(n: u32)
    ensures
        u32_from_text(decimal(n as nat)) == Some(n),
{
    lemma_decimal_digits(n as nat);
}

} // verus!
