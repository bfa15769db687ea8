use vstd::prelude::*;
use crate::text::{find_char, first_index_of};

verus! {

/// `10` raised to `k`.
pub open spec fn pow10(k: nat) -> nat
    decreases k,
{
    if k == 0 {
        1
    } else {
        10 * pow10((k - 1) as nat)
    }
}

/// A decimal digit character.
pub open spec fn is_digit(c: char) -> bool {
    '0' <= c && c <= '9'
}

/// The value of a decimal digit character.
pub open spec fn digit_value(c: char) -> nat {
    (c as u32 - '0' as u32) as nat
}

/// A hexadecimal digit character, in either case.
pub open spec fn is_hex_digit(c: char) -> bool {
    is_digit(c) || ('a' <= c && c <= 'f') || ('A' <= c && c <= 'F')
}

/// The value of a hexadecimal digit character.
pub open spec fn hex_digit_value(c: char) -> nat {
    if is_digit(c) {
        digit_value(c)
    } else if 'a' <= c && c <= 'f' {
        (c as u32 - 'a' as u32 + 10) as nat
    } else {
        (c as u32 - 'A' as u32 + 10) as nat
    }
}

/// A non-empty run of decimal digits.
pub open spec fn is_decimal_text(s: Seq<char>) -> bool {
    s.len() > 0 && forall|i: int| 0 <= i < s.len() ==> is_digit(#[trigger] s[i])
}

/// The number that a run of decimal digits denotes.
pub open spec fn decimal_value(s: Seq<char>) -> nat
    decreases s.len(),
{
    if s.len() == 0 {
        0
    } else {
        decimal_value(s.drop_last()) * 10 + digit_value(s.last())
    }
}

/// A non-empty run of hexadecimal digits.
pub open spec fn is_hex_text(s: Seq<char>) -> bool {
    s.len() > 0 && forall|i: int| 0 <= i < s.len() ==> is_hex_digit(#[trigger] s[i])
}

/// The number that a run of hexadecimal digits denotes.
pub open spec fn hex_value(s: Seq<char>) -> nat
    decreases s.len(),
{
    if s.len() == 0 {
        0
    } else {
        hex_value(s.drop_last()) * 16 + hex_digit_value(s.last())
    }
}

/// `s` starts with the two characters `0x`.
pub open spec fn has_hex_prefix(s: Seq<char>) -> bool {
    s.len() >= 2 && s[0] == '0' && s[1] == 'x'
}

/// What `parse_decimal` returns: the value of a decimal text that fits in 128 bits.
pub open spec fn decimal_u128(s: Seq<char>) -> Option<u128> {
    if is_decimal_text(s) && decimal_value(s) <= u128::MAX {
        Some(decimal_value(s) as u128)
    } else {
        None
    }
}

/// What `parse_hex_quantity` returns: the value of a `0x`-prefixed hexadecimal
/// text that fits in 128 bits.
pub open spec fn hex_quantity_u128(s: Seq<char>) -> Option<u128> {
    let digits = s.subrange(2, s.len() as int);
    if has_hex_prefix(s) && is_hex_text(digits) && hex_value(digits) <= u128::MAX {
        Some(hex_value(digits) as u128)
    } else {
        None
    }
}

proof fn lemma_decimal_prefix_monotone(s: Seq<char>, i: int, j: int)
    requires
        0 <= i <= j <= s.len(),
    ensures
        decimal_value(s.take(i)) <= decimal_value(s.take(j)),
    decreases j - i,
{
    if i < j {
        lemma_decimal_prefix_monotone(s, i, j - 1);
        assert(s.take(j).drop_last() =~= s.take(j - 1));
    }
}

proof fn lemma_hex_prefix_monotone(s: Seq<char>, i: int, j: int)
    requires
        0 <= i <= j <= s.len(),
    ensures
        hex_value(s.take(i)) <= hex_value(s.take(j)),
    decreases j - i,
{
    if i < j {
        lemma_hex_prefix_monotone(s, i, j - 1);
        assert(s.take(j).drop_last() =~= s.take(j - 1));
    }
}

/// Reads a run of decimal digits as an unsigned number; `None` when the text
/// is empty, holds another character, or denotes a number above `u128::MAX`.
pub fn parse_decimal(s: &str) -> (r: Option<u128>)
    ensures
        r == decimal_u128(s@),
{
    let n = s.unicode_len();
    if n == 0 {
        return None;
    }
    let mut acc: u128 = 0;
    let mut i: usize = 0;
    while i < n
        invariant
            n == s@.len(),
            0 <= i <= n,
            acc == decimal_value(s@.take(i as int)),
            forall|k: int| 0 <= k < i ==> is_digit(#[trigger] s@[k]),
        decreases n - i,
    {
        let c = s.get_char(i);
        assert(s@.take(i as int + 1).drop_last() =~= s@.take(i as int));
        if !('0' <= c && c <= '9') {
            return None;
        }
        let d = (c as u32 - '0' as u32) as u128;
        match acc.checked_mul(10) {
            None => {
                proof {
                    lemma_decimal_prefix_monotone(s@, i as int + 1, n as int);
                    assert(s@.take(n as int) =~= s@);
                }
                return None;
            },
            Some(m) => match m.checked_add(d) {
                None => {
                    proof {
                        lemma_decimal_prefix_monotone(s@, i as int + 1, n as int);
                        assert(s@.take(n as int) =~= s@);
                    }
                    return None;
                },
                Some(v) => {
                    acc = v;
                },
            },
        }
        i = i + 1;
    }
    assert(s@.take(n as int) =~= s@);
    Some(acc)
}

/// Reads a `0x`-prefixed hexadecimal quantity, the shape in which a node
/// reports balances; `None` when the prefix or the digits are missing, a
/// character is not a hexadecimal digit, or the number is above `u128::MAX`.
pub fn parse_hex_quantity(s: &str) -> (r: Option<u128>)
    ensures
        r == hex_quantity_u128(s@),
{
    let n = s.unicode_len();
    if n < 3 || s.get_char(0) != '0' || s.get_char(1) != 'x' {
        return None;
    }
    let ghost digits = s@.subrange(2, n as int);
    let mut acc: u128 = 0;
    let mut i: usize = 2;
    while i < n
        invariant
            n == s@.len(),
            2 <= i <= n,
            digits == s@.subrange(2, n as int),
            acc == hex_value(digits.take(i - 2)),
            forall|k: int| 0 <= k < i - 2 ==> is_hex_digit(#[trigger] digits[k]),
        decreases n - i,
    {
        let c = s.get_char(i);
        let ghost j = i - 2;
        assert(digits[j] == c);
        assert(digits.take(j + 1).drop_last() =~= digits.take(j));
        let d: u128;
        if '0' <= c && c <= '9' {
            d = (c as u32 - '0' as u32) as u128;
        } else if 'a' <= c && c <= 'f' {
            d = (c as u32 - 'a' as u32 + 10) as u128;
        } else if 'A' <= c && c <= 'F' {
            d = (c as u32 - 'A' as u32 + 10) as u128;
        } else {
            return None;
        }
        match acc.checked_mul(16) {
            None => {
                proof {
                    lemma_hex_prefix_monotone(digits, j + 1, digits.len() as int);
                    assert(digits.take(digits.len() as int) =~= digits);
                }
                return None;
            },
            Some(m) => match m.checked_add(d) {
                None => {
                    proof {
                        lemma_hex_prefix_monotone(digits, j + 1, digits.len() as int);
                        assert(digits.take(digits.len() as int) =~= digits);
                    }
                    return None;
                },
                Some(v) => {
                    acc = v;
                },
            },
        }
        i = i + 1;
    }
    assert(digits.take(digits.len() as int) =~= digits);
    Some(acc)
}

/// A decimal number with an optional fractional part (`3456.78`), as the
/// integer of all its digits and the number of digits after the point.
pub open spec fn point_decimal_value(s: Seq<char>) -> Option<(nat, nat)> {
    let p = first_index_of(s, '.') as int;
    if p == s.len() {
        if is_decimal_text(s) {
            Some((decimal_value(s), 0))
        } else {
            None
        }
    } else {
        let whole = s.take(p);
        let frac = s.skip(p + 1);
        if is_decimal_text(whole) && is_decimal_text(frac) {
            Some((decimal_value(whole) * pow10(frac.len()) + decimal_value(frac), frac.len()))
        } else {
            None
        }
    }
}

/// What `parse_point_decimal` returns: the digits' integer when it fits in 128 bits, and the scale.
pub open spec fn point_decimal_u128(s: Seq<char>) -> Option<(u128, nat)> {
    match point_decimal_value(s) {
        Some(v) => if v.0 <= u128::MAX {
            Some((v.0 as u128, v.1))
        } else {
            None
        },
        None => None,
    }
}

/// Powers of ten are positive and grow with the exponent.
pub proof fn lemma_pow10_monotone(i: nat, j: nat)
    requires
        i <= j,
    ensures
        1 <= pow10(i) <= pow10(j),
    decreases j,
{
    if j > 0 {
        if i < j {
            lemma_pow10_monotone(i, (j - 1) as nat);
        } else {
            lemma_pow10_monotone(0, (j - 1) as nat);
        }
    }
}

/// `10` raised to `k`, when it fits in 128 bits.
pub fn checked_pow10(k: usize) -> (r: Option<u128>)
    ensures
        r == if pow10(k as nat) <= u128::MAX {
            Some(pow10(k as nat) as u128)
        } else {
            None::<u128>
        },
{
    let mut acc: u128 = 1;
    let mut i: usize = 0;
    while i < k
        invariant
            i <= k,
            acc == pow10(i as nat),
        decreases k - i,
    {
        match acc.checked_mul(10) {
            Some(v) => {
                acc = v;
            },
            None => {
                proof {
                    lemma_pow10_monotone((i + 1) as nat, k as nat);
                }
                return None;
            },
        }
        i = i + 1;
    }
    Some(acc)
}

/// Reads a decimal number with an optional fractional part, such as an
/// exchange rate, as the integer of all its digits and the count of digits
/// after the point: `3456.78` gives `(345678, 2)`.
pub fn parse_point_decimal(s: &str) -> (r: Option<(u128, usize)>)
    ensures
        match r {
            Some(v) => point_decimal_u128(s@) == Some((v.0, v.1 as nat)),
            None => point_decimal_u128(s@) is None,
        },
{
    let n = s.unicode_len();
    let p = find_char(s, '.');
    if p == n {
        proof {
            assert(s@.take(n as int) =~= s@);
        }
        return match parse_decimal(s) {
            Some(v) => Some((v, 0)),
            None => None,
        };
    }
    let whole_text = s.substring_char(0, p);
    let frac_text = s.substring_char(p + 1, n);
    let ghost whole = s@.take(p as int);
    let ghost frac = s@.skip(p + 1);
    assert(whole_text@ =~= whole);
    assert(frac_text@ =~= frac);
    let k = n - p - 1;
    let ghost m = decimal_value(whole) * pow10(frac.len()) + decimal_value(frac);
    let w = match parse_decimal(whole_text) {
        Some(w) => w,
        None => {
            proof {
                if is_decimal_text(whole) && is_decimal_text(frac) {
                    lemma_pow10_monotone(0, frac.len());
                    assert(decimal_value(whole) * pow10(frac.len()) >= decimal_value(whole))
                        by (nonlinear_arith)
                        requires
                            pow10(frac.len()) >= 1,
                    ;
                }
            }
            return None;
        },
    };
    let f = match parse_decimal(frac_text) {
        Some(f) => f,
        None => {
            proof {
                if is_decimal_text(whole) && is_decimal_text(frac) {
                    assert(decimal_value(whole) * pow10(frac.len()) >= 0) by (nonlinear_arith);
                }
            }
            return None;
        },
    };
    if w == 0 {
        assert(decimal_value(whole) == 0);
        assert(0 * pow10(frac.len()) == 0);
        return Some((f, k));
    }
    let scale = match checked_pow10(k) {
        Some(v) => v,
        None => {
            proof {
                assert(decimal_value(whole) * pow10(frac.len()) >= pow10(frac.len()))
                    by (nonlinear_arith)
                    requires
                        decimal_value(whole) >= 1,
                ;
            }
            return None;
        },
    };
    match w.checked_mul(scale) {
        Some(ws) => match ws.checked_add(f) {
            Some(v) => Some((v, k)),
            None => None,
        },
        None => None,
    }
}

} // verus!
