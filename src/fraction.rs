use vstd::prelude::*;
use vstd::arithmetic::div_mod::{lemma_fundamental_div_mod, lemma_fundamental_div_mod_converse, lemma_small_mod};
use crate::numeric::pow10;
use crate::text::{
    decimal_string, decimal_text, digit_char, padded_text, push_decimal, push_padded,
    strip_trailing_zeros,
};

verus! {

/// The text of the first `places` fractional digits of `num / den`, truncated,
/// with trailing zeros removed.
pub open spec fn fraction_digits(num: nat, den: nat, places: nat) -> Seq<char> {
    strip_trailing_zeros(padded_text(((num % den) * pow10(places)) / den, places))
}

/// `num / den` written in decimal: the whole part, then a point and the
/// fractional digits when any non-zero digit remains within `places`.
pub open spec fn fraction_text(num: nat, den: nat, places: nat) -> Seq<char> {
    let frac = fraction_digits(num, den, places);
    if frac.len() == 0 {
        decimal_text(num / den)
    } else {
        decimal_text(num / den) + seq!['.'] + frac
    }
}

/// `num / den` in hundredths, rounded to nearest, halves rounded up.
pub open spec fn rounded_hundredths(num: nat, den: nat) -> nat {
    (100 * num) / den + if 2 * ((100 * num) % den) >= den {
        1nat
    } else {
        0nat
    }
}

/// `num / den` with exactly two fractional digits, rounded to nearest.
pub open spec fn hundredths_text(num: nat, den: nat) -> Seq<char> {
    let h = rounded_hundredths(num, den);
    decimal_text(h / 100) + seq!['.'] + padded_text(h % 100, 2)
}

/// The characters of a sequence of decimal digits.
pub open spec fn digits_text(ds: Seq<u8>) -> Seq<char> {
    ds.map_values(|d: u8| digit_char(d as nat))
}

/// An exact non-negative rational number `numerator / denominator`.
///
/// Quantities that the wallet reports as real numbers (ether amounts,
/// averages, fiat values) are kept in this form so that no precision is lost.
#[derive(Debug, Clone, Copy, PartialEq, Eq, Structural)]
pub struct Fraction {
    pub numerator: u128,
    pub denominator: u128,
}

impl Fraction {
    /// The denominator is positive.
    pub open spec fn wf(self) -> bool {
        self.denominator > 0
    }

    /// The decimal text of this number, truncated after `places` fractional
    /// digits and without trailing zeros (`1.5`, `31500`, `0.000000000000000001`).
    pub fn to_decimal_text(&self, places: u32) -> (r: String)
        requires
            self.wf(),
        ensures
            r@ == fraction_text(self.numerator as nat, self.denominator as nat, places as nat),
    {
        let den = self.denominator;
        let ghost x0 = (self.numerator % den) as nat;
        let mut rem: u128 = self.numerator % den;
        let mut digits: Vec<u8> = Vec::new();
        let mut j: u32 = 0;
        proof {
            assert(pow10(0) == 1);
            assert(x0 * pow10(0) == x0);
            lemma_small_mod(x0, den as nat);
        }
        while j < places
            invariant
                j <= places,
                den == self.denominator,
                den > 0,
                x0 == (self.numerator % den) as nat,
                rem < den,
                rem as nat == (x0 * pow10(j as nat)) % (den as nat),
                digits_text(digits@) =~= padded_text((x0 * pow10(j as nat)) / (den as nat), j as nat),
                forall|k: int| 0 <= k < digits@.len() ==> #[trigger] digits@[k] < 10,
            decreases places - j,
        {
            let (d, next) = times_ten_divmod(rem, den);
            proof {
                let x = x0 * pow10(j as nat);
                let a = x / (den as nat);
                let xn = x0 * pow10((j + 1) as nat);
                assert(xn == 10 * x) by (nonlinear_arith)
                    requires
                        xn == x0 * pow10((j + 1) as nat),
                        x == x0 * pow10(j as nat),
                        pow10((j + 1) as nat) == 10 * pow10(j as nat),
                ;
                lemma_fundamental_div_mod(x as int, den as int);
                assert(10 * x == (10 * a + d) * den + next) by (nonlinear_arith)
                    requires
                        x == a * den + rem,
                        10 * rem == d * den + next,
                ;
                lemma_fundamental_div_mod_converse(xn as int, den as int, (10 * a + d) as int, next as int);
                lemma_fundamental_div_mod_converse((10 * a + d) as int, 10, a as int, d as int);
                assert(digits_text(digits@.push(d as u8)) =~= digits_text(digits@).push(
                    digit_char(d as nat),
                ));
            }
            digits.push(d as u8);
            rem = next;
            j = j + 1;
        }
        let ghost full = digits_text(digits@);
        let mut end: usize = digits.len();
        assert(full.take(end as int) =~= full);
        while end > 0 && digits[end - 1] == 0
            invariant
                end <= digits@.len(),
                full == digits_text(digits@),
                forall|k: int| 0 <= k < digits@.len() ==> #[trigger] digits@[k] < 10,
                strip_trailing_zeros(full) == strip_trailing_zeros(full.take(end as int)),
            decreases end,
        {
            assert(full.take(end as int).drop_last() =~= full.take(end - 1));
            end = end - 1;
        }
        proof {
            if end > 0 {
                assert(digits@[end - 1] != 0);
                assert(full.take(end as int).last() != '0');
            } else {
                assert(full.take(0) =~= Seq::<char>::empty());
            }
        }
        let mut out = decimal_string(self.numerator / den);
        if end > 0 {
            out.append(".");
            proof {
                reveal_strlit(".");
            }
            let mut k: usize = 0;
            let ghost start = out@;
            while k < end
                invariant
                    k <= end <= digits@.len(),
                    full == digits_text(digits@),
                    forall|i: int| 0 <= i < digits@.len() ==> #[trigger] digits@[i] < 10,
                    out@ == start + full.take(k as int),
                decreases end - k,
            {
                push_decimal(&mut out, digits[k] as u128);
                proof {
                    assert(full.take(k + 1) =~= full.take(k as int).push(full[k as int]));
                }
                k = k + 1;
            }
        }
        out
    }
}

impl Fraction {
    /// The decimal text of this number with exactly two fractional digits,
    /// rounded to nearest with halves rounded up (`28000.00`, `33.33`, `0.67`).
    pub fn to_hundredths_text(&self) -> (r: String)
        requires
            self.wf(),
        ensures
            r@ == hundredths_text(self.numerator as nat, self.denominator as nat),
    {
        let num = self.numerator;
        let den = self.denominator;
        let q = num / den;
        let rem = num % den;
        let (d1, r1) = times_ten_divmod(rem, den);
        let (d2, r2) = times_ten_divmod(r1, den);
        let f = 10 * d1 + d2;
        let up: u128 = if r2 >= den - r2 { 1 } else { 0 };
        let ghost h = rounded_hundredths(num as nat, den as nat);
        proof {
            lemma_fundamental_div_mod(num as int, den as int);
            assert(100 * num == (100 * q + f) * den + r2) by (nonlinear_arith)
                requires
                    num == q * den + rem,
                    10 * rem == d1 * den + r1,
                    10 * r1 == d2 * den + r2,
                    f == 10 * d1 + d2,
            ;
            lemma_fundamental_div_mod_converse((100 * num) as int, den as int, (100 * q + f) as int, r2 as int);
            assert(h == 100 * q + f + up);
        }
        let whole: u128;
        let frac: u128;
        if f + up == 100 {
            proof {
                assert(rem > 0) by (nonlinear_arith)
                    requires
                        10 * rem == d1 * den + r1,
                        10 * r1 == d2 * den + r2,
                        f == 10 * d1 + d2,
                        f + up == 100,
                        up <= 1,
                        r1 < den,
                ;
                assert(q < u128::MAX) by (nonlinear_arith)
                    requires
                        num == q * den + rem,
                        rem > 0,
                        rem < den,
                        num <= u128::MAX,
                ;
                lemma_fundamental_div_mod_converse(h as int, 100, (q + 1) as int, 0);
            }
            whole = q + 1;
            frac = 0;
        } else {
            proof {
                lemma_fundamental_div_mod_converse(h as int, 100, q as int, (f + up) as int);
            }
            whole = q;
            frac = f + up;
        }
        let mut out = decimal_string(whole);
        out.append(".");
        proof {
            reveal_strlit(".");
        }
        push_padded(&mut out, frac, 2);
        out
    }
}

/// `(10 * x) / den` and `(10 * x) % den`, computed without overflow.
fn times_ten_divmod(x: u128, den: u128) -> (r: (u128, u128))
    requires
        x < den,
    ensures
        r.0 < 10,
        r.0 as int == (10 * x) / (den as int),
        r.1 as int == (10 * x) % (den as int),
        10 * x == r.0 * den + r.1,
        r.1 < den,
{
    let mut d: u128 = 0;
    let mut m: u128 = 0;
    let mut k: u32 = 0;
    while k < 10
        invariant
            x < den,
            k <= 10,
            d <= k,
            m < den,
            m + d * den == k * x,
        decreases 10 - k,
    {
        if m >= den - x {
            proof {
                assert((d + 1) * den == d * den + den) by (nonlinear_arith);
                assert((k + 1) * x == k * x + x) by (nonlinear_arith);
            }
            m = m - (den - x);
            d = d + 1;
        } else {
            proof {
                assert((k + 1) * x == k * x + x) by (nonlinear_arith);
            }
            m = m + x;
        }
        k = k + 1;
    }
    proof {
        assert(d < 10) by (nonlinear_arith)
            requires
                m + d * den == 10 * x,
                x < den,
                m >= 0,
        ;
        lemma_fundamental_div_mod_converse((10 * x) as int, den as int, d as int, m as int);
    }
    (d, m)
}

} // verus!
