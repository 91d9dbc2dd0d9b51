//! Nonnegative decimal numbers.
//!
//! CSS numeric literals in this library are held exactly, as a mantissa and a
//! decimal scale: the value of `Num { mantissa, scale }` is
//! `mantissa / 10^scale`.  A well-formed number is normalized so that its
//! fraction has no trailing zero digits; parsing always normalizes, so equal
//! literals (`1`, `1.0`, `1.00`) parse to equal values and every value has one
//! canonical rendering.

use vstd::prelude::*;
use vstd::arithmetic::div_mod::{
    lemma_breakdown, lemma_div_denominator, lemma_div_pos_is_pos, lemma_fundamental_div_mod,
    lemma_mod_division_less_than_divisor,
};
use vstd::arithmetic::mul::lemma_mul_inequality;

verus! {

/// A nonnegative decimal number with value `mantissa / 10^scale`.
#[derive(Debug, Clone, Copy, PartialEq, Eq, Structural)]
pub struct Num {
    pub mantissa: u64,
    pub scale: u32,
}

/// `10^e`.
pub open spec fn pow10(e: nat) -> nat
    decreases e,
{
    if e == 0 {
        1
    } else {
        10 * pow10((e - 1) as nat)
    }
}

pub proof fn lemma_pow10_pos(e: nat)
    ensures
        pow10(e) >= 1,
    decreases e,
{
    if e > 0 {
        lemma_pow10_pos((e - 1) as nat);
    }
}

/// The character for one decimal digit.
pub open spec fn digit_char(d: nat) -> char {
    if d == 0 {
        '0'
    } else if d == 1 {
        '1'
    } else if d == 2 {
        '2'
    } else if d == 3 {
        '3'
    } else if d == 4 {
        '4'
    } else if d == 5 {
        '5'
    } else if d == 6 {
        '6'
    } else if d == 7 {
        '7'
    } else if d == 8 {
        '8'
    } else {
        '9'
    }
}

/// The decimal digits of `m`, most significant first (`0` renders as `"0"`).
pub open spec fn dec_digits(m: nat) -> Seq<char>
    decreases m,
{
    if m < 10 {
        seq![digit_char(m)]
    } else {
        dec_digits(m / 10).push(digit_char(m % 10))
    }
}

/// The lowest `k` decimal digits of `m`, left-padded with zeros to width `k`.
pub open spec fn frac_digits(m: nat, k: nat) -> Seq<char>
    decreases k,
{
    if k == 0 {
        Seq::empty()
    } else {
        frac_digits(m / 10, (k - 1) as nat).push(digit_char(m % 10))
    }
}

impl Num {
    /// Normalized: the fraction, if there is one, does not end in `0`.
    pub open spec fn wf(self) -> bool {
        self.scale == 0 || self.mantissa % 10 != 0
    }

    /// `self < k`, as rationals: `mantissa < k * 10^scale`.
    pub open spec fn val_lt_int(self, k: nat) -> bool {
        (self.mantissa as nat) < k * pow10(self.scale as nat)
    }

    /// `self <= k`, as rationals.
    pub open spec fn val_le_int(self, k: nat) -> bool {
        (self.mantissa as nat) <= k * pow10(self.scale as nat)
    }

    /// `self >= k`, as rationals.
    pub open spec fn val_ge_int(self, k: nat) -> bool {
        !self.val_lt_int(k)
    }

    /// The canonical rendering: integer part, then `.` and the fraction
    /// digits when the scale is positive.
    pub open spec fn css(self) -> Seq<char> {
        if self.scale == 0 {
            dec_digits(self.mantissa as nat)
        } else {
            dec_digits((self.mantissa as nat) / pow10(self.scale as nat)) + seq!['.']
                + frac_digits(self.mantissa as nat, self.scale as nat)
        }
    }

    /// The number `k`, with no fraction.
    pub fn from_int(k: u64) -> (r: Num)
        ensures
            r == (Num { mantissa: k, scale: 0 }),
            r.wf(),
    {
        Num { mantissa: k, scale: 0 }
    }
}

/// One step of peeling a power of ten off a division and a remainder check.
proof fn lemma_div_mod_step(m: nat, p: nat)
    requires
        p >= 1,
    ensures
        (m as int / p as int) / 10 == m as int / ((p * 10) as int),
        (m as int % ((p * 10) as int) == 0) <==> (m as int % (p as int) == 0 && (m as int
            / p as int) % 10 == 0),
{
    lemma_div_denominator(m as int, p as int, 10);
    lemma_breakdown(m as int, p as int, 10);
    let q = (m as int) / (p as int);
    lemma_div_pos_is_pos(m as int, p as int);
    lemma_mod_division_less_than_divisor(m as int, p as int);
    lemma_mod_division_less_than_divisor(q, 10);
    assert((m as int) % ((p * 10) as int) == (p as int) * (q % 10) + (m as int) % (p as int));
    assert((p as int) * (q % 10) == 0 <==> q % 10 == 0) by (nonlinear_arith)
        requires
            p >= 1,
            q % 10 >= 0,
    ;
}

/// Comparing `m / 10^s` with an integer `k` through the floored quotient.
pub proof fn lemma_floor_cmp(m: nat, p: nat, k: nat)
    requires
        p >= 1,
    ensures
        m < k * p <==> ((m as int) / (p as int)) < k,
        m == k * p <==> ((m as int) / (p as int)) == k && ((m as int) % (p as int)) == 0,
{
    let q = (m as int) / (p as int);
    let r = (m as int) % (p as int);
    lemma_fundamental_div_mod(m as int, p as int);
    lemma_mod_division_less_than_divisor(m as int, p as int);
    assert(m as int == p as int * q + r);
    if q < k {
        lemma_mul_inequality(q + 1, k as int, p as int);
        assert((q + 1) * p == q * p + p) by (nonlinear_arith);
        assert(q * p == p as int * q) by (nonlinear_arith);
        assert(m < k * p);
    } else {
        lemma_mul_inequality(k as int, q, p as int);
        assert(q * p == p as int * q) by (nonlinear_arith);
        assert(m as int >= k * p);
    }
    if m == k * p {
        vstd::arithmetic::div_mod::lemma_fundamental_div_mod_converse(
            m as int,
            p as int,
            k as int,
            0,
        );
    }
}

impl Num {
    /// The floored integer value and whether the fraction is exactly zero.
    fn floor_parts(&self) -> (r: (u64, bool))
        ensures
            r.0 as nat == (self.mantissa as nat) / pow10(self.scale as nat),
            r.1 == ((self.mantissa as nat) % pow10(self.scale as nat) == 0),
    {
        let mut q: u64 = self.mantissa;
        let mut rz: bool = true;
        let mut i: u32 = 0;
        proof {
            lemma_pow10_pos(self.scale as nat);
        }
        while i < self.scale
            invariant
                i <= self.scale,
                pow10(i as nat) >= 1,
                q as nat == (self.mantissa as nat) / pow10(i as nat),
                rz == ((self.mantissa as nat) % pow10(i as nat) == 0),
            decreases self.scale - i,
        {
            proof {
                lemma_div_mod_step(self.mantissa as nat, pow10(i as nat));
                lemma_pow10_pos((i + 1) as nat);
            }
            rz = rz && (q % 10 == 0);
            q = q / 10;
            i = i + 1;
        }
        (q, rz)
    }

    /// Whether `self < k`, as rationals.
    pub fn lt_int(&self, k: u32) -> (r: bool)
        ensures
            r == self.val_lt_int(k as nat),
    {
        let (q, _rz) = self.floor_parts();
        proof {
            lemma_pow10_pos(self.scale as nat);
            lemma_floor_cmp(self.mantissa as nat, pow10(self.scale as nat), k as nat);
        }
        (q as u64) < (k as u64)
    }

    /// Whether `self <= k`, as rationals.
    pub fn le_int(&self, k: u32) -> (r: bool)
        ensures
            r == self.val_le_int(k as nat),
    {
        let (q, rz) = self.floor_parts();
        proof {
            lemma_pow10_pos(self.scale as nat);
            lemma_floor_cmp(self.mantissa as nat, pow10(self.scale as nat), k as nat);
        }
        (q as u64) < (k as u64) || ((q as u64) == (k as u64) && rz)
    }

    /// Whether `self >= k`, as rationals.
    pub fn ge_int(&self, k: u32) -> (r: bool)
        ensures
            r == self.val_ge_int(k as nat),
    {
        !self.lt_int(k)
    }
}

/// Appends the character of the digit `d`.
pub(crate) fn push_digit(out: &mut String, d: u64)
    requires
        d < 10,
    ensures
        final(out)@ == old(out)@ + seq![digit_char(d as nat)],
{
    if d == 0 {
        out.append("0");
        proof {
            reveal_strlit("0");
            assert(final(out)@ =~= old(out)@ + seq![digit_char(d as nat)]);
        }
    } else if d == 1 {
        out.append("1");
        proof {
            reveal_strlit("1");
            assert(final(out)@ =~= old(out)@ + seq![digit_char(d as nat)]);
        }
    } else if d == 2 {
        out.append("2");
        proof {
            reveal_strlit("2");
            assert(final(out)@ =~= old(out)@ + seq![digit_char(d as nat)]);
        }
    } else if d == 3 {
        out.append("3");
        proof {
            reveal_strlit("3");
            assert(final(out)@ =~= old(out)@ + seq![digit_char(d as nat)]);
        }
    } else if d == 4 {
        out.append("4");
        proof {
            reveal_strlit("4");
            assert(final(out)@ =~= old(out)@ + seq![digit_char(d as nat)]);
        }
    } else if d == 5 {
        out.append("5");
        proof {
            reveal_strlit("5");
            assert(final(out)@ =~= old(out)@ + seq![digit_char(d as nat)]);
        }
    } else if d == 6 {
        out.append("6");
        proof {
            reveal_strlit("6");
            assert(final(out)@ =~= old(out)@ + seq![digit_char(d as nat)]);
        }
    } else if d == 7 {
        out.append("7");
        proof {
            reveal_strlit("7");
            assert(final(out)@ =~= old(out)@ + seq![digit_char(d as nat)]);
        }
    } else if d == 8 {
        out.append("8");
        proof {
            reveal_strlit("8");
            assert(final(out)@ =~= old(out)@ + seq![digit_char(d as nat)]);
        }
    } else {
        out.append("9");
        proof {
            reveal_strlit("9");
            assert(final(out)@ =~= old(out)@ + seq![digit_char(d as nat)]);
        }
    }
}

/// Appends the decimal digits of `m`.
fn write_dec(out: &mut String, m: u64)
    ensures
        final(out)@ == old(out)@ + dec_digits(m as nat),
    decreases m,
{
    if m < 10 {
        push_digit(out, m);
    } else {
        write_dec(out, m / 10);
        push_digit(out, m % 10);
    }
}

/// Appends the lowest `k` digits of `m`, zero-padded to width `k`.
fn write_frac(out: &mut String, m: u64, k: u32)
    ensures
        final(out)@ == old(out)@ + frac_digits(m as nat, k as nat),
    decreases k,
{
    if k > 0 {
        write_frac(out, m / 10, k - 1);
        push_digit(out, m % 10);
    }
}

impl Num {
    /// Appends the canonical rendering of `self`.
    pub fn write_css(&self, out: &mut String)
        ensures
            final(out)@ == old(out)@ + self.css(),
    {
        if self.scale == 0 {
            write_dec(out, self.mantissa);
        } else {
            let (q, _rz) = self.floor_parts();
            write_dec(out, q);
            out.append(".");
            proof {
                reveal_strlit(".");
                assert("."@ =~= seq!['.']);
            }
            write_frac(out, self.mantissa, self.scale);
        }
    }
}

} // verus!
