//! Packet drop rates, as the bit patterns of single-precision numbers.

use vstd::arithmetic::power2::lemma_pow2_adds;
use vstd::arithmetic::power2::lemma_pow2_pos;
use vstd::arithmetic::power2::lemma_pow2_strictly_increases;
use vstd::arithmetic::power2::lemma_pow2_unfold;
use vstd::arithmetic::power2::lemma2_to64;
use vstd::arithmetic::power2::pow2;
use vstd::prelude::*;

verus! {

/// A number in the IEEE 754 binary32 format, held as its bit pattern: one sign bit,
/// eight exponent bits, twenty-three fraction bits.
///
/// `==` on this type compares bit patterns. Numbers are compared with [`Rate::at_most`].
#[derive(Clone, Copy, Debug, PartialEq, Eq, Structural)]
pub struct Rate {
    pub bits: u32,
}

/// The number of fraction patterns, `2^23`.
pub const FRACTIONS: u32 = 0x80_0000;

/// The sign bit, alone.
pub const SIGN: u32 = 0x8000_0000;

/// The pattern of positive infinity. Above it, sign apart, are the patterns that are no number.
pub const INFINITY: u32 = 0x7f80_0000;

/// The pattern of the number one.
pub const ONE: u32 = 0x3f80_0000;

/// The size of the number whose pattern, without its sign bit, is `pattern`, counted in the
/// smallest positive number of the format, `2^-149`. Every finite number is a whole multiple
/// of that; an infinity ranks just beyond the largest of them.
pub open spec fn magnitude(pattern: nat) -> nat {
    let exponent = pattern / FRACTIONS as nat;
    let fraction = pattern % FRACTIONS as nat;
    if exponent == 0 {
        fraction
    } else {
        (FRACTIONS as nat + fraction) * pow2((exponent - 1) as nat)
    }
}

/// The number one, counted in `2^-149`.
pub open spec fn one() -> int {
    pow2(149) as int
}

impl Rate {
    /// The bit pattern without its sign bit.
    pub open spec fn pattern(self) -> nat {
        (if self.bits < SIGN {
            self.bits as int
        } else {
            self.bits - SIGN
        }) as nat
    }

    /// Whether the bit pattern stands for no number.
    pub open spec fn nan(self) -> bool {
        self.pattern() > INFINITY
    }

    /// The number that the bit pattern stands for, counted in `2^-149`.
    pub open spec fn value(self) -> int {
        if self.bits < SIGN {
            magnitude(self.pattern()) as int
        } else {
            -(magnitude(self.pattern()) as int)
        }
    }

    /// Whether `self <= other`, which is false wherever one of the two is no number.
    pub open spec fn spec_at_most(self, other: Rate) -> bool {
        !self.nan() && !other.nan() && self.value() <= other.value()
    }

    /// Whether the number lies in the closed interval from zero to one.
    pub open spec fn unit(self) -> bool {
        !self.nan() && 0 <= self.value() <= one()
    }

    /// The number of the closed interval from zero to one that is nearest to `self`; `self` where
    /// it lies inside, or is no number.
    pub open spec fn spec_clamped(self) -> Rate {
        if self.nan() || self.unit() {
            self
        } else if self.value() < 0 {
            Rate { bits: 0 }
        } else {
            Rate { bits: ONE }
        }
    }

    /// The number with this bit pattern.
    pub fn from_bits(bits: u32) -> (rate: Rate)
        ensures
            rate.bits == bits,
    {
        Rate { bits }
    }

    /// The bit pattern.
    pub fn to_bits(&self) -> (bits: u32)
        ensures
            bits == self.bits,
    {
        self.bits
    }

    /// Whether the bit pattern stands for no number.
    pub fn is_nan(&self) -> (r: bool)
        ensures
            r == self.nan(),
    {
        let pattern: u32 = if self.bits < SIGN { self.bits } else { self.bits - SIGN };
        pattern > INFINITY
    }

    /// `self <= other`.
    pub fn at_most(&self, other: &Rate) -> (r: bool)
        ensures
            r == self.spec_at_most(*other),
    {
        if self.is_nan() || other.is_nan() {
            return false;
        }
        proof {
            lemma_magnitude_order(self.pattern(), other.pattern());
            lemma_magnitude_order(other.pattern(), self.pattern());
            lemma_magnitude_order(0, self.pattern());
            lemma_magnitude_order(0, other.pattern());
        }
        if self.bits < SIGN {
            if other.bits < SIGN {
                self.bits <= other.bits
            } else {
                self.bits == 0 && other.bits == SIGN
            }
        } else {
            if other.bits < SIGN {
                true
            } else {
                other.bits <= self.bits
            }
        }
    }

    /// Whether the number lies in the closed interval from zero to one.
    pub fn is_unit(&self) -> (r: bool)
        ensures
            r == self.unit(),
    {
        proof {
            lemma_bounds();
        }
        Rate { bits: 0 }.at_most(self) && self.at_most(&Rate { bits: ONE })
    }

    /// The nearest number of the closed interval from zero to one.
    pub fn clamped(&self) -> (rate: Rate)
        ensures
            rate == self.spec_clamped(),
    {
        proof {
            lemma_bounds();
        }
        if self.is_nan() {
            *self
        } else if !(Rate { bits: 0 }.at_most(self)) {
            Rate { bits: 0 }
        } else if !self.at_most(&Rate { bits: ONE }) {
            Rate { bits: ONE }
        } else {
            *self
        }
    }
}

/// Patterns are ordered as the sizes that they stand for.
pub proof fn lemma_magnitude_order(a: nat, b: nat)
    ensures
        a < b ==> magnitude(a) < magnitude(b),
{
    if a < b {
        let f = FRACTIONS as nat;
        let ea = a / f;
        let eb = b / f;
        assert(ea <= eb);
        let ra = a % f;
        let rb = b % f;
        assert(a == ea * f + ra && b == eb * f + rb);
        if ea == eb {
            if ea != 0 {
                let p = pow2((ea - 1) as nat);
                lemma_pow2_pos((ea - 1) as nat);
                assert((f + ra) * p < (f + rb) * p) by (nonlinear_arith)
                    requires
                        ra < rb,
                        p > 0,
                ;
            }
        } else if ea == 0 {
            let p = pow2((eb - 1) as nat);
            lemma_pow2_pos((eb - 1) as nat);
            assert((f + rb) * p >= f) by (nonlinear_arith)
                requires
                    p > 0,
                    f > 0,
                    rb >= 0,
            ;
        } else {
            let p = pow2((ea - 1) as nat);
            let q = pow2((eb - 1) as nat);
            lemma_pow2_pos((ea - 1) as nat);
            lemma_pow2_unfold(ea);
            if ea < eb - 1 {
                lemma_pow2_strictly_increases(ea, (eb - 1) as nat);
            }
            assert(2 * p <= q);
            assert((f + ra) * p < (f + rb) * q) by (nonlinear_arith)
                requires
                    0 <= ra < f,
                    0 <= rb,
                    p > 0,
                    2 * p <= q,
            ;
        }
    }
}

/// Which patterns are no number, and which lie between zero and one: those of the non-negative
/// numbers up to the pattern of one, and negative zero.
pub proof fn law_unit_patterns(rate: Rate)
    ensures
        rate.nan() <==> {
            ||| 0x7f80_0000 < rate.bits < 0x8000_0000
            ||| 0xff80_0000 < rate.bits
        },
        rate.unit() <==> rate.bits <= 0x3f80_0000 || rate.bits == 0x8000_0000,
        rate.value() == 0 <==> rate.bits == 0 || rate.bits == 0x8000_0000,
        rate.value() > 0 <==> 0 < rate.bits < 0x8000_0000,
{
    lemma_bounds();
    lemma_magnitude_order(0, rate.pattern());
    lemma_magnitude_order(rate.pattern(), ONE as nat);
    lemma_magnitude_order(ONE as nat, rate.pattern());
}

/// Numbers are ordered as numbers. Among those without a sign, a higher pattern is a higher
/// number. A sign on both turns the order round. A number with a sign is at most any without, and
/// only zero is both ways. What is no number compares with nothing.
pub proof fn law_order_of_numbers(a: u32, b: u32)
    requires
        a < 0x8000_0000,
        b < 0x8000_0000,
    ensures
        ({
            let numbers = a <= 0x7f80_0000 && b <= 0x7f80_0000;
            let minus_a = Rate { bits: (a + 0x8000_0000) as u32 };
            let minus_b = Rate { bits: (b + 0x8000_0000) as u32 };
            let plus_a = Rate { bits: a };
            let plus_b = Rate { bits: b };
            &&& plus_a.spec_at_most(plus_b) <==> numbers && a <= b
            &&& minus_a.spec_at_most(minus_b) <==> numbers && b <= a
            &&& minus_a.spec_at_most(plus_b) <==> numbers
            &&& plus_a.spec_at_most(minus_b) <==> numbers && a == 0 && b == 0
        }),
{
    lemma_bounds();
    lemma_magnitude_order(a as nat, b as nat);
    lemma_magnitude_order(b as nat, a as nat);
    lemma_magnitude_order(0, a as nat);
    lemma_magnitude_order(0, b as nat);
}

/// How the numbers without a sign are spaced: up to the pattern `2^24` they are the multiples of
/// the smallest positive number, in order; from `2^23` on, a pattern that is `2^23` higher stands
/// for twice the number. A sign gives the opposite number.
pub proof fn law_spacing_of_numbers(bits: u32)
    requires
        bits < 0x8000_0000,
    ensures
        bits <= 0x100_0000 ==> (Rate { bits }).value() == bits,
        0x80_0000 <= bits < 0x7f80_0000 ==> (Rate { bits: (bits + 0x80_0000) as u32 }).value() == 2
            * (Rate { bits }).value(),
        (Rate { bits: (bits + 0x8000_0000) as u32 }).value() == -(Rate { bits }).value(),
{
    lemma2_to64();
    let e = bits as nat / FRACTIONS as nat;
    let r = bits as nat % FRACTIONS as nat;
    if 0x80_0000 <= bits <= 0x100_0000 {
        let p = pow2((e - 1) as nat);
        let whole = FRACTIONS as nat + r;
        assert(magnitude(bits as nat) == whole * p);
        if bits < 0x100_0000 {
            assert(e == 1 && p == 1);
            assert(whole * p == whole) by (nonlinear_arith)
                requires
                    p == 1,
            ;
        } else {
            assert(e == 2 && p == 2 && r == 0);
            assert(whole * p == 2 * whole) by (nonlinear_arith)
                requires
                    p == 2,
            ;
        }
        assert((Rate { bits }).value() == bits);
    }
    if 0x80_0000 <= bits < 0x7f80_0000 {
        let f = FRACTIONS as nat;
        let next = (bits + 0x80_0000) as nat;
        assert(next / f == e + 1);
        assert(next % f == r);
        lemma_pow2_unfold(e);
        let p = pow2((e - 1) as nat);
        assert((f + r) * (2 * p) == 2 * ((f + r) * p)) by (nonlinear_arith);
    }
}

/// Clamping finds the nearest number between zero and one: a number inside is left as it is, one
/// above becomes one, one below becomes zero, and what is no number stays so. No number inside is
/// nearer than the one found.
pub proof fn law_clamping_is_nearest(rate: Rate, inside: Rate)
    requires
        inside.bits <= 0x3f80_0000 || inside.bits == 0x8000_0000,
    ensures
        ({
            let found = rate.spec_clamped();
            &&& rate.nan() ==> found == rate
            &&& rate.bits <= 0x3f80_0000 || rate.bits == 0x8000_0000 ==> found == rate
            &&& 0x3f80_0000 < rate.bits <= 0x7f80_0000 ==> found.bits == 0x3f80_0000
            &&& 0x8000_0000 < rate.bits <= 0xff80_0000 ==> found.bits == 0
            &&& !rate.nan() && rate.value() >= inside.value() ==> rate.value() - found.value()
                <= rate.value() - inside.value()
            &&& !rate.nan() && rate.value() <= inside.value() ==> found.value() - rate.value()
                <= inside.value() - rate.value()
        }),
{
    lemma_bounds();
    law_unit_patterns(rate);
    law_unit_patterns(inside);
}

/// The patterns of zero and one stand for zero and one.
pub proof fn lemma_bounds()
    ensures
        !(Rate { bits: 0 }).nan(),
        !(Rate { bits: ONE }).nan(),
        (Rate { bits: 0 }).value() == 0,
        (Rate { bits: ONE }).value() == one(),
        0 < one(),
{
    lemma2_to64();
    lemma_pow2_adds(23, 126);
    lemma_pow2_pos(149);
}

} // verus!
