//! Numbers of a script record, held by their 64-bit binary encoding (a sign
//! bit, eleven exponent bits, fifty-two fraction bits), with what a stream
//! computes of them: their truncation to small unsigned integers, and the
//! truncated product of two of them.

use vstd::prelude::*;
use vstd::arithmetic::power2::{
    pow2, lemma2_to64, lemma2_to64_rest, lemma_pow2_pos, lemma_pow2_strictly_increases,
    lemma_pow2_unfold,
};
use vstd::arithmetic::div_mod::{
    lemma_basic_div, lemma_div_denominator, lemma_fundamental_div_mod,
};
use vstd::bits::{lemma_u64_shl_is_mul, lemma_u64_shr_is_div};

verus! {

/// Two to the power 52: the weight of the exponent field's lowest bit.
pub const FRACTION_SPAN: u64 = 0x10_0000_0000_0000;

/// Two to the power 53: the first whole number that 53 bits cannot hold.
pub const SIGNIFICAND_SPAN: u64 = 0x20_0000_0000_0000;

/// Two to the power 63: the weight of the sign bit.
pub const SIGN_SPAN: u64 = 0x8000_0000_0000_0000;

/// The exponent field of a number whose lowest bit weighs one.
pub const UNIT_EXPONENT: u64 = 1075;

/// The exponent field that marks infinities and values that are no number.
pub const SPECIAL_EXPONENT: u64 = 2047;

/// A number of a script record.
#[derive(Clone, Copy, Debug, PartialEq, Eq, Structural)]
pub struct Number {
    pub bits: u64,
}

/// Whether the sign bit is set.
pub open spec fn is_negative(bits: u64) -> bool {
    bits >= SIGN_SPAN
}

/// The eleven exponent bits.
pub open spec fn exponent_field(bits: u64) -> nat {
    ((bits / FRACTION_SPAN) % 2048) as nat
}

/// The fifty-two fraction bits.
pub open spec fn fraction_field(bits: u64) -> nat {
    (bits % FRACTION_SPAN) as nat
}

/// Whether the encoding stands for no number at all.
pub open spec fn is_nan(bits: u64) -> bool {
    exponent_field(bits) == SPECIAL_EXPONENT && fraction_field(bits) != 0
}

/// Whether the encoding stands for an infinity.
pub open spec fn is_infinite(bits: u64) -> bool {
    exponent_field(bits) == SPECIAL_EXPONENT && fraction_field(bits) == 0
}

/// Whether the encoding stands for zero, of either sign.
pub open spec fn is_zero(bits: u64) -> bool {
    exponent_field(bits) == 0 && fraction_field(bits) == 0
}

/// The significand of a finite number: its fraction bits, below a leading
/// one unless the exponent field is zero.
pub open spec fn significand(bits: u64) -> nat {
    if exponent_field(bits) == 0 {
        fraction_field(bits)
    } else {
        FRACTION_SPAN as nat + fraction_field(bits)
    }
}

/// The power of two that the lowest bit of the significand of a finite
/// number weighs. The magnitude of the number is its significand times two
/// to this power.
pub open spec fn scale(bits: u64) -> int {
    if exponent_field(bits) == 0 {
        -1074
    } else {
        exponent_field(bits) - UNIT_EXPONENT
    }
}

/// The whole part of `q` times two to the power `k`.
pub open spec fn scaled_floor(q: nat, k: int) -> nat {
    if k >= 0 {
        q * pow2(k as nat)
    } else {
        q / pow2((-k) as nat)
    }
}

/// A whole number held to the range from zero to `max`.
pub open spec fn at_most(whole: nat, max: nat) -> nat {
    if whole > max {
        max
    } else {
        whole
    }
}

/// The number cut down to a whole number between zero and `max`: what is no
/// number and what is negative give zero, what is too large gives `max`, and
/// anything else loses its fractional part.
pub open spec fn truncated(bits: u64, max: nat) -> nat {
    if is_nan(bits) || is_negative(bits) {
        0
    } else if is_infinite(bits) {
        max
    } else {
        at_most(scaled_floor(significand(bits), scale(bits)), max)
    }
}

/// How many bits a whole number has beyond 53.
pub open spec fn excess_bits(p: nat) -> nat
    decreases p,
{
    if p < SIGNIFICAND_SPAN {
        0
    } else {
        1 + excess_bits(p / 2)
    }
}

/// A whole number rounded to 53 significant bits, counted in units of two to
/// the power of its excess bits: the nearest such multiple, and of two that
/// are equally near the even one.
pub open spec fn rounded(p: nat) -> nat {
    let unit = pow2(excess_bits(p));
    let below = p / unit;
    let rest = p % unit;
    if 2 * rest > unit || (2 * rest == unit && below % 2 == 1) {
        below + 1
    } else {
        below
    }
}

/// The product of two numbers, rounded to 53 significant bits as a number
/// holds it, then cut down to a whole number between zero and `max`. Where
/// either is no number, or one is zero and the other infinite, or the signs
/// differ, that is zero.
pub open spec fn truncated_product(a: u64, b: u64, max: nat) -> nat {
    if is_nan(a) || is_nan(b) || (is_infinite(a) && is_zero(b)) || (is_zero(a) && is_infinite(b)) {
        0
    } else if is_negative(a) != is_negative(b) {
        0
    } else if is_infinite(a) || is_infinite(b) {
        max
    } else {
        let p = significand(a) * significand(b);
        at_most(scaled_floor(rounded(p), scale(a) + scale(b) + excess_bits(p)), max)
    }
}

/// A power of two is no less than a lower one.
proof fn lemma_pow2_increases(low: nat, high: nat)
    requires
        low <= high,
    ensures
        pow2(low) <= pow2(high),
{
    if low < high {
        lemma_pow2_strictly_increases(low, high);
    }
}

/// The whole part of `q` times two to the power `k`, held to `max`.
fn scale_down_to(q: u64, k: i64, max: u64) -> (whole: u64)
    requires
        q <= SIGNIFICAND_SPAN,
        -4096 <= k <= 4096,
        max < 0x1_0000_0000,
    ensures
        whole == at_most(scaled_floor(q as nat, k as int), max as nat),
{
    if q == 0 {
        proof {
            if k < 0 {
                lemma_pow2_pos((-k) as nat);
                lemma_basic_div(0, pow2((-k) as nat) as int);
            } else {
                assert(0 * pow2(k as nat) == 0);
            }
        }
        0
    } else if k >= 32 {
        proof {
            lemma2_to64();
            lemma_pow2_increases(32, k as nat);
            assert(q as nat * pow2(k as nat) >= pow2(k as nat)) by (nonlinear_arith)
                requires
                    q >= 1,
            ;
        }
        max
    } else if k >= 0 {
        proof {
            lemma2_to64();
            lemma_pow2_increases(k as nat, 31);
            lemma_u64_shl_is_mul(1, k as u64);
        }
        let factor: u64 = 1u64 << (k as u64);
        assert(q as nat * factor as nat <= 0x20_0000_0000_0000 * 0x8000_0000) by (nonlinear_arith)
            requires
                q <= 0x20_0000_0000_0000,
                factor <= 0x8000_0000,
        ;
        let whole: u128 = q as u128 * factor as u128;
        if whole > max as u128 {
            max
        } else {
            whole as u64
        }
    } else if k <= -54 {
        proof {
            lemma2_to64_rest();
            lemma_pow2_increases(54, (-k) as nat);
            lemma_basic_div(q as int, pow2((-k) as nat) as int);
        }
        0
    } else {
        let shift: u64 = (-k) as u64;
        proof {
            lemma_u64_shr_is_div(q, shift);
        }
        let whole: u64 = q >> shift;
        if whole > max {
            max
        } else {
            whole
        }
    }
}

/// The significand of a product of two significands, rounded to 53 bits, and
/// the number of bits that the rounding took away.
fn round_product(a: u64, b: u64) -> (rounded_and_excess: (u64, i64))
    requires
        a < SIGNIFICAND_SPAN,
        b < SIGNIFICAND_SPAN,
    ensures
        rounded_and_excess.0 == rounded(a as nat * b as nat),
        rounded_and_excess.1 == excess_bits(a as nat * b as nat),
        rounded_and_excess.0 <= SIGNIFICAND_SPAN,
        0 <= rounded_and_excess.1 <= 53,
{
    assert(a as nat * b as nat <= 0x1f_ffff_ffff_ffff * 0x1f_ffff_ffff_ffff) by (nonlinear_arith)
        requires
            a <= 0x1f_ffff_ffff_ffff,
            b <= 0x1f_ffff_ffff_ffff,
    ;
    let p: u128 = a as u128 * b as u128;
    let mut unit: u128 = 1;
    let mut excess: i64 = 0;
    proof {
        lemma2_to64();
    }
    while p / unit >= SIGNIFICAND_SPAN as u128
        invariant
            p < 0x400_0000_0000_0000_0000_0000_0000,
            0 <= excess <= 53,
            unit == pow2(excess as nat),
            0 < unit <= SIGNIFICAND_SPAN,
            excess_bits(p as nat) == excess + excess_bits((p / unit) as nat),
        decreases p / unit,
    {
        proof {
            lemma_div_denominator(p as int, unit as int, 2);
            lemma_pow2_unfold((excess + 1) as nat);
            lemma2_to64_rest();
            if excess >= 53 {
                lemma_pow2_increases(53, excess as nat);
            }
            lemma_fundamental_div_mod(p as int, unit as int);
            let below = (p / unit) as int;
            assert(unit < SIGNIFICAND_SPAN) by (nonlinear_arith)
                requires
                    below >= 0x20_0000_0000_0000,
                    p < 0x400_0000_0000_0000_0000_0000_0000,
                    unit > 0,
                    unit * below <= p,
            ;
            assert(excess < 53);
            lemma_pow2_increases((excess + 1) as nat, 53);
        }
        unit = unit * 2;
        excess = excess + 1;
    }
    let below: u128 = p / unit;
    let rest: u128 = p % unit;
    let whole: u128 = if 2 * rest > unit || (2 * rest == unit && below % 2 == 1) {
        below + 1
    } else {
        below
    };
    (whole as u64, excess)
}

impl Number {
    /// The number with the given encoding.
    pub fn from_bits(bits: u64) -> (number: Number)
        ensures
            number.bits == bits,
    {
        Number { bits }
    }

    /// The number's encoding.
    pub fn to_bits(&self) -> (bits: u64)
        ensures
            bits == self.bits,
    {
        self.bits
    }

    /// The exponent bits of the number.
    fn exponent(&self) -> (e: u64)
        ensures
            e == exponent_field(self.bits),
            e < 2048,
    {
        (self.bits / FRACTION_SPAN) % 2048
    }

    /// The fraction bits of the number.
    fn fraction(&self) -> (f: u64)
        ensures
            f == fraction_field(self.bits),
            f < FRACTION_SPAN,
    {
        self.bits % FRACTION_SPAN
    }

    /// The significand and the scale of the number.
    fn parts(&self) -> (parts: (u64, i64))
        ensures
            parts.0 == significand(self.bits),
            parts.1 == scale(self.bits),
            parts.0 < SIGNIFICAND_SPAN,
            -1074 <= parts.1 <= 972,
    {
        let e = self.exponent();
        let f = self.fraction();
        if e == 0 {
            (f, -1074)
        } else {
            (FRACTION_SPAN + f, e as i64 - 1075)
        }
    }

    /// The number cut down to a whole number between zero and `max`.
    fn truncate(&self, max: u64) -> (whole: u64)
        requires
            max < 0x1_0000_0000,
        ensures
            whole == truncated(self.bits, max as nat),
    {
        let e = self.exponent();
        let f = self.fraction();
        if self.bits >= SIGN_SPAN {
            0
        } else if e == SPECIAL_EXPONENT {
            if f != 0 {
                0
            } else {
                max
            }
        } else {
            let (q, k) = self.parts();
            scale_down_to(q, k, max)
        }
    }

    /// The number as an 8-bit unsigned integer: truncated, and held to the
    /// range of the type.
    pub fn to_u8(&self) -> (whole: u8)
        ensures
            whole == truncated(self.bits, 255),
    {
        let whole: u64 = self.truncate(255);
        whole as u8
    }

    /// The number as a 16-bit unsigned integer: truncated, and held to the
    /// range of the type.
    pub fn to_u16(&self) -> (whole: u16)
        ensures
            whole == truncated(self.bits, 65535),
    {
        let whole: u64 = self.truncate(65535);
        whole as u16
    }

    /// The product of this number and another as a 32-bit unsigned integer:
    /// rounded as a number holds it, truncated, and held to the range of the
    /// type.
    pub fn times_to_u32(&self, other: &Number) -> (whole: u32)
        ensures
            whole == truncated_product(self.bits, other.bits, 0xffff_ffff),
    {
        let special = self.exponent() == SPECIAL_EXPONENT;
        let other_special = other.exponent() == SPECIAL_EXPONENT;
        let nan = special && self.fraction() != 0;
        let other_nan = other_special && other.fraction() != 0;
        let zero = self.exponent() == 0 && self.fraction() == 0;
        let other_zero = other.exponent() == 0 && other.fraction() == 0;
        if nan || other_nan || (special && other_zero) || (zero && other_special) {
            0
        } else if (self.bits >= SIGN_SPAN) != (other.bits >= SIGN_SPAN) {
            0
        } else if special || other_special {
            0xffff_ffff
        } else {
            let (a, scale_a) = self.parts();
            let (b, scale_b) = other.parts();
            let (q, excess) = round_product(a, b);
            let whole: u64 = scale_down_to(q, scale_a + scale_b + excess, 0xffff_ffff);
            whole as u32
        }
    }
}

} // verus!
