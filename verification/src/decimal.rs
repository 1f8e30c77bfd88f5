//! Fixed-point decimal numbers, and how a binary64 number is read as one.

use vstd::arithmetic::div_mod::{lemma_basic_div, lemma_fundamental_div_mod, lemma_mod_bound};
use vstd::arithmetic::power2::{
    lemma2_to64, lemma_pow2_adds, lemma_pow2_pos, lemma_pow2_strictly_increases,
    lemma_pow2_unfold, pow2,
};
use vstd::prelude::*;

verus! {

/// The number of millionths in one unit.
pub const MICROS_PER_UNIT: i64 = 1_000_000;

/// A decimal number with six fractional digits, kept as a count of millionths.
#[derive(Clone, Copy, Debug, PartialEq, Eq, Structural)]
pub struct Decimal {
    pub micros: i64,
}

/// The quotient of `n` by a positive `d`, rounded towards zero.
pub open spec fn truncating_div(n: int, d: int) -> int {
    if n >= 0 {
        n / d
    } else {
        -((-n) / d)
    }
}

/// The quotient of a non-negative `n` by a positive `d`, rounded to the nearest
/// integer; a tie goes up.
pub open spec fn rounding_div(n: int, d: int) -> int {
    (2 * n + d) / (2 * d)
}

/// The rounded quotient is the nearest integer: it is off from the exact
/// quotient by a half at most, and by less than a half from above.
pub proof fn lemma_rounding_div_is_nearest(n: int, d: int)
    requires
        n >= 0,
        d > 0,
    ensures
        2 * rounding_div(n, d) * d - 2 * n <= d,
        2 * n - 2 * rounding_div(n, d) * d < d,
{
    let q = rounding_div(n, d);
    lemma_fundamental_div_mod(2 * n + d, 2 * d);
    assert(0 <= (2 * n + d) % (2 * d) < 2 * d) by {
        lemma_mod_bound(2 * n + d, 2 * d);
    }
    assert((2 * d) * q == 2 * q * d) by (nonlinear_arith);
}

/// The value in the range of `u16` that is nearest to `n`.
pub open spec fn saturate_u16(n: int) -> u16 {
    if n < 0 {
        0u16
    } else if n > 0xffff {
        0xffffu16
    } else {
        n as u16
    }
}

/// Whether the sign bit of a binary64 bit pattern is set.
pub open spec fn double_negative(bits: u64) -> bool {
    bits >= 0x8000_0000_0000_0000
}

/// The eleven exponent bits of a binary64 bit pattern.
pub open spec fn double_exponent(bits: u64) -> int {
    (bits as int / 0x10_0000_0000_0000) % 0x800
}

/// The fifty-two fraction bits of a binary64 bit pattern.
pub open spec fn double_fraction(bits: u64) -> int {
    bits as int % 0x10_0000_0000_0000
}

/// Whether a binary64 bit pattern stands for a number: neither an infinity nor
/// a NaN.
pub open spec fn double_finite(bits: u64) -> bool {
    double_exponent(bits) != 0x7ff
}

/// The significand of a finite binary64 number, as an integer: the fraction
/// bits, with the hidden bit in front unless the number is subnormal.
pub open spec fn double_significand(bits: u64) -> int {
    if double_exponent(bits) == 0 {
        double_fraction(bits)
    } else {
        double_fraction(bits) + 0x10_0000_0000_0000
    }
}

/// The power of two by which the significand is scaled, plus 1075: the
/// magnitude of the number is `significand * 2^(scale - 1075)`.
pub open spec fn double_scale(bits: u64) -> int {
    if double_exponent(bits) == 0 {
        1
    } else {
        double_exponent(bits)
    }
}

/// The magnitude of a finite binary64 number in millionths, rounded to the
/// nearest millionth; a tie goes away from zero.
pub open spec fn double_magnitude_micros(bits: u64) -> int {
    let scaled = double_significand(bits) * 1_000_000;
    let scale = double_scale(bits);
    if scale >= 1075 {
        scaled * pow2((scale - 1075) as nat)
    } else {
        rounding_div(scaled, pow2((1075 - scale) as nat) as int)
    }
}

/// The binary64 number in millionths, where it is finite and the count fits
/// in an `i64`.
pub open spec fn double_micros(bits: u64) -> Option<int> {
    let magnitude = double_magnitude_micros(bits);
    let micros = if double_negative(bits) {
        -magnitude
    } else {
        magnitude
    };
    if double_finite(bits) && i64::MIN <= micros <= i64::MAX {
        Some(micros)
    } else {
        None
    }
}

/// Two to the power of `exponent`.
fn power_of_two(exponent: u64) -> (power: u128)
    requires
        exponent <= 74,
    ensures
        power == pow2(exponent as nat),
        1 <= power <= 0x400_0000_0000_0000_0000,
{
    let mut power: u128 = 1;
    let mut done: u64 = 0;
    proof {
        lemma2_to64();
        lemma_pow2_adds(64, 10);
    }
    while done < exponent
        invariant
            done <= exponent <= 74,
            power == pow2(done as nat),
            pow2(74) == 0x400_0000_0000_0000_0000,
        decreases exponent - done,
    {
        proof {
            lemma_pow2_unfold((done + 1) as nat);
            if done + 1 < 74 {
                lemma_pow2_strictly_increases((done + 1) as nat, 74);
            }
        }
        power = power * 2;
        done = done + 1;
    }
    proof {
        lemma_pow2_pos(exponent as nat);
        if exponent < 74 {
            lemma_pow2_strictly_increases(exponent as nat, 74);
        }
    }
    power
}

impl Decimal {
    /// The whole part of the number, brought into the range of `u16`: a
    /// negative number gives 0, one above 65535 gives 65535.
    pub open spec fn whole_u16(self) -> u16 {
        saturate_u16(truncating_div(self.micros as int, 1_000_000))
    }

    /// The number that a count of millionths stands for.
    pub fn from_micros(micros: i64) -> (r: Decimal)
        ensures
            r.micros == micros,
    {
        Decimal { micros }
    }

    /// Reads the bit pattern of a binary64 number as a decimal, rounded to the
    /// nearest millionth. There is none for an infinity, a NaN, or a number
    /// whose count of millionths does not fit in an `i64`.
    pub fn from_double_bits(bits: u64) -> (r: Option<Decimal>)
        ensures
            match double_micros(bits) {
                Some(micros) => r == Some(Decimal { micros: micros as i64 }),
                None => r is None,
            },
    {
        let negative = bits >= 0x8000_0000_0000_0000;
        let exponent: u64 = (bits / 0x10_0000_0000_0000) % 0x800;
        let fraction: u64 = bits % 0x10_0000_0000_0000;
        if exponent == 0x7ff {
            return None;
        }
        let significand: u64 = if exponent == 0 {
            fraction
        } else {
            fraction + 0x10_0000_0000_0000
        };
        let scale: u64 = if exponent == 0 {
            1
        } else {
            exponent
        };
        let scaled: u128 = significand as u128 * 1_000_000;
        if scale >= 1075 {
            proof {
                let factor = pow2((scale - 1075) as nat) as int;
                lemma_pow2_pos((scale - 1075) as nat);
                assert(scaled * factor >= 0x10_0000_0000_0000 * 1_000_000) by (nonlinear_arith)
                    requires
                        scaled >= 0x10_0000_0000_0000 * 1_000_000,
                        factor >= 1,
                ;
            }
            return None;
        }
        let shift: u64 = 1075 - scale;
        if shift >= 75 {
            proof {
                let divisor = pow2(shift as nat) as int;
                lemma2_to64();
                lemma_pow2_adds(64, 10);
                if shift > 74 {
                    lemma_pow2_strictly_increases(74, shift as nat);
                }
                lemma_basic_div(2 * scaled + divisor, 2 * divisor);
            }
            return Some(Decimal { micros: 0 });
        }
        let divisor = power_of_two(shift);
        let magnitude: u128 = (2 * scaled + divisor) / (2 * divisor);
        if negative {
            if magnitude > 0x8000_0000_0000_0000 {
                None
            } else if magnitude == 0x8000_0000_0000_0000 {
                Some(Decimal { micros: i64::MIN })
            } else {
                Some(Decimal { micros: -(magnitude as i64) })
            }
        } else {
            if magnitude > 0x7fff_ffff_ffff_ffff {
                None
            } else {
                Some(Decimal { micros: magnitude as i64 })
            }
        }
    }

    /// Cuts the number down to its whole part and brings that into the range
    /// of `u16`.
    pub fn to_u16(self) -> (r: u16)
        ensures
            r == self.whole_u16(),
    {
        if self.micros < 0 {
            0
        } else {
            let whole: i64 = self.micros / 1_000_000;
            if whole > 0xffff {
                0xffff
            } else {
                whole as u16
            }
        }
    }
}

} // verus!
