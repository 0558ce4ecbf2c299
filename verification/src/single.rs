//! IEEE-754 single precision numbers as they travel on the wire.
//!
//! The power module exchanges analog quantities as little-endian singles.
//! A [`Single`] holds the 32 bits of such a number; the regulator itself
//! computes with fixed-point integers and converts at the wire.

use vstd::prelude::*;
use vstd::arithmetic::power2::{
    lemma2_to64, lemma2_to64_rest, lemma_pow2_pos, lemma_pow2_strictly_increases,
    lemma_pow2_unfold, pow2,
};
use crate::arith::{
    lemma_double_divisor, lemma_exact_quotient, lemma_floor_error, lemma_half_divisor, lemma_multiple_over_divisor, lemma_multiples_of_unit_below_limit, lemma_product_grows, lemma_product_is_positive, lemma_quotient_below, lemma_quotient_times_divisor, lemma_scaled_floor_error, lemma_small_over_large,
};
use crate::units::{as_int, UNIT};

verus! {

/// The 32 bits of an IEEE-754 single precision number.
#[derive(Copy, Clone, Debug, PartialEq, Eq, Structural)]
pub struct Single {
    pub bits: u32,
}

/// The number that four bytes spell in little-endian order.
pub open spec fn le_u32(bytes: Seq<u8>) -> int
    recommends
        bytes.len() == 4,
{
    bytes[0] + bytes[1] * 0x100 + bytes[2] * 0x1_0000 + bytes[3] * 0x100_0000
}

/// The four bytes that spell `value` in little-endian order.
pub open spec fn le_bytes(value: u32) -> Seq<u8> {
    seq![
        (value % 0x100) as u8,
        (value / 0x100 % 0x100) as u8,
        (value / 0x1_0000 % 0x100) as u8,
        (value / 0x100_0000) as u8,
    ]
}

/// Spelling a number and reading it back gives the number.
pub proof fn lemma_le_spell_then_read(value: u32)
    ensures
        le_u32(le_bytes(value)) == value,
{
    let bytes = le_bytes(value);
    assert(bytes[0] == value % 0x100);
    assert(bytes[1] == value / 0x100 % 0x100);
    assert(bytes[2] == value / 0x1_0000 % 0x100);
    assert(bytes[3] == value / 0x100_0000);
}

/// Reading four bytes gives a 32-bit number, and spelling it gives the bytes.
pub proof fn lemma_le_read_then_spell(bytes: Seq<u8>)
    requires
        bytes.len() == 4,
    ensures
        0 <= le_u32(bytes) <= u32::MAX,
        le_bytes(le_u32(bytes) as u32) =~= bytes,
{
    let b0 = bytes[0] as int;
    let b1 = bytes[1] as int;
    let b2 = bytes[2] as int;
    let b3 = bytes[3] as int;
    let n = le_u32(bytes);
    assert(n == b0 + 0x100 * (b1 + 0x100 * (b2 + 0x100 * b3)));
    assert(n % 0x100 == b0 && n / 0x100 == b1 + 0x100 * (b2 + 0x100 * b3));
    let n1 = n / 0x100;
    assert(n1 % 0x100 == b1 && n1 / 0x100 == b2 + 0x100 * b3);
    let n2 = n1 / 0x100;
    assert(n2 % 0x100 == b2 && n2 / 0x100 == b3);
    assert(n / 0x1_0000 == n2);
    assert(n / 0x100_0000 == b3);
    let spelled = le_bytes(n as u32);
    assert(spelled[0] == bytes[0]);
    assert(spelled[1] == bytes[1]);
    assert(spelled[2] == bytes[2]);
    assert(spelled[3] == bytes[3]);
}

/// The number of whole steps of `2^q` units that fit into a magnitude given
/// in millionths of a unit.
pub open spec fn steps_in(magnitude: int, q: int) -> int {
    if q >= 0 {
        magnitude / (UNIT * pow2(q as nat))
    } else {
        magnitude * pow2((-q) as nat) / (UNIT as int)
    }
}

/// The first step exponent, counted down from `q`, of which at least `2^23`
/// steps fit into the magnitude.
pub open spec fn step_search(magnitude: int, q: int) -> int
    decreases q + 43,
{
    if q <= -43 || steps_in(magnitude, q) >= 0x80_0000 {
        q
    } else {
        step_search(magnitude, q - 1)
    }
}

/// The step exponent of the single that stands for a magnitude: the one
/// that makes the number of steps a full 24-bit significand.
pub open spec fn step_exponent(magnitude: int) -> int {
    step_search(magnitude, 20)
}

/// The bits of the single nearest to a fixed-point value in the direction
/// of zero.
pub open spec fn encoding(value: int) -> int {
    if value == 0 {
        0
    } else {
        let magnitude = if value < 0 {
            -value
        } else {
            value
        };
        let sign_bit: int = if value < 0 {
            0x8000_0000
        } else {
            0
        };
        let q = step_exponent(magnitude);
        sign_bit + (q + 150) * 0x80_0000 + (steps_in(magnitude, q) - 0x80_0000)
    }
}

impl Single {
    /// Sign bit: `true` for a negative number.
    pub open spec fn sign(self) -> bool {
        self.bits >= 0x8000_0000
    }

    /// The eight exponent bits, `0 ..= 255`.
    pub open spec fn exponent(self) -> int {
        self.bits as int / 0x80_0000 % 0x100
    }

    /// The 23 fraction bits.
    pub open spec fn fraction(self) -> int {
        self.bits as int % 0x80_0000
    }

    /// The bits stand for no number (exponent all ones, fraction not zero).
    pub open spec fn nan(self) -> bool {
        self.exponent() == 255 && self.fraction() != 0
    }

    /// The bits stand for a number that is neither infinite nor NaN.
    pub open spec fn finite(self) -> bool {
        self.exponent() != 255
    }

    /// The 24 bits of the significand: the fraction, led by a one unless the
    /// number is subnormal.
    pub open spec fn significand(self) -> int {
        if self.exponent() == 0 {
            self.fraction()
        } else {
            0x80_0000 + self.fraction()
        }
    }

    /// The power of two that one count of the significand is worth.
    pub open spec fn ulp_exponent(self) -> int {
        if self.exponent() == 0 {
            -149
        } else {
            self.exponent() - 150
        }
    }

    /// The magnitude of a finite single in millionths, rounded towards zero:
    /// `significand * 2^ulp_exponent * 1_000_000`.
    pub open spec fn magnitude(self) -> int {
        let q = self.ulp_exponent();
        if q >= 0 {
            self.significand() * UNIT * pow2(q as nat)
        } else {
            self.significand() * UNIT / (pow2((-q) as nat) as int)
        }
    }

    /// The fixed-point value nearest to the single in the direction of zero.
    /// There is none for NaN, for the infinities and for a magnitude beyond
    /// the range of `i64`.
    pub open spec fn micro(self) -> Option<int> {
        if !self.finite() || self.magnitude() > i64::MAX {
            None
        } else if self.sign() {
            Some(-self.magnitude())
        } else {
            Some(self.magnitude())
        }
    }

    /// Wraps the 32 bits of a single.
    pub fn from_bits(bits: u32) -> (single: Single)
        ensures
            single.bits == bits,
    {
        Single { bits }
    }

    /// The 32 bits of the single.
    pub fn to_bits(self) -> (bits: u32)
        ensures
            bits == self.bits,
    {
        self.bits
    }

    /// Reads a single from its four bytes in little-endian order.
    pub fn from_le_bytes(bytes: [u8; 4]) -> (single: Single)
        ensures
            single.bits == le_u32(bytes@),
            le_bytes(single.bits) =~= bytes@,
    {
        let b0: u32 = bytes[0] as u32;
        let b1: u32 = bytes[1] as u32;
        let b2: u32 = bytes[2] as u32;
        let b3: u32 = bytes[3] as u32;
        let bits: u32 = b0 + b1 * 0x100 + b2 * 0x1_0000 + b3 * 0x100_0000;
        proof {
            assert(bits == le_u32(bytes@));
            lemma_le_read_then_spell(bytes@);
        }
        Single { bits }
    }

    /// The four bytes of the single in little-endian order.
    pub fn to_le_bytes(self) -> (bytes: [u8; 4])
        ensures
            bytes@ == le_bytes(self.bits),
            le_u32(bytes@) == self.bits,
    {
        let bits: u32 = self.bits;
        let bytes: [u8; 4] = [
            (bits % 0x100) as u8,
            (bits / 0x100 % 0x100) as u8,
            (bits / 0x1_0000 % 0x100) as u8,
            (bits / 0x100_0000) as u8,
        ];
        proof {
            assert(bytes@ =~= le_bytes(self.bits));
            lemma_le_spell_then_read(self.bits);
        }
        bytes
    }

    /// Converts the single to fixed-point, rounding towards zero. NaN, the
    /// infinities and numbers beyond the range of `i64` give `None`.
    pub fn to_micro(self) -> (value: Option<i64>)
        ensures
            as_int(value) == self.micro(),
    {
        let exponent: u32 = self.bits / 0x80_0000 % 0x100;
        let fraction: u32 = self.bits % 0x80_0000;
        let negative: bool = self.bits >= 0x8000_0000;
        if exponent == 255 {
            return None;
        }
        let significand: u64 = if exponent == 0 {
            fraction as u64
        } else {
            0x80_0000 + fraction as u64
        };
        let scaled: u64 = significand * 1_000_000;
        let magnitude: u64 = if exponent >= 150 {
            let shift: u32 = exponent - 150;
            if shift > 20 {
                proof {
                    if shift > 21 {
                        lemma_pow2_strictly_increases(21, shift as nat);
                    }
                    lemma2_to64();
                    lemma_product_grows(scaled as int, 0x20_0000, pow2(shift as nat) as int);
                    assert(self.magnitude() == scaled * pow2(shift as nat));
                    assert(scaled * 0x20_0000 > i64::MAX);
                }
                return None;
            }
            let power: u64 = power_of_two(shift);
            proof {
                if shift < 20 {
                    lemma_pow2_strictly_increases(shift as nat, 20);
                }
                lemma2_to64();
                lemma_product_grows(power as int, scaled as int, 0x100_0000int * 1_000_000);
            }
            scaled * power
        } else {
            let shift: u32 = if exponent == 0 {
                149
            } else {
                150 - exponent
            };
            if shift >= 45 {
                proof {
                    lemma_pow2_strictly_increases(44, shift as nat);
                    lemma2_to64_rest();
                    lemma_small_over_large(scaled as int, pow2(shift as nat) as int);
                }
                0
            } else {
                let power: u64 = power_of_two(shift);
                scaled / power
            }
        };
        if magnitude > i64::MAX as u64 {
            None
        } else if negative {
            Some(-(magnitude as i64))
        } else {
            Some(magnitude as i64)
        }
    }

    /// Converts a fixed-point value to the nearest single in the direction
    /// of zero.
    pub fn from_micro(value: i64) -> (single: Single)
        ensures
            single.bits == encoding(value as int),
    {
        if value == 0 {
            return Single { bits: 0 };
        }
        let negative: bool = value < 0;
        let magnitude: u128 = if value == i64::MIN {
            0x8000_0000_0000_0000
        } else if negative {
            (-value) as u128
        } else {
            value as u128
        };
        let mut q: i32 = 20;
        let mut steps: u128 = count_steps(magnitude, q);
        proof {
            lemma2_to64();
            assert(UNIT * pow2(20) == 1_048_576_000_000);
        }
        while q > -43 && steps < 0x80_0000
            invariant
                -43 <= q <= 20,
                0 < magnitude <= 0x8000_0000_0000_0000,
                steps == steps_in(magnitude as int, q as int),
                step_search(magnitude as int, q as int) == step_exponent(magnitude as int),
                steps < 0x100_0000,
            decreases q + 43,
        {
            proof {
                lemma_steps_double(magnitude as int, (q - 1) as int);
            }
            q = q - 1;
            steps = count_steps(magnitude, q);
        }
        proof {
            if q == -43 {
                lemma2_to64_rest();
                lemma_product_grows(pow2(43) as int, 1, magnitude as int);
                assert(magnitude * pow2(43) == pow2(43) * magnitude) by (nonlinear_arith);
                assert(steps >= 0x80_0000);
            }
        }
        let sign_bit: u32 = if negative {
            0x8000_0000
        } else {
            0
        };
        let exponent: u32 = (q + 150) as u32;
        let fraction: u32 = (steps - 0x80_0000) as u32;
        Single { bits: sign_bit + exponent * 0x80_0000 + fraction }
    }

    /// Whether the bits stand for no number.
    pub fn is_nan(self) -> (r: bool)
        ensures
            r == self.nan(),
    {
        self.bits / 0x80_0000 % 0x100 == 255 && self.bits % 0x80_0000 != 0
    }
}

/// Computes a power of two.
fn power_of_two(exponent: u32) -> (power: u64)
    requires
        exponent < 64,
    ensures
        power == pow2(exponent as nat),
        power >= 1,
{
    let mut power: u64 = 1;
    let mut i: u32 = 0;
    proof {
        lemma2_to64();
    }
    while i < exponent
        invariant
            i <= exponent < 64,
            power == pow2(i as nat),
            power >= 1,
        decreases exponent - i,
    {
        proof {
            lemma_pow2_unfold((i + 1) as nat);
            if i + 1 < 63 {
                lemma_pow2_strictly_increases((i + 1) as nat, 63);
            }
            lemma2_to64_rest();
        }
        power = power * 2;
        i += 1;
    }
    power
}

/// Computes [`steps_in`].
fn count_steps(magnitude: u128, q: i32) -> (steps: u128)
    requires
        magnitude <= 0x8000_0000_0000_0000,
        -43 <= q <= 20,
    ensures
        steps == steps_in(magnitude as int, q as int),
{
    proof {
        lemma2_to64();
        lemma2_to64_rest();
    }
    if q >= 0 {
        let power: u64 = power_of_two(q as u32);
        proof {
            if q < 20 {
                lemma_pow2_strictly_increases(q as nat, 20);
            }
        }
        magnitude / (1_000_000 * (power as u128))
    } else {
        let power: u64 = power_of_two((-q) as u32);
        proof {
            if q > -43 {
                lemma_pow2_strictly_increases((-q) as nat, 43);
            }
            lemma_product_grows(magnitude as int, power as int, 0x800_0000_0000);
        }
        magnitude * (power as u128) / 1_000_000
    }
}

/// Halving the step at most doubles the number of steps and adds one.
proof fn lemma_steps_double(magnitude: int, q: int)
    requires
        0 <= magnitude,
    ensures
        steps_in(magnitude, q) <= 2 * steps_in(magnitude, q + 1) + 1,
{
    if q >= 0 {
        lemma_pow2_unfold((q + 1) as nat);
        lemma_pow2_pos(q as nat);
        let d = UNIT * pow2(q as nat);
        assert(d > 0 && UNIT * pow2((q + 1) as nat) == 2 * d) by (nonlinear_arith)
            requires
                d == UNIT * pow2(q as nat),
                pow2(q as nat) > 0,
                UNIT == 1_000_000,
                pow2((q + 1) as nat) == 2 * pow2(q as nat),
        ;
        lemma_half_divisor(magnitude, d);
        assert(steps_in(magnitude, q) == magnitude / d);
        assert(steps_in(magnitude, q + 1) == magnitude / (2 * d));
    } else if q == -1 {
        lemma2_to64();
        assert(UNIT * pow2(0) == UNIT);
        assert(magnitude * pow2(1) == 2 * magnitude);
        assert(steps_in(magnitude, q) == (2 * magnitude) / (UNIT as int));
        assert(steps_in(magnitude, q + 1) == magnitude / (UNIT as int));
    } else {
        lemma_pow2_unfold((-q) as nat);
        let larger = magnitude * pow2((-q - 1) as nat);
        assert(magnitude * pow2((-q) as nat) == 2 * larger) by (nonlinear_arith)
            requires
                pow2((-q) as nat) == 2 * pow2((-q - 1) as nat),
                larger == magnitude * pow2((-q - 1) as nat),
        ;
        assert(steps_in(magnitude, q) == (2 * larger) / (UNIT as int));
        assert(steps_in(magnitude, q + 1) == larger / (UNIT as int));
    }
}

/// The search for the step exponent ends in the range of normal singles
/// with a full significand.
proof fn lemma_step_search_finds_significand(magnitude: int, q: int)
    requires
        0 < magnitude <= 0x8000_0000_0000_0000,
        -43 <= q <= 20,
        steps_in(magnitude, q) < 0x100_0000,
    ensures
        -43 <= step_search(magnitude, q) <= q,
        0x80_0000 <= steps_in(magnitude, step_search(magnitude, q)) < 0x100_0000,
    decreases q + 43,
{
    if q <= -43 {
        lemma2_to64_rest();
        lemma_product_grows(pow2(43) as int, 1, magnitude);
        assert(magnitude * pow2(43) == pow2(43) * magnitude) by (nonlinear_arith);
    } else if steps_in(magnitude, q) < 0x80_0000 {
        lemma_steps_double(magnitude, q - 1);
        lemma_step_search_finds_significand(magnitude, q - 1);
    }
}

/// The single that stands for a fixed-point value other than zero is a
/// normal number: its exponent field is the step exponent plus 150, its
/// significand the number of steps, its sign the value's.
pub proof fn lemma_encoding_fields(value: i64)
    requires
        value != 0,
    ensures
        ({
            let magnitude = if value < 0 {
                -value
            } else {
                value as int
            };
            let q = step_exponent(magnitude);
            let single = Single { bits: encoding(value as int) as u32 };
            &&& -43 <= q <= 20
            &&& single.bits == encoding(value as int)
            &&& single.sign() == (value < 0)
            &&& single.exponent() == q + 150
            &&& single.significand() == steps_in(magnitude, q)
            &&& single.ulp_exponent() == q
            &&& 0x80_0000 <= single.significand() < 0x100_0000
            &&& single.finite()
        }),
{
    let magnitude = if value < 0 {
        -value
    } else {
        value as int
    };
    lemma2_to64();
    assert(UNIT * pow2(20) == 1_048_576_000_000);
    assert(steps_in(magnitude, 20) == magnitude / 1_048_576_000_000);
    lemma_step_search_finds_significand(magnitude, 20);
}

/// Converting a fixed-point value to a single and back gives a value of the
/// same sign that is not farther from zero.
pub proof fn lemma_encoding_rounds_towards_zero(value: i64)
    ensures
        ({
            let single = Single { bits: encoding(value as int) as u32 };
            &&& single.micro() matches Some(back)
            &&& (value >= 0 ==> 0 <= back <= value)
            &&& (value <= 0 ==> value <= back <= 0)
        }),
{
    let single = Single { bits: encoding(value as int) as u32 };
    if value == 0 {
        lemma2_to64_rest();
        assert(single.exponent() == 0);
        assert(single.significand() == 0);
        assert(0 * UNIT / (pow2(149) as int) == 0) by {
            lemma_pow2_pos(149);
            lemma_small_over_large(0, pow2(149) as int);
        }
    } else {
        lemma_encoding_fields(value);
        let magnitude = if value < 0 {
            -value
        } else {
            value as int
        };
        let q = step_exponent(magnitude);
        let steps = steps_in(magnitude, q);
        if q >= 0 {
            lemma_pow2_pos(q as nat);
            let d = UNIT * pow2(q as nat);
            assert(d > 0 && steps * UNIT * pow2(q as nat) == steps * d) by (nonlinear_arith)
                requires
                    d == UNIT * pow2(q as nat),
                    pow2(q as nat) > 0,
                    UNIT == 1_000_000,
            ;
            lemma_quotient_times_divisor(magnitude, d);
            lemma_multiples_of_unit_below_limit(steps, d, magnitude);
        } else {
            let p = pow2((-q) as nat) as int;
            lemma_pow2_pos((-q) as nat);
            lemma_quotient_times_divisor(magnitude * p, UNIT as int);
            lemma_quotient_below(steps * UNIT, magnitude, p);
        }
    }
}

/// Converting a fixed-point value to a single and back loses less than the
/// `2^23`rd part of the value and one count.
pub proof fn lemma_encoding_error_is_small(value: i64)
    ensures
        ({
            let single = Single { bits: encoding(value as int) as u32 };
            let magnitude = if value < 0 {
                -value
            } else {
                value as int
            };
            &&& single.finite()
            &&& 0 <= magnitude - single.magnitude() <= magnitude / 0x80_0000 + 1
        }),
{
    let single = Single { bits: encoding(value as int) as u32 };
    if value == 0 {
        lemma2_to64_rest();
        assert(single.exponent() == 0);
        assert(single.significand() == 0);
        assert(0 * UNIT / (pow2(149) as int) == 0) by {
            lemma_pow2_pos(149);
            lemma_small_over_large(0, pow2(149) as int);
        }
    } else {
        lemma_encoding_fields(value);
        let magnitude = if value < 0 {
            -value
        } else {
            value as int
        };
        let q = step_exponent(magnitude);
        let steps = steps_in(magnitude, q);
        if q >= 0 {
            lemma_pow2_pos(q as nat);
            let d = UNIT * pow2(q as nat);
            assert(d > 0 && steps * UNIT * pow2(q as nat) == steps * d) by (nonlinear_arith)
                requires
                    d == UNIT * pow2(q as nat),
                    pow2(q as nat) > 0,
                    UNIT == 1_000_000,
            ;
            lemma_floor_error(magnitude, d, steps);
        } else {
            let p = pow2((-q) as nat) as int;
            lemma_pow2_pos((-q) as nat);
            lemma_scaled_floor_error(magnitude, p, UNIT as int, steps);
        }
    }
}

/// Halving the step at least doubles the number of steps.
proof fn lemma_steps_at_least_double(magnitude: int, q: int)
    requires
        0 <= magnitude,
    ensures
        0 <= 2 * steps_in(magnitude, q + 1) <= steps_in(magnitude, q),
{
    if q >= 0 {
        lemma_pow2_unfold((q + 1) as nat);
        lemma_pow2_pos(q as nat);
        let d = UNIT * pow2(q as nat);
        assert(d > 0 && UNIT * pow2((q + 1) as nat) == 2 * d) by (nonlinear_arith)
            requires
                d == UNIT * pow2(q as nat),
                pow2(q as nat) > 0,
                UNIT == 1_000_000,
                pow2((q + 1) as nat) == 2 * pow2(q as nat),
        ;
        lemma_double_divisor(magnitude, d);
        assert(steps_in(magnitude, q) == magnitude / d);
        assert(steps_in(magnitude, q + 1) == magnitude / (2 * d));
    } else if q == -1 {
        lemma2_to64();
        assert(UNIT * pow2(0) == UNIT);
        assert(magnitude * pow2(1) == 2 * magnitude);
        assert(steps_in(magnitude, q) == (2 * magnitude) / (UNIT as int));
        assert(steps_in(magnitude, q + 1) == magnitude / (UNIT as int));
    } else {
        lemma_pow2_unfold((-q) as nat);
        lemma_pow2_pos((-q - 1) as nat);
        let larger = magnitude * pow2((-q - 1) as nat);
        assert(larger >= 0 && magnitude * pow2((-q) as nat) == 2 * larger) by (nonlinear_arith)
            requires
                0 <= magnitude,
                pow2((-q - 1) as nat) > 0,
                pow2((-q) as nat) == 2 * pow2((-q - 1) as nat),
                larger == magnitude * pow2((-q - 1) as nat),
        ;
        assert(steps_in(magnitude, q) == (2 * larger) / (UNIT as int));
        assert(steps_in(magnitude, q + 1) == larger / (UNIT as int));
    }
}

/// A smaller step never gives fewer than twice the steps of a larger one.
proof fn lemma_smaller_step_gives_more(magnitude: int, q1: int, q2: int)
    requires
        0 <= magnitude,
        q1 < q2,
    ensures
        0 <= 2 * steps_in(magnitude, q2) <= steps_in(magnitude, q1),
    decreases q2 - q1,
{
    lemma_steps_at_least_double(magnitude, q1);
    if q1 + 1 < q2 {
        lemma_smaller_step_gives_more(magnitude, q1 + 1, q2);
    }
}

/// The step exponent is the only one that makes the number of steps a full
/// 24-bit significand.
pub proof fn lemma_step_exponent_is_unique(magnitude: int, q: int)
    requires
        0 < magnitude <= 0x8000_0000_0000_0000,
        -43 <= q <= 20,
        0x80_0000 <= steps_in(magnitude, q) < 0x100_0000,
    ensures
        step_exponent(magnitude) == q,
{
    lemma2_to64();
    assert(UNIT * pow2(20) == 1_048_576_000_000);
    assert(steps_in(magnitude, 20) == magnitude / 1_048_576_000_000);
    lemma_step_search_finds_significand(magnitude, 20);
    let found = step_exponent(magnitude);
    if found < q {
        lemma_smaller_step_gives_more(magnitude, found, q);
    } else if q < found {
        lemma_smaller_step_gives_more(magnitude, q, found);
    }
}

/// A fixed-point value that a normal single holds exactly is converted to
/// that single: nothing is lost where nothing needs to be.
pub proof fn lemma_exact_values_keep_their_single(single: Single)
    requires
        0 < single.exponent() < 255,
        -43 <= single.ulp_exponent() <= 20,
        single.magnitude() <= 0x8000_0000_0000_0000,
        single.ulp_exponent() < 0 ==> single.significand() * UNIT % (pow2(
            (-single.ulp_exponent()) as nat,
        ) as int) == 0,
    ensures
        encoding(
            if single.sign() {
                -single.magnitude()
            } else {
                single.magnitude()
            },
        ) == single.bits,
{
    let q = single.ulp_exponent();
    let significand = single.significand();
    let magnitude = single.magnitude();
    assert(0x80_0000 <= significand < 0x100_0000);
    if q >= 0 {
        lemma_pow2_pos(q as nat);
        let d = UNIT * pow2(q as nat);
        assert(d > 0 && magnitude == significand * d) by (nonlinear_arith)
            requires
                d == UNIT * pow2(q as nat),
                pow2(q as nat) > 0,
                UNIT == 1_000_000,
                magnitude == significand * UNIT * pow2(q as nat),
        ;
        lemma_multiple_over_divisor(significand, d);
    } else {
        let p = pow2((-q) as nat) as int;
        lemma_pow2_pos((-q) as nat);
        lemma_exact_quotient(significand * UNIT, p);
        lemma_multiple_over_divisor(significand, UNIT as int);
        assert(magnitude * p == significand * UNIT);
    }
    assert(steps_in(magnitude, q) == significand);
    assert(magnitude > 0) by {
        if q >= 0 {
            lemma_pow2_pos(q as nat);
            lemma_product_is_positive(significand * UNIT, pow2(q as nat) as int);
        } else {
            lemma_pow2_pos((-q) as nat);
            lemma_product_is_positive(magnitude, pow2((-q) as nat) as int);
        }
    }
    lemma_step_exponent_is_unique(magnitude, q);
}

} // verus!
