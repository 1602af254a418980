//! Checks on the two real-valued arguments that cross the boundary: the
//! delta time of a tick and the day-cycle coefficient of a configuration.
//!
//! Both arrive as IEEE 754 bit patterns and are judged on the pattern: a
//! sign bit, a biased exponent and a fraction. The policy for a tick is that
//! positive zero and positive subnormal values are accepted, and that
//! negative zero is rejected along with every negative value.

use vstd::arithmetic::power2::{lemma2_to64, lemma_pow2_adds, lemma_pow2_strictly_increases, pow2};
use vstd::prelude::*;

verus! {

/// Upper bound, in whole seconds, on the delta time accepted for one tick.
///
/// A host may report an arbitrarily long pause after a hitch or a suspend.
/// The bound limits the work a single tick can demand.
pub const MAX_DELTA_TIME_SECONDS: u32 = 10;

/// The single-precision bit pattern of [`MAX_DELTA_TIME_SECONDS`].
pub const MAX_DELTA_TIME_BITS: u32 = 0x4120_0000;

/// The double-precision bit pattern of positive infinity.
pub const DOUBLE_INFINITY_BITS: u64 = 0x7FF0_0000_0000_0000;

/// The double-precision bit pattern of one.
pub const DOUBLE_ONE_BITS: u64 = 0x3FF0_0000_0000_0000;

/// Sign bit of a single-precision pattern.
pub open spec fn single_sign(bits: u32) -> nat {
    (bits / 0x8000_0000) as nat
}

/// Biased exponent of a single-precision pattern.
pub open spec fn single_exponent(bits: u32) -> nat {
    ((bits / 0x80_0000) % 0x100) as nat
}

/// Fraction field of a single-precision pattern.
pub open spec fn single_fraction(bits: u32) -> nat {
    (bits % 0x80_0000) as nat
}

/// Whether a single-precision pattern is neither an infinity nor a NaN.
pub open spec fn single_is_finite(bits: u32) -> bool {
    single_exponent(bits) != 0xFF
}

/// Magnitude of a finite single-precision pattern, counted in units of the
/// smallest positive subnormal value, two to the power of -149.
pub open spec fn single_magnitude(bits: u32) -> nat {
    if single_exponent(bits) == 0 {
        single_fraction(bits)
    } else {
        (0x80_0000 + single_fraction(bits)) * pow2((single_exponent(bits) - 1) as nat)
    }
}

/// [`MAX_DELTA_TIME_SECONDS`] in the units of [`single_magnitude`].
pub open spec fn delta_time_ceiling() -> nat {
    MAX_DELTA_TIME_SECONDS as nat * pow2(149)
}

/// Whether a delta time is accepted: finite, with a clear sign bit, and no
/// greater than the ceiling.
pub open spec fn delta_time_accepted(dt_bits: u32) -> bool {
    &&& single_sign(dt_bits) == 0
    &&& single_is_finite(dt_bits)
    &&& single_magnitude(dt_bits) <= delta_time_ceiling()
}

/// Among patterns with a clear sign bit, the order of the patterns is the
/// order of the values: a delta time is accepted exactly when its pattern
/// is no greater than that of the ceiling.
pub proof fn lemma_delta_time_by_pattern(dt_bits: u32)
    ensures
        delta_time_accepted(dt_bits) <==> dt_bits <= MAX_DELTA_TIME_BITS,
{
    let s = single_sign(dt_bits);
    let e = single_exponent(dt_bits);
    let f = single_fraction(dt_bits);
    assert(dt_bits == s * 0x8000_0000 + e * 0x80_0000 + f);
    assert(s <= 1 && e <= 0xFF && f < 0x80_0000);
    lemma2_to64();
    lemma_pow2_adds(129, 20);
    let p = pow2(129);
    assert(pow2(20) == 0x10_0000);
    assert(delta_time_ceiling() == 0xA0_0000 * p) by (nonlinear_arith)
        requires
            delta_time_ceiling() == 10 * pow2(149),
            pow2(149) == p * 0x10_0000,
    ;
    assert(p >= 1) by {
        lemma_pow2_strictly_increases(0, 129);
    }
    if s == 0 && e != 0xFF {
        if e == 0 {
            assert(f <= 0xA0_0000 * p) by (nonlinear_arith)
                requires
                    f < 0x80_0000,
                    p >= 1,
            ;
        } else {
            let q = pow2((e - 1) as nat);
            if e <= 129 {
                lemma_pow2_adds(128, 1);
                if e - 1 < 128 {
                    lemma_pow2_strictly_increases((e - 1) as nat, 128);
                }
                assert(2 * q <= p);
                assert((0x80_0000 + f) * q <= 0xA0_0000 * p) by (nonlinear_arith)
                    requires
                        f < 0x80_0000,
                        2 * q <= p,
                ;
            } else if e == 130 {
                assert(q == p);
                assert((0x80_0000 + f) * p <= 0xA0_0000 * p <==> f <= 0x20_0000)
                    by (nonlinear_arith)
                    requires
                        p >= 1,
                ;
            } else {
                lemma_pow2_adds(129, 1);
                if e - 1 > 130 {
                    lemma_pow2_strictly_increases(130, (e - 1) as nat);
                }
                assert(q >= 2 * p);
                assert((0x80_0000 + f) * q > 0xA0_0000 * p) by (nonlinear_arith)
                    requires
                        q >= 2 * p,
                        p >= 1,
                ;
            }
        }
    }
}

/// Positive zero is accepted as a step of no length, and so is every
/// positive subnormal value.
pub proof fn lemma_zero_and_subnormals_are_accepted(dt_bits: u32)
    requires
        dt_bits < 0x80_0000,
    ensures
        delta_time_accepted(dt_bits),
{
    lemma_delta_time_by_pattern(dt_bits);
}

/// Every NaN, both infinities, negative zero and every negative value are
/// refused.
pub proof fn lemma_non_finite_and_negative_are_refused(dt_bits: u32)
    requires
        single_exponent(dt_bits) == 0xFF || single_sign(dt_bits) == 1,
    ensures
        !delta_time_accepted(dt_bits),
{
}

/// Whether a delta time, given by its single-precision bit pattern, is
/// accepted for a tick.
pub fn delta_time_is_valid(dt_bits: u32) -> (valid: bool)
    ensures
        valid == delta_time_accepted(dt_bits),
        valid == (dt_bits <= MAX_DELTA_TIME_BITS),
{
    proof {
        lemma_delta_time_by_pattern(dt_bits);
    }
    dt_bits <= MAX_DELTA_TIME_BITS
}

/// Sign bit of a double-precision pattern.
pub open spec fn double_sign(bits: u64) -> nat {
    (bits / 0x8000_0000_0000_0000) as nat
}

/// Biased exponent of a double-precision pattern.
pub open spec fn double_exponent(bits: u64) -> nat {
    ((bits / 0x10_0000_0000_0000) % 0x800) as nat
}

/// Fraction field of a double-precision pattern.
pub open spec fn double_fraction(bits: u64) -> nat {
    (bits % 0x10_0000_0000_0000) as nat
}

/// Whether a day-cycle coefficient is accepted: finite and greater than
/// zero. Both zeros, every negative value, the infinities and every NaN are
/// rejected.
pub open spec fn day_cycle_accepted(bits: u64) -> bool {
    &&& double_sign(bits) == 0
    &&& double_exponent(bits) != 0x7FF
    &&& (double_exponent(bits) != 0 || double_fraction(bits) != 0)
}

/// Whether a day-cycle coefficient, given by its double-precision bit
/// pattern, is accepted.
pub fn day_cycle_is_valid(bits: u64) -> (valid: bool)
    ensures
        valid == day_cycle_accepted(bits),
        valid == (0 < bits < DOUBLE_INFINITY_BITS),
{
    proof {
        let s = double_sign(bits);
        let e = double_exponent(bits);
        let f = double_fraction(bits);
        assert(bits == s * 0x8000_0000_0000_0000 + e * 0x10_0000_0000_0000 + f);
        assert(s <= 1 && e <= 0x7FF && f < 0x10_0000_0000_0000);
    }
    0 < bits && bits < DOUBLE_INFINITY_BITS
}

} // verus!
