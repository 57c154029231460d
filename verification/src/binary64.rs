//! Order between integers and binary64 floating point values.
//!
//! A floating point value is given by its IEEE-754 bit pattern and is decoded
//! with integer arithmetic only: a finite value is its significand times a
//! power of two, so that `2^1074` times the value is an integer.
use vstd::prelude::*;
use vstd::arithmetic::power2::*;

verus! {

/// The sign bit of a pattern.
pub const SIGN_BIT: u64 = 0x8000_0000_0000_0000;

/// The weight of the hidden bit of a normal significand, `2^52`.
pub const HIDDEN_BIT: u64 = 0x10_0000_0000_0000;

/// The exponent field of infinities and of values that are not numbers.
pub const SPECIAL_EXPONENT: u64 = 0x7ff;

/// The scale at which the significand is the value itself.
pub const UNIT_SCALE: u64 = 1074;

/// Whether the sign bit is set.
pub open spec fn negative(bits: u64) -> bool {
    bits >= SIGN_BIT
}

/// The pattern without its sign bit.
pub open spec fn unsigned_part(bits: u64) -> int {
    if bits >= SIGN_BIT {
        bits - SIGN_BIT
    } else {
        bits as int
    }
}

/// The exponent field, from 0 to 2047.
pub open spec fn exponent_field(bits: u64) -> int {
    unsigned_part(bits) / (HIDDEN_BIT as int)
}

/// The fraction field, below `2^52`.
pub open spec fn fraction_field(bits: u64) -> int {
    unsigned_part(bits) % (HIDDEN_BIT as int)
}

/// Whether the pattern stands for a number, zero included.
pub open spec fn finite(bits: u64) -> bool {
    exponent_field(bits) != SPECIAL_EXPONENT
}

/// Whether the pattern stands for no number at all.
pub open spec fn not_a_number(bits: u64) -> bool {
    exponent_field(bits) == SPECIAL_EXPONENT && fraction_field(bits) != 0
}

/// The significand of a finite pattern, below `2^53`.
pub open spec fn significand(bits: u64) -> int {
    if exponent_field(bits) == 0 {
        fraction_field(bits)
    } else {
        fraction_field(bits) + HIDDEN_BIT
    }
}

/// The power of two by which the significand is scaled, counted from the
/// smallest one a pattern can have: the magnitude of a finite pattern is
/// `significand * 2^(scale - 1074)`.
pub open spec fn scale(bits: u64) -> nat {
    if exponent_field(bits) == 0 {
        0
    } else {
        (exponent_field(bits) - 1) as nat
    }
}

/// `2^1074` times the value of a finite pattern.
pub open spec fn scaled_value(bits: u64) -> int {
    let magnitude = significand(bits) * pow2(scale(bits));
    if negative(bits) {
        -magnitude
    } else {
        magnitude
    }
}

/// Whether `bound <= value`.  Positive infinity is above every bound; negative
/// infinity and what is not a number are above none.
pub open spec fn is_at_least(bits: u64, bound: int) -> bool {
    if finite(bits) {
        bound * pow2(UNIT_SCALE as nat) <= scaled_value(bits)
    } else {
        !not_a_number(bits) && !negative(bits)
    }
}

/// Whether `value <= bound`.  Negative infinity is below every bound; positive
/// infinity and what is not a number are below none.
pub open spec fn is_at_most(bits: u64, bound: int) -> bool {
    if finite(bits) {
        scaled_value(bits) <= bound * pow2(UNIT_SCALE as nat)
    } else {
        !not_a_number(bits) && negative(bits)
    }
}

/// Multiplying both sides by a positive factor keeps their order.
proof fn lemma_scaling_keeps_order(a: int, b: int, p: int)
    requires
        p > 0,
    ensures
        (a * p <= b * p) == (a <= b),
        (a * p >= b * p) == (a >= b),
{
    assert((a * p <= b * p) == (a <= b)) by (nonlinear_arith)
        requires
            p > 0,
    ;
    assert((a * p >= b * p) == (a >= b)) by (nonlinear_arith)
        requires
            p > 0,
    ;
}

/// A product of a significand and a power of two up to `2^10` stays below
/// `2^63`.
proof fn lemma_small_shift_fits(m: int, k: nat)
    requires
        0 <= m < 0x20_0000_0000_0000,
        k <= 10,
    ensures
        0 <= m * pow2(k) < 0x8000_0000_0000_0000,
        pow2(k) <= 0x400,
{
    lemma2_to64();
    if k < 10 {
        lemma_pow2_strictly_increases(k, 10);
    }
    lemma_pow2_pos(k);
    let p = pow2(k) as int;
    assert(0 <= m * p < 0x8000_0000_0000_0000) by (nonlinear_arith)
        requires
            0 <= m < 0x20_0000_0000_0000,
            0 < p <= 0x400,
    ;
}

/// How a finite magnitude `m * 2^(e - 1074)`, signed by `neg`, stands to an
/// integer bound: the first result says that the bound is not above it, the
/// second that the bound is not below it.
fn relate_finite(neg: bool, m: u64, e: u64, bound: i64) -> (r: (bool, bool))
    requires
        m < 0x20_0000_0000_0000,
        e <= 2045,
        e > 0 ==> m >= HIDDEN_BIT,
    ensures
        r.0 == (bound * pow2(UNIT_SCALE as nat) <= (if neg {
            -(m * pow2(e as nat))
        } else {
            m * pow2(e as nat)
        })),
        r.1 == ((if neg {
            -(m * pow2(e as nat))
        } else {
            m * pow2(e as nat)
        }) <= bound * pow2(UNIT_SCALE as nat)),
{
    let ghost unit = pow2(UNIT_SCALE as nat) as int;
    let ghost step = pow2(e as nat) as int;
    proof {
        lemma_pow2_pos(UNIT_SCALE as nat);
        lemma_pow2_pos(e as nat);
    }
    if m == 0 {
        proof {
            assert(m * step == 0) by (nonlinear_arith)
                requires
                    m == 0,
            ;
            assert((bound * unit <= 0) == (bound <= 0) && (0 <= bound * unit) == (0 <= bound))
                by (nonlinear_arith)
                requires
                    unit > 0,
            ;
        }
        (bound <= 0, bound >= 0)
    } else if e >= UNIT_SCALE {
        let k: u64 = e - UNIT_SCALE;
        let ghost whole = pow2(k as nat) as int;
        proof {
            lemma_pow2_adds(k as nat, UNIT_SCALE as nat);
            lemma_pow2_pos(k as nat);
            // the signed magnitude is a multiple of the unit
            assert(m * step == (m * whole) * unit) by (nonlinear_arith)
                requires
                    step == whole * unit,
            ;
            assert(-(m * step) == (-(m * whole)) * unit) by (nonlinear_arith)
                requires
                    step == whole * unit,
            ;
        }
        if k <= 10 {
            proof {
                lemma_small_shift_fits(m as int, k as nat);
                vstd::bits::lemma_u64_shl_is_mul(m, k);
            }
            let magnitude: u64 = m << k;
            let value: i128 = if neg {
                -(magnitude as i128)
            } else {
                magnitude as i128
            };
            proof {
                lemma_scaling_keeps_order(bound as int, value as int, unit);
            }
            (bound as i128 <= value, value <= bound as i128)
        } else {
            proof {
                // the magnitude is at least 2^63
                lemma2_to64();
                if k > 11 {
                    lemma_pow2_strictly_increases(11, k as nat);
                }
                assert(m * whole >= 0x8000_0000_0000_0000) by (nonlinear_arith)
                    requires
                        m >= 0x10_0000_0000_0000,
                        whole >= 0x800,
                ;
                assert(m * whole == 0x8000_0000_0000_0000 ==> m == 0x10_0000_0000_0000 && whole
                    == 0x800) by (nonlinear_arith)
                    requires
                        m >= 0x10_0000_0000_0000,
                        whole >= 0x800,
                ;
                assert(m == 0x10_0000_0000_0000 && whole == 0x800 ==> m * whole
                    == 0x8000_0000_0000_0000) by (nonlinear_arith);
                if neg {
                    lemma_scaling_keeps_order(bound as int, -(m * whole), unit);
                } else {
                    lemma_scaling_keeps_order(bound as int, m * whole, unit);
                }
            }
            if neg {
                let touches = bound == i64::MIN && m == HIDDEN_BIT && k == 11;
                proof {
                    if k != 11 {
                        lemma_pow2_strictly_increases(11, k as nat);
                    }
                }
                (touches, true)
            } else {
                (true, false)
            }
        }
    } else {
        let sh: u64 = UNIT_SCALE - e;
        let ghost part = pow2(sh as nat) as int;
        proof {
            lemma_pow2_adds(sh as nat, e as nat);
            lemma_pow2_pos(sh as nat);
            // both sides are multiples of the step
            assert(bound * unit == (bound * part) * step) by (nonlinear_arith)
                requires
                    unit == part * step,
            ;
            if neg {
                lemma_scaling_keeps_order(bound * part, -(m as int), step);
                assert((-(m as int)) * step == -(m * step)) by (nonlinear_arith);
            } else {
                lemma_scaling_keeps_order(bound * part, m as int, step);
            }
        }
        if sh >= 53 {
            proof {
                lemma2_to64_rest();
                if sh > 53 {
                    lemma_pow2_strictly_increases(53, sh as nat);
                }
                assert(bound >= 1 ==> bound * part > m) by (nonlinear_arith)
                    requires
                        part > m,
                        m >= 0,
                ;
                assert(bound <= -1 ==> bound * part < -m) by (nonlinear_arith)
                    requires
                        part > m,
                        m >= 0,
                ;
                assert(bound == 0 ==> bound * part == 0) by (nonlinear_arith);
            }
            if neg {
                (bound < 0, bound >= 0)
            } else {
                (bound <= 0, bound > 0)
            }
        } else {
            proof {
                lemma2_to64_rest();
                if sh < 52 {
                    lemma_pow2_strictly_increases(sh as nat, 52);
                }
                vstd::bits::lemma_u64_shl_is_mul(1, sh);
                assert(-0x8_0000_0000_0000_0000_0000_0000_0000 <= bound * part
                    <= 0x8_0000_0000_0000_0000_0000_0000_0000) by (nonlinear_arith)
                    requires
                        -0x8000_0000_0000_0000 <= bound <= 0x8000_0000_0000_0000,
                        0 < part <= 0x10_0000_0000_0000,
                ;
            }
            let factor: u64 = 1u64 << sh;
            let scaled_bound: i128 = (bound as i128) * (factor as i128);
            let value: i128 = if neg {
                -(m as i128)
            } else {
                m as i128
            };
            (scaled_bound <= value, value <= scaled_bound)
        }
    }
}

/// How the value of a pattern stands to an integer bound: the first result
/// says that the bound is not above it, the second that the bound is not
/// below it.
pub fn relate(bits: u64, bound: i64) -> (r: (bool, bool))
    ensures
        r.0 == is_at_least(bits, bound as int),
        r.1 == is_at_most(bits, bound as int),
{
    let neg = bits >= SIGN_BIT;
    let rest: u64 = if neg {
        bits - SIGN_BIT
    } else {
        bits
    };
    let exponent: u64 = rest / HIDDEN_BIT;
    let fraction: u64 = rest % HIDDEN_BIT;
    if exponent == SPECIAL_EXPONENT {
        (fraction == 0 && !neg, fraction == 0 && neg)
    } else if exponent == 0 {
        relate_finite(neg, fraction, 0, bound)
    } else {
        relate_finite(neg, fraction + HIDDEN_BIT, exponent - 1, bound)
    }
}

} // verus!
