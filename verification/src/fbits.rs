//! Exact operations on IEEE-754 binary64 bit patterns.
//!
//! Unlike the rounded arithmetic behind `fops`, everything here is a pure
//! bit-level function whose value IEEE-754 determines exactly, so each
//! operation is ordinary verified code proved against a spec-level mirror:
//! sign flips, comparisons, the total order, floor conversion to an integer,
//! conversion from an integer, and the exact remainder by the grid cell size.

use vstd::prelude::*;

verus! {

pub const SIGN_MASK: u64 = 0x8000_0000_0000_0000;

pub const MAG_MASK: u64 = 0x7FFF_FFFF_FFFF_FFFF;

pub const EXP_MASK: u64 = 0x7FF0_0000_0000_0000;

pub const FRAC_MASK: u64 = 0x000F_FFFF_FFFF_FFFF;

/// The canonical quiet NaN produced by invalid operations.
pub const QUIET_NAN: u64 = 0x7FF8_0000_0000_0000;

/// Whether the bit pattern encodes a NaN (exponent all ones, fraction non-zero).
pub open spec fn spec_is_nan(a: u64) -> bool {
    a & EXP_MASK == EXP_MASK && a & FRAC_MASK != 0
}

/// Whether the bit pattern encodes a zero of either sign.
pub open spec fn spec_is_zero(a: u64) -> bool {
    a & MAG_MASK == 0
}

pub fn is_nan_bits(a: u64) -> (r: bool)
    ensures
        r == spec_is_nan(a),
{
    a & EXP_MASK == EXP_MASK && a & FRAC_MASK != 0
}

pub fn is_zero_bits(a: u64) -> (r: bool)
    ensures
        r == spec_is_zero(a),
{
    a & MAG_MASK == 0
}

/// IEEE-754 negation flips the sign bit and nothing else.
pub open spec fn spec_neg_bits(a: u64) -> u64 {
    a ^ SIGN_MASK
}

pub fn neg_bits(a: u64) -> (r: u64)
    ensures
        r == spec_neg_bits(a),
{
    a ^ SIGN_MASK
}

/// IEEE-754 absolute value clears the sign bit and nothing else.
pub open spec fn spec_abs_bits(a: u64) -> u64 {
    a & MAG_MASK
}

pub fn abs_bits(a: u64) -> (r: u64)
    ensures
        r == spec_abs_bits(a),
{
    a & MAG_MASK
}

/// The IEEE-754 `<` predicate on binary64 bit patterns: false when either
/// operand is NaN, treats the two zeroes as equal, and otherwise orders by
/// sign and magnitude.
pub open spec fn spec_lt_bits(a: u64, b: u64) -> bool {
    if spec_is_nan(a) || spec_is_nan(b) {
        false
    } else if spec_is_zero(a) && spec_is_zero(b) {
        false
    } else if (a & SIGN_MASK) != (b & SIGN_MASK) {
        a & SIGN_MASK != 0
    } else if a & SIGN_MASK == 0 {
        a & MAG_MASK < b & MAG_MASK
    } else {
        a & MAG_MASK > b & MAG_MASK
    }
}

/// The IEEE-754 `==` predicate on binary64 bit patterns: false when either
/// operand is NaN, true for the two zeroes, bit equality otherwise.
pub open spec fn spec_eq_bits(a: u64, b: u64) -> bool {
    if spec_is_nan(a) || spec_is_nan(b) {
        false
    } else {
        a == b || (spec_is_zero(a) && spec_is_zero(b))
    }
}

/// The IEEE-754 `<=` predicate on binary64 bit patterns.
pub open spec fn spec_le_bits(a: u64, b: u64) -> bool {
    spec_lt_bits(a, b) || spec_eq_bits(a, b)
}

pub fn lt_bits(a: u64, b: u64) -> (r: bool)
    ensures
        r == spec_lt_bits(a, b),
{
    if is_nan_bits(a) || is_nan_bits(b) {
        false
    } else if is_zero_bits(a) && is_zero_bits(b) {
        false
    } else if (a & SIGN_MASK) != (b & SIGN_MASK) {
        a & SIGN_MASK != 0
    } else if a & SIGN_MASK == 0 {
        a & MAG_MASK < b & MAG_MASK
    } else {
        a & MAG_MASK > b & MAG_MASK
    }
}

pub fn eq_bits(a: u64, b: u64) -> (r: bool)
    ensures
        r == spec_eq_bits(a, b),
{
    if is_nan_bits(a) || is_nan_bits(b) {
        false
    } else {
        a == b || (is_zero_bits(a) && is_zero_bits(b))
    }
}

pub fn le_bits(a: u64, b: u64) -> (r: bool)
    ensures
        r == spec_le_bits(a, b),
{
    lt_bits(a, b) || eq_bits(a, b)
}

/// The key of the IEEE-754 total order: orders bit patterns so that
/// `key(a) < key(b)` exactly when `a` precedes `b` in `totalOrder`.
pub open spec fn spec_total_key(a: u64) -> u64 {
    if a & SIGN_MASK != 0 {
        !a
    } else {
        a | SIGN_MASK
    }
}

/// Whether `a` strictly precedes `b` in the IEEE-754 total order
/// (the order of `f64::total_cmp`).
pub open spec fn spec_total_lt(a: u64, b: u64) -> bool {
    spec_total_key(a) < spec_total_key(b)
}

pub fn total_lt_bits(a: u64, b: u64) -> (r: bool)
    ensures
        r == spec_total_lt(a, b),
{
    let ka: u64 = if a & SIGN_MASK != 0 {
        !a
    } else {
        a | SIGN_MASK
    };
    let kb: u64 = if b & SIGN_MASK != 0 {
        !b
    } else {
        b | SIGN_MASK
    };
    ka < kb
}

/// The implicit-bit mask of a normal binary64 significand.
pub const IMPLICIT_BIT: u64 = 0x0010_0000_0000_0000;

/// Index of the highest set bit: `2^r <= v < 2^(r+1)` for `v >= 1`.
pub open spec fn spec_high_bit(v: u64) -> int
    decreases v,
{
    if v <= 1 {
        0
    } else {
        spec_high_bit((v / 2) as u64) + 1
    }
}

pub fn high_bit(v: u64) -> (r: u64)
    requires
        v >= 1,
    ensures
        r == spec_high_bit(v),
        r <= 63,
        v >> r == 1,
{
    let mut t: u64 = v;
    let mut h: u64 = 0;
    proof {
        assert(v >> 0 == v) by (bit_vector);
    }
    while t > 1
        invariant
            1 <= t,
            h <= 63,
            t == v >> h,
            spec_high_bit(v) == h + spec_high_bit(t),
        decreases t,
    {
        proof {
            assert((v >> h) >> 1 == v >> (h + 1)) by (bit_vector)
                requires
                    h < 64,
            ;
            assert(t >> 1 == t / 2 && (t > 1 ==> t >> 1 < t && t >> 1 >= 1)) by (bit_vector);
            if h >= 63 {
                assert(v >> h <= 1) by (bit_vector)
                    requires
                        h >= 63,
                ;
            }
        }
        t = t >> 1;
        h = h + 1;
    }
    h
}

/// `floor` followed by Rust's saturating `as i64` cast: NaN goes to 0,
/// values beyond the `i64` range saturate, and everything else is the
/// greatest integer not above the value.
pub open spec fn spec_floor_to_i64(a: u64) -> i64 {
    let neg = a & SIGN_MASK != 0;
    let e = (a & EXP_MASK) >> 52;
    let f = a & FRAC_MASK;
    if spec_is_nan(a) {
        0
    } else if e == 0x7FF {
        if neg {
            i64::MIN
        } else {
            i64::MAX
        }
    } else if e < 1023 {
        if neg && a & MAG_MASK != 0 {
            -1 as i64
        } else {
            0 as i64
        }
    } else if e >= 1086 {
        if neg {
            i64::MIN
        } else {
            i64::MAX
        }
    } else if e >= 1075 {
        let m = (f | IMPLICIT_BIT) << ((e - 1075) as u64);
        if neg {
            (0 - m as i64) as i64
        } else {
            m as i64
        }
    } else {
        let m = (f | IMPLICIT_BIT) >> ((1075 - e) as u64);
        let fr = (f | IMPLICIT_BIT) & (((1u64 << ((1075 - e) as u64)) - 1) as u64);
        if neg {
            if fr != 0 {
                (0 - m as i64 - 1) as i64
            } else {
                (0 - m as i64) as i64
            }
        } else {
            m as i64
        }
    }
}

pub fn floor_to_i64(a: u64) -> (r: i64)
    ensures
        r == spec_floor_to_i64(a),
{
    let neg = a & SIGN_MASK != 0;
    let e = (a & EXP_MASK) >> 52;
    let f = a & FRAC_MASK;
    proof {
        assert((a & EXP_MASK) >> 52 <= 0x7FF && (a & FRAC_MASK) < IMPLICIT_BIT) by (bit_vector);
    }
    if is_nan_bits(a) {
        0
    } else if e == 0x7FF {
        if neg {
            i64::MIN
        } else {
            i64::MAX
        }
    } else if e < 1023 {
        if neg && abs_bits(a) != 0 {
            -1
        } else {
            0
        }
    } else if e >= 1086 {
        if neg {
            i64::MIN
        } else {
            i64::MAX
        }
    } else if e >= 1075 {
        let sh = e - 1075;
        proof {
            assert(m_shift_fits(f, sh)) by (bit_vector)
                requires
                    f < IMPLICIT_BIT && sh <= 10,
            ;
        }
        let m = (f | IMPLICIT_BIT) << sh;
        if neg {
            0 - m as i64
        } else {
            m as i64
        }
    } else {
        let sh = 1075 - e;
        proof {
            assert((f | IMPLICIT_BIT) >> sh < IMPLICIT_BIT + IMPLICIT_BIT) by (bit_vector)
                requires
                    f < IMPLICIT_BIT && 1 <= sh <= 52,
            ;
        }
        proof {
            assert(1u64 << sh >= 2) by (bit_vector)
                requires
                    1 <= sh <= 52,
            ;
        }
        let m = (f | IMPLICIT_BIT) >> sh;
        let fr = (f | IMPLICIT_BIT) & ((1u64 << sh) - 1);
        if neg {
            if fr != 0 {
                0 - m as i64 - 1
            } else {
                0 - m as i64
            }
        } else {
            m as i64
        }
    }
}

/// The shifted significand stays below `2^63`, so its `i64` cast is
/// non-negative and negation cannot overflow.
pub open spec fn m_shift_fits(f: u64, sh: u64) -> bool {
    ((f | IMPLICIT_BIT) << sh) < 0x8000_0000_0000_0000u64 && ((f | IMPLICIT_BIT) << sh)
        >= IMPLICIT_BIT
}

/// Conversion of an unsigned 64-bit integer to binary64, rounded to
/// nearest-even (the value of Rust's integer-to-float cast).
pub open spec fn spec_from_u64(v: u64) -> u64 {
    if v == 0 {
        0
    } else {
        let h = spec_high_bit(v);
        if h <= 52 {
            (((h + 1023) as u64) << 52) | ((v << ((52 - h) as u64)) & FRAC_MASK)
        } else {
            let sh = (h - 52) as u64;
            let keep = v >> sh;
            let rem = v & (((1u64 << sh) - 1) as u64);
            let half = 1u64 << ((sh - 1) as u64);
            let keep2 = if rem > half || (rem == half && keep & 1 == 1) {
                (keep + 1) as u64
            } else {
                keep
            };
            if keep2 == 0x0020_0000_0000_0000u64 {
                ((h + 1024) as u64) << 52
            } else {
                (((h + 1023) as u64) << 52) | (keep2 & FRAC_MASK)
            }
        }
    }
}

pub fn from_u64_bits(v: u64) -> (r: u64)
    ensures
        r == spec_from_u64(v),
{
    if v == 0 {
        return 0;
    }
    let h = high_bit(v);
    if h <= 52 {
        ((h + 1023) << 52) | ((v << (52 - h)) & FRAC_MASK)
    } else {
        let sh = h - 52;
        proof {
            assert(1u64 << sh >= 2 && v >> sh < 0x8000_0000_0000_0000u64) by (bit_vector)
                requires
                    1 <= sh <= 11,
            ;
        }
        let keep = v >> sh;
        let rem = v & ((1u64 << sh) - 1);
        let half = 1u64 << (sh - 1);
        let keep2 = if rem > half || (rem == half && keep & 1 == 1) {
            keep + 1
        } else {
            keep
        };
        if keep2 == 0x0020_0000_0000_0000u64 {
            (h + 1024) << 52
        } else {
            ((h + 1023) << 52) | (keep2 & FRAC_MASK)
        }
    }
}

/// The significand of 20.0 with its implicit bit: 20 is 1.25 times 2^4.
pub const MANT_20: u64 = 0x0014_0000_0000_0000;

/// One doubling-and-reduction pass of the remainder computation:
/// computes `(m * 2^d) mod MANT_20` for `m < MANT_20`.
pub open spec fn spec_fmod_reduce(m: u64, d: int) -> u64
    decreases d,
{
    if d <= 0 {
        m
    } else {
        let t = (2 * m) as u64;
        spec_fmod_reduce(
            if t >= MANT_20 {
                (t - MANT_20) as u64
            } else {
                t
            },
            d - 1,
        )
    }
}

/// Reassembles `r * 2^-48` (with `1 <= r < 2^53`) as a normal binary64
/// value carrying sign bit `s`.
pub open spec fn spec_norm48(s: u64, r: u64) -> u64 {
    let h = spec_high_bit(r);
    s | (((h + 975) as u64) << 52) | ((r << ((52 - h) as u64)) & FRAC_MASK)
}

/// The exact IEEE-754 remainder of a value by 20 with the sign of the
/// dividend: the value of Rust's `%` operator with divisor 20. NaN and
/// infinite inputs give the canonical quiet NaN.
pub open spec fn spec_fmod20(a: u64) -> u64 {
    let s = a & SIGN_MASK;
    let e = (a & EXP_MASK) >> 52;
    let f = a & FRAC_MASK;
    if e == 0x7FF {
        QUIET_NAN
    } else if a & MAG_MASK == 0 {
        a
    } else if e < 1027 {
        a
    } else {
        let m0 = f | IMPLICIT_BIT;
        let m1 = if m0 >= MANT_20 {
            (m0 - MANT_20) as u64
        } else {
            m0
        };
        let r = spec_fmod_reduce(m1, e - 1027);
        if r == 0 {
            s
        } else {
            spec_norm48(s, r)
        }
    }
}

fn norm48(s: u64, r: u64) -> (out: u64)
    requires
        1 <= r < 0x0020_0000_0000_0000u64,
    ensures
        out == spec_norm48(s, r),
{
    let h = high_bit(r);
    proof {
        assert(h <= 52) by (bit_vector)
            requires
                r >> h == 1 && r < 0x0020_0000_0000_0000u64 && h <= 63,
        ;
    }
    s | ((h + 975) << 52) | ((r << (52 - h)) & FRAC_MASK)
}

pub fn fmod20_bits(a: u64) -> (r: u64)
    ensures
        r == spec_fmod20(a),
{
    let s = a & SIGN_MASK;
    let e = (a & EXP_MASK) >> 52;
    let f = a & FRAC_MASK;
    proof {
        assert((a & EXP_MASK) >> 52 <= 0x7FF && (a & FRAC_MASK) < IMPLICIT_BIT && (a & SIGN_MASK)
            & MAG_MASK == (a & SIGN_MASK) ^ (a & SIGN_MASK)) by (bit_vector);
    }
    if e == 0x7FF {
        QUIET_NAN
    } else if abs_bits(a) == 0 {
        a
    } else if e < 1027 {
        a
    } else {
        let m0 = f | IMPLICIT_BIT;
        proof {
            assert(f | IMPLICIT_BIT < MANT_20 + MANT_20) by (bit_vector)
                requires
                    f < IMPLICIT_BIT,
            ;
        }
        let mut m: u64 = if m0 >= MANT_20 {
            m0 - MANT_20
        } else {
            m0
        };
        let mut d: u64 = e - 1027;
        let ghost m1 = m;
        let ghost d0 = d as int;
        while d > 0
            invariant
                m < MANT_20,
                d <= d0,
                spec_fmod_reduce(m1, d0) == spec_fmod_reduce(m, d as int),
            decreases d,
        {
            let t = 2 * m;
            m = if t >= MANT_20 {
                t - MANT_20
            } else {
                t
            };
            d = d - 1;
        }
        let r = m;
        if r == 0 {
            s
        } else {
            norm48(s, r)
        }
    }
}

/// Euclidean division of a cell coordinate by the grid cell size. The result
/// is twenty times smaller in magnitude, so neighbouring cells can be reached
/// without overflow.
pub fn div_euclid_20(x: i64) -> (r: i64)
    ensures
        r == x as int / 20,
        -500_000_000_000_000_000 <= r <= 500_000_000_000_000_000,
{
    match x.checked_div_euclid(20) {
        Some(q) => q,
        None => 0,
    }
}

} // verus!
