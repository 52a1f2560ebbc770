//! Trusted bridge to IEEE-754 binary64 arithmetic.
//!
//! Every value is carried as its raw bit pattern (`u64`). The five rounding
//! operations below go through the `softfp` software floating-point crate,
//! always rounding to nearest-even. IEEE-754 fixes each result exactly from
//! the argument bits alone, so each operation is named by an uninterpreted
//! spec function; nothing more is assumed of the results.
//!
//! `softfp` reads its rounding mode through a registered callback, a
//! process-wide global; each wrapper registers the constant nearest-even
//! callback (and a sink for the exception flags) immediately before its
//! operation, and the library never registers anything else. The contracts
//! therefore hold as long as no other code in the process concurrently
//! registers a different rounding mode with `softfp`.

use vstd::prelude::*;

verus! {

#[verifier::external_type_specification]
#[verifier::external_body]
pub struct ExRoundingMode(softfp::RoundingMode);

#[verifier::external_type_specification]
#[verifier::external_body]
pub struct ExExceptionFlags(softfp::ExceptionFlags);

/// Relies on `softfp::RoundingMode`: hands `softfp` its nearest-even rounding
/// mode constant.
#[verifier::external_body]
fn round_nearest_even() -> softfp::RoundingMode {
    softfp::RoundingMode::TiesToEven
}

/// Sink for `softfp`'s exception flags; the library reads no flags.
#[verifier::external_body]
fn ignore_exception_flags(flags: softfp::ExceptionFlags) {
    let _ = flags;
}

/// The bit pattern of the IEEE-754 binary64 sum, rounded to nearest-even.
pub uninterp spec fn spec_add_bits(a: u64, b: u64) -> u64;

/// The bit pattern of the IEEE-754 binary64 difference, rounded to nearest-even.
pub uninterp spec fn spec_sub_bits(a: u64, b: u64) -> u64;

/// The bit pattern of the IEEE-754 binary64 product, rounded to nearest-even.
pub uninterp spec fn spec_mul_bits(a: u64, b: u64) -> u64;

/// The bit pattern of the IEEE-754 binary64 quotient, rounded to nearest-even.
pub uninterp spec fn spec_div_bits(a: u64, b: u64) -> u64;

/// The bit pattern of the IEEE-754 binary64 square root, rounded to nearest-even.
pub uninterp spec fn spec_sqrt_bits(a: u64) -> u64;

/// Relies on `softfp`'s `Add` impl for `F64`: IEEE-754 binary64 addition,
/// rounded to nearest-even; a pure function of the argument bit patterns.
#[verifier::external_body]
pub fn add_bits(a: u64, b: u64) -> (r: u64)
    ensures
        r == spec_add_bits(a, b),
{
    softfp::register_get_rounding_mode(round_nearest_even);
    softfp::register_set_exception_flags(ignore_exception_flags);
    (softfp::F64::new(a) + softfp::F64::new(b)).0
}

/// Relies on `softfp`'s `Sub` impl for `F64`: IEEE-754 binary64 subtraction,
/// rounded to nearest-even; a pure function of the argument bit patterns.
#[verifier::external_body]
pub fn sub_bits(a: u64, b: u64) -> (r: u64)
    ensures
        r == spec_sub_bits(a, b),
{
    softfp::register_get_rounding_mode(round_nearest_even);
    softfp::register_set_exception_flags(ignore_exception_flags);
    (softfp::F64::new(a) - softfp::F64::new(b)).0
}

/// Relies on `softfp`'s `Mul` impl for `F64`: IEEE-754 binary64
/// multiplication, rounded to nearest-even; a pure function of the argument
/// bit patterns.
#[verifier::external_body]
pub fn mul_bits(a: u64, b: u64) -> (r: u64)
    ensures
        r == spec_mul_bits(a, b),
{
    softfp::register_get_rounding_mode(round_nearest_even);
    softfp::register_set_exception_flags(ignore_exception_flags);
    (softfp::F64::new(a) * softfp::F64::new(b)).0
}

/// Relies on `softfp`'s `Div` impl for `F64`: IEEE-754 binary64 division,
/// rounded to nearest-even; a pure function of the argument bit patterns.
#[verifier::external_body]
pub fn div_bits(a: u64, b: u64) -> (r: u64)
    ensures
        r == spec_div_bits(a, b),
{
    softfp::register_get_rounding_mode(round_nearest_even);
    softfp::register_set_exception_flags(ignore_exception_flags);
    (softfp::F64::new(a) / softfp::F64::new(b)).0
}

/// Relies on `softfp::Fp::square_root`: IEEE-754 binary64 square root,
/// rounded to nearest-even; a pure function of the argument bit pattern.
#[verifier::external_body]
pub fn sqrt_bits(a: u64) -> (r: u64)
    ensures
        r == spec_sqrt_bits(a),
{
    softfp::register_get_rounding_mode(round_nearest_even);
    softfp::register_set_exception_flags(ignore_exception_flags);
    softfp::F64::new(a).square_root().0
}

} // verus!
