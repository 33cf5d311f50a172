//! The bits of the float values of `wasmi_core`.
//!
//! An [`F32`] or [`F64`] wraps the bits of an IEEE 754 value and hands them
//! out unchanged. The library works on those bits alone.

use vstd::prelude::*;
use wasmi_core::F32;
use wasmi_core::F64;

verus! {

#[verifier::external_type_specification]
#[verifier::external_body]
pub struct ExF32(F32);

#[verifier::external_type_specification]
#[verifier::external_body]
pub struct ExF64(F64);

/// The 32 bits that an [`F32`] holds.
pub uninterp spec fn f32_bits(value: F32) -> u32;

/// The 64 bits that an [`F64`] holds.
pub uninterp spec fn f64_bits(value: F64) -> u64;

/// `F32::to_bits` of `wasmi_core`: hands out the 32 bits that the value
/// wraps, unchanged. Not proved; the contract only gives those bits their name.
#[verifier::external_body]
pub(crate) fn f32_to_bits(value: F32) -> (bits: u32)
    ensures
        bits == f32_bits(value),
{
    value.to_bits()
}

/// `F32::from_bits` of `wasmi_core`: wraps the given 32 bits, unchanged, so
/// that the value made holds exactly them. Not proved.
#[verifier::external_body]
pub(crate) fn f32_from_bits(bits: u32) -> (value: F32)
    ensures
        f32_bits(value) == bits,
{
    F32::from_bits(bits)
}

/// `F64::to_bits` of `wasmi_core`: hands out the 64 bits that the value
/// wraps, unchanged. Not proved; the contract only gives those bits their name.
#[verifier::external_body]
pub(crate) fn f64_to_bits(value: F64) -> (bits: u64)
    ensures
        bits == f64_bits(value),
{
    value.to_bits()
}

} // verus!
