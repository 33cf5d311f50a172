//! What a translator asks of the number types of WebAssembly.

use crate::ieee::f32_bits;
use crate::ieee::f32_to_bits;
use crate::ieee::f64_bits;
use crate::ieee::f64_to_bits;
use crate::operands::Sign;
use vstd::prelude::*;
use wasmi_core::F32;
use wasmi_core::F64;

verus! {

/// The remainder of a division that rounds toward zero: it has the sign of
/// `value`, or is zero.
pub open spec fn truncated_rem(value: int, width: int) -> int {
    if value >= 0 {
        value % width
    } else {
        -((-value) % width)
    }
}

/// A WebAssembly integer. Either `i32` or `i64`, signed or read as unsigned.
pub trait WasmInteger: Copy {
    /// The number of bits of the type.
    spec fn bit_width() -> int;

    /// The value as a mathematical integer.
    spec fn as_int(self) -> int;

    /// Returns the shift amount as `i16`: the value modulo the bit width of
    /// the type, with the remainder taken toward zero.
    ///
    /// WebAssembly takes the amount of a shift or rotate modulo the width of
    /// the shifted type.
    fn as_shift_amount(self) -> (r: i16)
        ensures
            r == truncated_rem(self.as_int(), Self::bit_width()),
            -Self::bit_width() < r < Self::bit_width(),
    ;

    /// Returns `true` if `self` is equal to zero (0).
    fn eq_zero(self) -> (r: bool)
        ensures
            r <==> self.as_int() == 0,
    ;
}

impl WasmInteger for i32 {
    open spec fn bit_width() -> int {
        32
    }

    open spec fn as_int(self) -> int {
        self as int
    }

    fn as_shift_amount(self) -> (r: i16) {
        (self % 32) as i16
    }

    fn eq_zero(self) -> (r: bool) {
        self == 0
    }
}

impl WasmInteger for u32 {
    open spec fn bit_width() -> int {
        32
    }

    open spec fn as_int(self) -> int {
        self as int
    }

    fn as_shift_amount(self) -> (r: i16) {
        (self % 32) as i16
    }

    fn eq_zero(self) -> (r: bool) {
        self == 0
    }
}

impl WasmInteger for i64 {
    open spec fn bit_width() -> int {
        64
    }

    open spec fn as_int(self) -> int {
        self as int
    }

    fn as_shift_amount(self) -> (r: i16) {
        (self % 64) as i16
    }

    fn eq_zero(self) -> (r: bool) {
        self == 0
    }
}

impl WasmInteger for u64 {
    open spec fn bit_width() -> int {
        64
    }

    open spec fn as_int(self) -> int {
        self as int
    }

    fn as_shift_amount(self) -> (r: i16) {
        (self % 64) as i16
    }

    fn eq_zero(self) -> (r: bool) {
        self == 0
    }
}

/// Whether the 32 bits are those of a NaN: the exponent is all ones and the
/// fraction is not zero, whatever the sign.
pub open spec fn is_nan_bits32(bits: u32) -> bool {
    bits % 0x8000_0000 > 0x7f80_0000
}

/// Whether the 64 bits are those of a NaN: the exponent is all ones and the
/// fraction is not zero, whatever the sign.
pub open spec fn is_nan_bits64(bits: u64) -> bool {
    bits % 0x8000_0000_0000_0000 > 0x7ff0_0000_0000_0000
}

/// The sign that the highest of the 32 bits gives.
pub open spec fn sign_of_bits32(bits: u32) -> Sign {
    if bits < 0x8000_0000 {
        Sign::Pos
    } else {
        Sign::Neg
    }
}

/// The sign that the highest of the 64 bits gives.
pub open spec fn sign_of_bits64(bits: u64) -> Sign {
    if bits < 0x8000_0000_0000_0000 {
        Sign::Pos
    } else {
        Sign::Neg
    }
}

/// A WebAssembly float. Either 32 or 64 bits wide.
pub trait WasmFloat: Copy {
    /// Whether the value is a NaN.
    spec fn spec_is_nan(self) -> bool;

    /// The sign of the value; zeros and NaNs have one too.
    spec fn spec_sign(self) -> Sign;

    /// Returns `true` if `self` is any kind of NaN value.
    fn is_nan(self) -> (r: bool)
        ensures
            r == self.spec_is_nan(),
    ;

    /// Returns the [`Sign`] of `self`.
    fn sign(self) -> (r: Sign)
        ensures
            r == self.spec_sign(),
    ;
}

impl WasmFloat for F32 {
    open spec fn spec_is_nan(self) -> bool {
        is_nan_bits32(f32_bits(self))
    }

    open spec fn spec_sign(self) -> Sign {
        sign_of_bits32(f32_bits(self))
    }

    fn is_nan(self) -> (r: bool) {
        let bits: u32 = f32_to_bits(self);
        assert(bits & 0x7fff_ffff == bits % 0x8000_0000) by (bit_vector);
        (bits & 0x7fff_ffff) > 0x7f80_0000
    }

    fn sign(self) -> (r: Sign) {
        if f32_to_bits(self) < 0x8000_0000 {
            Sign::Pos
        } else {
            Sign::Neg
        }
    }
}

impl WasmFloat for F64 {
    open spec fn spec_is_nan(self) -> bool {
        is_nan_bits64(f64_bits(self))
    }

    open spec fn spec_sign(self) -> Sign {
        sign_of_bits64(f64_bits(self))
    }

    fn is_nan(self) -> (r: bool) {
        let bits: u64 = f64_to_bits(self);
        assert(bits & 0x7fff_ffff_ffff_ffff == bits % 0x8000_0000_0000_0000) by (bit_vector);
        (bits & 0x7fff_ffff_ffff_ffff) > 0x7ff0_0000_0000_0000
    }

    fn sign(self) -> (r: Sign) {
        if f64_to_bits(self) < 0x8000_0000_0000_0000 {
            Sign::Pos
        } else {
            Sign::Neg
        }
    }
}

} // verus!
