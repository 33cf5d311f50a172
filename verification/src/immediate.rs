//! Compact encodings of constant operands that are stored inline in an
//! instruction word.

use crate::ieee::f32_bits;
use crate::ieee::f32_from_bits;
use crate::ieee::f32_to_bits;
use core::marker::PhantomData;
use vstd::prelude::*;
use vstd::std_specs::convert::FromSpecImpl;
use vstd::std_specs::convert::TryFromSpecImpl;
use wasmi_core::F32;

verus! {

/// The number of values a 16-bit cell can hold.
pub open spec fn span16() -> int {
    0x1_0000
}

/// The number of values a 32-bit cell can hold.
pub open spec fn span32() -> int {
    0x1_0000_0000
}

/// Whether `value` is exactly representable as a signed 16-bit quantity.
pub open spec fn fits_i16(value: int) -> bool {
    i16::MIN <= value <= i16::MAX
}

/// Whether `value` is exactly representable as an unsigned 16-bit quantity.
pub open spec fn fits_u16(value: int) -> bool {
    0 <= value <= u16::MAX
}

/// Whether `value` is exactly representable as a signed 32-bit quantity.
pub open spec fn fits_i32(value: int) -> bool {
    i32::MIN <= value <= i32::MAX
}

/// The unsigned reading of a signed 16-bit cell: the same 16 bits, zero-extended.
pub open spec fn zero_extend16(cell: i16) -> int {
    if cell >= 0 {
        cell as int
    } else {
        cell + span16()
    }
}

/// The signed 16-bit cell that holds the bits of an unsigned 16-bit value.
pub open spec fn signed_cell16(value: u16) -> int {
    if value <= i16::MAX {
        value as int
    } else {
        value - span16()
    }
}

/// The unsigned reading of a signed 32-bit value: the same 32 bits.
pub open spec fn unsigned32(value: i32) -> int {
    if value >= 0 {
        value as int
    } else {
        value + span32()
    }
}

/// The signed reading of an unsigned 32-bit value: the same 32 bits.
pub open spec fn signed32(bits: u32) -> int {
    if bits <= i32::MAX {
        bits as int
    } else {
        bits - span32()
    }
}

/// A 16-bit constant value of any type.
///
/// Stores small integer values. Upon use the 16-bit cell is sign-extended
/// or zero-extended to the integer type that the consumer expects.
#[derive(Debug, Copy, Clone, PartialEq, Eq, Structural)]
pub struct AnyConst16(i16);

/// Error that may occur upon converting values to [`AnyConst16`].
#[derive(Debug, Copy, Clone)]
pub struct OutOfBoundsConst16;

impl AnyConst16 {
    /// The signed 16-bit cell that is stored.
    pub closed spec fn cell(self) -> i16 {
        self.0
    }

    /// The value that stores the given cell.
    pub closed spec fn of_cell(cell: i16) -> Self {
        AnyConst16(cell)
    }

    /// `of_cell` stores what it is given.
    pub broadcast proof fn lemma_of_cell(cell: i16)
        ensures
            (#[trigger] Self::of_cell(cell)).cell() == cell,
    {
    }

    /// Two values that store the same cell are the same value.
    pub proof fn lemma_cell_determines(self, other: Self)
        requires
            self.cell() == other.cell(),
        ensures
            self == other,
    {
    }

    /// What encoding an `i32` gives: the value in a cell, if it fits a signed one.
    pub open spec fn encode_i32(value: i32) -> Option<Self> {
        if fits_i16(value as int) {
            Some(Self::of_cell(value as i16))
        } else {
            None
        }
    }

    /// What encoding a `u32` gives: its low 16 bits in a cell, if it has no others.
    pub open spec fn encode_u32(value: u32) -> Option<Self> {
        if fits_u16(value as int) {
            Some(Self::of_cell(signed_cell16(value as u16) as i16))
        } else {
            None
        }
    }

    /// What encoding an `i64` gives: the value in a cell, if it fits a signed one.
    pub open spec fn encode_i64(value: i64) -> Option<Self> {
        if fits_i16(value as int) {
            Some(Self::of_cell(value as i16))
        } else {
            None
        }
    }

    /// What encoding a `u64` gives: its low 16 bits in a cell, if it has no others.
    pub open spec fn encode_u64(value: u64) -> Option<Self> {
        if fits_u16(value as int) {
            Some(Self::of_cell(signed_cell16(value as u16) as i16))
        } else {
            None
        }
    }

    /// What decoding to `i32` gives: the cell, sign-extended.
    pub open spec fn decode_i32(self) -> i32 {
        self.cell() as i32
    }

    /// What decoding to `i64` gives: the cell, sign-extended.
    pub open spec fn decode_i64(self) -> i64 {
        self.cell() as i64
    }

    /// What decoding to `u32` gives: the cell, zero-extended.
    pub open spec fn decode_u32(self) -> u32 {
        zero_extend16(self.cell()) as u32
    }

    /// What decoding to `u64` gives: the cell, zero-extended.
    pub open spec fn decode_u64(self) -> u64 {
        zero_extend16(self.cell()) as u64
    }

    /// Creates an [`AnyConst16`] from the given `i16` value.
    pub fn from_i16(value: i16) -> (r: Self)
        ensures
            r == Self::of_cell(value),
            r.cell() == value,
    {
        Self(value)
    }

    /// Creates an [`AnyConst16`] from the bits of the given `u16` value.
    pub fn from_u16(value: u16) -> (r: Self)
        ensures
            r == Self::of_cell(signed_cell16(value) as i16),
            r.cell() == signed_cell16(value),
            zero_extend16(r.cell()) == value,
    {
        let cell: i16 = #[verifier::truncate] (value as i16);
        assert(value <= 0x7fff ==> cell == value) by (bit_vector)
            requires
                cell == value as i16,
        ;
        assert(value > 0x7fff ==> cell == value - 0x1_0000) by (bit_vector)
            requires
                cell == value as i16,
        ;
        Self::from_i16(cell)
    }

    /// Creates an [`AnyConst16`] from the given `i32` value if it fits a signed 16-bit cell.
    pub fn from_i32(value: i32) -> (r: Option<Self>)
        ensures
            r == Self::encode_i32(value),
            r.is_some() <==> fits_i16(value as int),
            r.is_some() ==> r.unwrap().cell() == value,
    {
        if -0x8000 <= value && value <= 0x7fff {
            Some(Self(value as i16))
        } else {
            None
        }
    }

    /// Creates an [`AnyConst16`] from the given `u32` value if it fits an unsigned 16-bit cell.
    pub fn from_u32(value: u32) -> (r: Option<Self>)
        ensures
            r == Self::encode_u32(value),
            r.is_some() <==> fits_u16(value as int),
            r.is_some() ==> zero_extend16(r.unwrap().cell()) == value,
    {
        if value <= 0xffff {
            Some(Self::from_u16(value as u16))
        } else {
            None
        }
    }

    /// Creates an [`AnyConst16`] from the given `i64` value if it fits a signed 16-bit cell.
    pub fn from_i64(value: i64) -> (r: Option<Self>)
        ensures
            r == Self::encode_i64(value),
            r.is_some() <==> fits_i16(value as int),
            r.is_some() ==> r.unwrap().cell() == value,
    {
        if -0x8000 <= value && value <= 0x7fff {
            Some(Self(value as i16))
        } else {
            None
        }
    }

    /// Creates an [`AnyConst16`] from the given `u64` value if it fits an unsigned 16-bit cell.
    pub fn from_u64(value: u64) -> (r: Option<Self>)
        ensures
            r == Self::encode_u64(value),
            r.is_some() <==> fits_u16(value as int),
            r.is_some() ==> zero_extend16(r.unwrap().cell()) == value,
    {
        if value <= 0xffff {
            Some(Self::from_u16(value as u16))
        } else {
            None
        }
    }

    /// Returns the stored cell sign-extended to `i32`.
    pub fn to_i32(self) -> (r: i32)
        ensures
            r == self.decode_i32(),
            r == self.cell(),
    {
        self.0 as i32
    }

    /// Returns the stored cell sign-extended to `i64`.
    pub fn to_i64(self) -> (r: i64)
        ensures
            r == self.decode_i64(),
            r == self.cell(),
    {
        self.0 as i64
    }

    /// Returns the stored cell zero-extended to `u32`.
    pub fn to_u32(self) -> (r: u32)
        ensures
            r == self.decode_u32(),
            r == zero_extend16(self.cell()),
    {
        self.to_u16() as u32
    }

    /// Returns the stored cell zero-extended to `u64`.
    pub fn to_u64(self) -> (r: u64)
        ensures
            r == self.decode_u64(),
            r == zero_extend16(self.cell()),
    {
        self.to_u16() as u64
    }

    /// Returns the 16 stored bits read as an unsigned value.
    fn to_u16(self) -> (r: u16)
        ensures
            r == zero_extend16(self.cell()),
    {
        let cell: i16 = self.0;
        let bits: u16 = #[verifier::truncate] (cell as u16);
        assert(cell >= 0 ==> bits == cell) by (bit_vector)
            requires
                bits == cell as u16,
        ;
        assert(cell < 0 ==> bits == cell + 0x1_0000) by (bit_vector)
            requires
                bits == cell as u16,
        ;
        bits
    }
}

impl TryFrom<i32> for AnyConst16 {
    type Error = OutOfBoundsConst16;

    /// Encodes the `i32` value, or fails if it does not fit a signed 16-bit cell.
    fn try_from(value: i32) -> (r: Result<Self, Self::Error>) {
        match Self::from_i32(value) {
            Some(encoded) => Ok(encoded),
            None => Err(OutOfBoundsConst16),
        }
    }
}

impl TryFromSpecImpl<i32> for AnyConst16 {
    open spec fn obeys_try_from_spec() -> bool {
        true
    }

    open spec fn try_from_spec(value: i32) -> Result<Self, Self::Error> {
        if fits_i16(value as int) {
            Ok(Self::of_cell(value as i16))
        } else {
            Err(OutOfBoundsConst16)
        }
    }
}

impl TryFrom<u32> for AnyConst16 {
    type Error = OutOfBoundsConst16;

    /// Encodes the `u32` value, or fails if it does not fit an unsigned 16-bit cell.
    fn try_from(value: u32) -> (r: Result<Self, Self::Error>) {
        match Self::from_u32(value) {
            Some(encoded) => Ok(encoded),
            None => Err(OutOfBoundsConst16),
        }
    }
}

impl TryFromSpecImpl<u32> for AnyConst16 {
    open spec fn obeys_try_from_spec() -> bool {
        true
    }

    open spec fn try_from_spec(value: u32) -> Result<Self, Self::Error> {
        if fits_u16(value as int) {
            Ok(Self::of_cell(signed_cell16(value as u16) as i16))
        } else {
            Err(OutOfBoundsConst16)
        }
    }
}

impl TryFrom<i64> for AnyConst16 {
    type Error = OutOfBoundsConst16;

    /// Encodes the `i64` value, or fails if it does not fit a signed 16-bit cell.
    fn try_from(value: i64) -> (r: Result<Self, Self::Error>) {
        match Self::from_i64(value) {
            Some(encoded) => Ok(encoded),
            None => Err(OutOfBoundsConst16),
        }
    }
}

impl TryFromSpecImpl<i64> for AnyConst16 {
    open spec fn obeys_try_from_spec() -> bool {
        true
    }

    open spec fn try_from_spec(value: i64) -> Result<Self, Self::Error> {
        if fits_i16(value as int) {
            Ok(Self::of_cell(value as i16))
        } else {
            Err(OutOfBoundsConst16)
        }
    }
}

impl TryFrom<u64> for AnyConst16 {
    type Error = OutOfBoundsConst16;

    /// Encodes the `u64` value, or fails if it does not fit an unsigned 16-bit cell.
    fn try_from(value: u64) -> (r: Result<Self, Self::Error>) {
        match Self::from_u64(value) {
            Some(encoded) => Ok(encoded),
            None => Err(OutOfBoundsConst16),
        }
    }
}

impl TryFromSpecImpl<u64> for AnyConst16 {
    open spec fn obeys_try_from_spec() -> bool {
        true
    }

    open spec fn try_from_spec(value: u64) -> Result<Self, Self::Error> {
        if fits_u16(value as int) {
            Ok(Self::of_cell(signed_cell16(value as u16) as i16))
        } else {
            Err(OutOfBoundsConst16)
        }
    }
}

impl From<i16> for AnyConst16 {
    /// Stores the `i16` value.
    fn from(value: i16) -> (r: Self) {
        Self::from_i16(value)
    }
}

impl FromSpecImpl<i16> for AnyConst16 {
    open spec fn obeys_from_spec() -> bool {
        true
    }

    open spec fn from_spec(value: i16) -> Self {
        Self::of_cell(value)
    }
}

impl From<u16> for AnyConst16 {
    /// Stores the bits of the `u16` value.
    fn from(value: u16) -> (r: Self) {
        Self::from_u16(value)
    }
}

impl FromSpecImpl<u16> for AnyConst16 {
    open spec fn obeys_from_spec() -> bool {
        true
    }

    open spec fn from_spec(value: u16) -> Self {
        Self::of_cell(signed_cell16(value) as i16)
    }
}

/// A typed 16-bit encoded constant value.
///
/// The type parameter is the integer type that the constant decodes to. It
/// selects sign-extension or zero-extension and keeps encodings of different
/// types apart; it takes no space.
#[derive(Debug)]
pub struct Const16<T> {
    /// The underlying untyped value.
    inner: AnyConst16,
    /// The type that the constant decodes to.
    marker: PhantomData<T>,
}

impl<T> Clone for Const16<T> {
    fn clone(&self) -> (r: Self)
        ensures
            r == *self,
    {
        *self
    }
}

impl<T> Copy for Const16<T> {

}

impl<T> PartialEq for Const16<T> {
    fn eq(&self, other: &Self) -> (r: bool) {
        self.inner == other.inner
    }
}

impl<T> vstd::std_specs::cmp::PartialEqSpecImpl for Const16<T> {
    open spec fn obeys_eq_spec() -> bool {
        true
    }

    open spec fn eq_spec(&self, other: &Self) -> bool {
        self.untyped() == other.untyped()
    }
}

impl<T> Eq for Const16<T> {

}

impl<T> Const16<T> {
    /// The underlying untyped value.
    pub closed spec fn untyped(self) -> AnyConst16 {
        self.inner
    }

    /// The typed value that wraps the given untyped one.
    pub closed spec fn of_untyped(inner: AnyConst16) -> Self {
        Const16 { inner, marker: PhantomData }
    }

    /// `of_untyped` wraps what it is given.
    pub broadcast proof fn lemma_of_untyped(inner: AnyConst16)
        ensures
            (#[trigger] Self::of_untyped(inner)).untyped() == inner,
    {
    }

    /// The signed 16-bit cell that is stored.
    pub open spec fn cell(self) -> i16 {
        self.untyped().cell()
    }

    /// Two values that store the same cell are the same value.
    pub proof fn lemma_cell_determines(self, other: Self)
        requires
            self.cell() == other.cell(),
        ensures
            self == other,
    {
        self.inner.lemma_cell_determines(other.inner);
    }

    /// Creates a new typed [`Const16`] value.
    pub fn new(inner: AnyConst16) -> (r: Self)
        ensures
            r == Self::of_untyped(inner),
            r.untyped() == inner,
    {
        Self { inner, marker: PhantomData }
    }
}

impl Const16<i32> {
    /// What encoding gives: the untyped encoding, typed.
    pub open spec fn encode_i32(value: i32) -> Option<Self> {
        match AnyConst16::encode_i32(value) {
            Some(inner) => Some(Self::of_untyped(inner)),
            None => None,
        }
    }

    /// What decoding gives: the untyped decoding to `i32`.
    pub open spec fn decode_i32(self) -> i32 {
        self.untyped().decode_i32()
    }

    /// Encodes `value` if it fits a signed 16-bit cell.
    pub fn from_i32(value: i32) -> (r: Option<Self>)
        ensures
            r == Self::encode_i32(value),
            r.is_some() <==> fits_i16(value as int),
            r.is_some() ==> r.unwrap().cell() == value,
    {
        match AnyConst16::from_i32(value) {
            Some(inner) => Some(Self::new(inner)),
            None => None,
        }
    }

    /// Decodes the constant by sign-extension.
    pub fn to_i32(self) -> (r: i32)
        ensures
            r == self.decode_i32(),
            r == self.cell(),
    {
        self.inner.to_i32()
    }
}

impl From<i16> for Const16<i32> {
    /// Encodes the `i16` value, which always fits.
    fn from(value: i16) -> (r: Self) {
        Self::new(AnyConst16::from_i16(value))
    }
}

impl FromSpecImpl<i16> for Const16<i32> {
    open spec fn obeys_from_spec() -> bool {
        true
    }

    open spec fn from_spec(value: i16) -> Self {
        Self::of_untyped(AnyConst16::of_cell(value))
    }
}

impl From<Const16<i32>> for i32 {
    /// Decodes the constant to `i32`.
    fn from(value: Const16<i32>) -> (r: Self) {
        value.to_i32()
    }
}

impl FromSpecImpl<Const16<i32>> for i32 {
    open spec fn obeys_from_spec() -> bool {
        true
    }

    open spec fn from_spec(value: Const16<i32>) -> Self {
        value.cell() as i32
    }
}

impl Const16<u32> {
    /// What encoding gives: the untyped encoding, typed.
    pub open spec fn encode_u32(value: u32) -> Option<Self> {
        match AnyConst16::encode_u32(value) {
            Some(inner) => Some(Self::of_untyped(inner)),
            None => None,
        }
    }

    /// What decoding gives: the untyped decoding to `u32`.
    pub open spec fn decode_u32(self) -> u32 {
        self.untyped().decode_u32()
    }

    /// Encodes `value` if it fits an unsigned 16-bit cell.
    pub fn from_u32(value: u32) -> (r: Option<Self>)
        ensures
            r == Self::encode_u32(value),
            r.is_some() <==> fits_u16(value as int),
            r.is_some() ==> zero_extend16(r.unwrap().cell()) == value,
    {
        match AnyConst16::from_u32(value) {
            Some(inner) => Some(Self::new(inner)),
            None => None,
        }
    }

    /// Decodes the constant by zero-extension.
    pub fn to_u32(self) -> (r: u32)
        ensures
            r == self.decode_u32(),
            r == zero_extend16(self.cell()),
    {
        self.inner.to_u32()
    }
}

impl From<u16> for Const16<u32> {
    /// Encodes the `u16` value, which always fits.
    fn from(value: u16) -> (r: Self) {
        Self::new(AnyConst16::from_u16(value))
    }
}

impl FromSpecImpl<u16> for Const16<u32> {
    open spec fn obeys_from_spec() -> bool {
        true
    }

    open spec fn from_spec(value: u16) -> Self {
        Self::of_untyped(AnyConst16::of_cell(signed_cell16(value) as i16))
    }
}

impl From<Const16<u32>> for u32 {
    /// Decodes the constant to `u32`.
    fn from(value: Const16<u32>) -> (r: Self) {
        value.to_u32()
    }
}

impl FromSpecImpl<Const16<u32>> for u32 {
    open spec fn obeys_from_spec() -> bool {
        true
    }

    open spec fn from_spec(value: Const16<u32>) -> Self {
        zero_extend16(value.cell()) as u32
    }
}

impl Const16<i64> {
    /// What encoding gives: the untyped encoding, typed.
    pub open spec fn encode_i64(value: i64) -> Option<Self> {
        match AnyConst16::encode_i64(value) {
            Some(inner) => Some(Self::of_untyped(inner)),
            None => None,
        }
    }

    /// What decoding gives: the untyped decoding to `i64`.
    pub open spec fn decode_i64(self) -> i64 {
        self.untyped().decode_i64()
    }

    /// Encodes `value` if it fits a signed 16-bit cell.
    pub fn from_i64(value: i64) -> (r: Option<Self>)
        ensures
            r == Self::encode_i64(value),
            r.is_some() <==> fits_i16(value as int),
            r.is_some() ==> r.unwrap().cell() == value,
    {
        match AnyConst16::from_i64(value) {
            Some(inner) => Some(Self::new(inner)),
            None => None,
        }
    }

    /// Decodes the constant by sign-extension.
    pub fn to_i64(self) -> (r: i64)
        ensures
            r == self.decode_i64(),
            r == self.cell(),
    {
        self.inner.to_i64()
    }
}

impl From<i16> for Const16<i64> {
    /// Encodes the `i16` value, which always fits.
    fn from(value: i16) -> (r: Self) {
        Self::new(AnyConst16::from_i16(value))
    }
}

impl FromSpecImpl<i16> for Const16<i64> {
    open spec fn obeys_from_spec() -> bool {
        true
    }

    open spec fn from_spec(value: i16) -> Self {
        Self::of_untyped(AnyConst16::of_cell(value))
    }
}

impl From<Const16<i64>> for i64 {
    /// Decodes the constant to `i64`.
    fn from(value: Const16<i64>) -> (r: Self) {
        value.to_i64()
    }
}

impl FromSpecImpl<Const16<i64>> for i64 {
    open spec fn obeys_from_spec() -> bool {
        true
    }

    open spec fn from_spec(value: Const16<i64>) -> Self {
        value.cell() as i64
    }
}

impl Const16<u64> {
    /// What encoding gives: the untyped encoding, typed.
    pub open spec fn encode_u64(value: u64) -> Option<Self> {
        match AnyConst16::encode_u64(value) {
            Some(inner) => Some(Self::of_untyped(inner)),
            None => None,
        }
    }

    /// What decoding gives: the untyped decoding to `u64`.
    pub open spec fn decode_u64(self) -> u64 {
        self.untyped().decode_u64()
    }

    /// Encodes `value` if it fits an unsigned 16-bit cell.
    pub fn from_u64(value: u64) -> (r: Option<Self>)
        ensures
            r == Self::encode_u64(value),
            r.is_some() <==> fits_u16(value as int),
            r.is_some() ==> zero_extend16(r.unwrap().cell()) == value,
    {
        match AnyConst16::from_u64(value) {
            Some(inner) => Some(Self::new(inner)),
            None => None,
        }
    }

    /// Decodes the constant by zero-extension.
    pub fn to_u64(self) -> (r: u64)
        ensures
            r == self.decode_u64(),
            r == zero_extend16(self.cell()),
    {
        self.inner.to_u64()
    }
}

impl From<u16> for Const16<u64> {
    /// Encodes the `u16` value, which always fits.
    fn from(value: u16) -> (r: Self) {
        Self::new(AnyConst16::from_u16(value))
    }
}

impl FromSpecImpl<u16> for Const16<u64> {
    open spec fn obeys_from_spec() -> bool {
        true
    }

    open spec fn from_spec(value: u16) -> Self {
        Self::of_untyped(AnyConst16::of_cell(signed_cell16(value) as i16))
    }
}

impl From<Const16<u64>> for u64 {
    /// Decodes the constant to `u64`.
    fn from(value: Const16<u64>) -> (r: Self) {
        value.to_u64()
    }
}

impl FromSpecImpl<Const16<u64>> for u64 {
    open spec fn obeys_from_spec() -> bool {
        true
    }

    open spec fn from_spec(value: Const16<u64>) -> Self {
        zero_extend16(value.cell()) as u64
    }
}

/// A 32-bit constant value of any type.
///
/// The 32 bits are kept as four bytes, least significant first, so that the
/// value needs no more than byte alignment inside an instruction word.
/// Decoding does not check that the type read is the type that was written.
#[derive(Debug, Copy, Clone, PartialEq, Eq)]
pub struct AnyConst32([u8; 4]);

/// The name under which instructions hold a 32-bit constant.
pub type Const32 = AnyConst32;

/// Error that may occur upon converting values to [`AnyConst32`].
#[derive(Debug, Copy, Clone)]
pub struct OutOfBoundsConst32;

/// The 32-bit value whose bytes, least significant first, are `b0` to `b3`.
pub open spec fn join_bytes(b0: u8, b1: u8, b2: u8, b3: u8) -> u32 {
    (b0 as u32) | ((b1 as u32) << 8) | ((b2 as u32) << 16) | ((b3 as u32) << 24)
}

impl AnyConst32 {
    /// The 32 bits that are stored, as an unsigned value.
    pub closed spec fn bits(self) -> u32 {
        join_bytes(self.0[0], self.0[1], self.0[2], self.0[3])
    }

    /// The value that stores the given bits.
    pub closed spec fn of_bits(bits: u32) -> Self {
        AnyConst32(
            [
                (bits & 0xff) as u8,
                ((bits >> 8) & 0xff) as u8,
                ((bits >> 16) & 0xff) as u8,
                ((bits >> 24) & 0xff) as u8,
            ],
        )
    }

    /// `of_bits` stores what it is given.
    pub broadcast proof fn lemma_of_bits(bits: u32)
        ensures
            (#[trigger] Self::of_bits(bits)).bits() == bits,
    {
        let b0: u8 = (bits & 0xff) as u8;
        let b1: u8 = ((bits >> 8) & 0xff) as u8;
        let b2: u8 = ((bits >> 16) & 0xff) as u8;
        let b3: u8 = ((bits >> 24) & 0xff) as u8;
        assert(join_bytes(b0, b1, b2, b3) == bits) by (bit_vector)
            requires
                b0 == (bits & 0xff) as u8,
                b1 == ((bits >> 8) & 0xff) as u8,
                b2 == ((bits >> 16) & 0xff) as u8,
                b3 == ((bits >> 24) & 0xff) as u8,
        ;
    }

    /// Two values that store the same bits are the same value.
    pub proof fn lemma_bits_determine(self, other: Self)
        requires
            self.bits() == other.bits(),
        ensures
            self == other,
    {
        let (a0, a1, a2, a3) = (self.0[0], self.0[1], self.0[2], self.0[3]);
        let (b0, b1, b2, b3) = (other.0[0], other.0[1], other.0[2], other.0[3]);
        assert(a0 == b0 && a1 == b1 && a2 == b2 && a3 == b3) by (bit_vector)
            requires
                (a0 as u32) | ((a1 as u32) << 8) | ((a2 as u32) << 16) | ((a3 as u32) << 24) == (
                b0 as u32) | ((b1 as u32) << 8) | ((b2 as u32) << 16) | ((b3 as u32) << 24),
        ;
        assert(self.0 =~= other.0);
    }

    /// What encoding an `i64` gives: its low 32 bits, if it fits a signed 32-bit cell.
    pub open spec fn encode_i64(value: i64) -> Option<Self> {
        if fits_i32(value as int) {
            Some(Self::of_bits(unsigned32(value as i32) as u32))
        } else {
            None
        }
    }

    /// What decoding to `i32` gives: the stored bits, read as signed.
    pub open spec fn decode_i32(self) -> i32 {
        signed32(self.bits()) as i32
    }

    /// What decoding to `i64` gives: the stored bits, read as signed and sign-extended.
    pub open spec fn decode_i64(self) -> i64 {
        signed32(self.bits()) as i64
    }

    /// Creates an [`AnyConst32`] from the given `bool` value: 1 for `true`, 0 for `false`.
    pub fn from_bool(value: bool) -> (r: Self)
        ensures
            r.bits() == (if value { 1u32 } else { 0u32 }),
            r == Self::of_bits(if value { 1u32 } else { 0u32 }),
    {
        Self::from_u32(if value { 1 } else { 0 })
    }

    /// Creates an [`AnyConst32`] from the given `u32` value.
    pub fn from_u32(value: u32) -> (r: Self)
        ensures
            r.bits() == value,
            r == Self::of_bits(value),
    {
        let b0: u8 = (value & 0xff) as u8;
        let b1: u8 = ((value >> 8) & 0xff) as u8;
        let b2: u8 = ((value >> 16) & 0xff) as u8;
        let b3: u8 = ((value >> 24) & 0xff) as u8;
        assert(join_bytes(b0, b1, b2, b3) == value) by (bit_vector)
            requires
                b0 == (value & 0xff) as u8,
                b1 == ((value >> 8) & 0xff) as u8,
                b2 == ((value >> 16) & 0xff) as u8,
                b3 == ((value >> 24) & 0xff) as u8,
        ;
        let r = Self([b0, b1, b2, b3]);
        proof {
            Self::lemma_of_bits(value);
            r.lemma_bits_determine(Self::of_bits(value));
        }
        r
    }

    /// Creates an [`AnyConst32`] from the bits of the given `i32` value.
    pub fn from_i32(value: i32) -> (r: Self)
        ensures
            r.bits() == unsigned32(value),
            signed32(r.bits()) == value,
            r == Self::of_bits(unsigned32(value) as u32),
    {
        let bits: u32 = #[verifier::truncate] (value as u32);
        assert(value >= 0 ==> bits == value) by (bit_vector)
            requires
                bits == value as u32,
        ;
        assert(value < 0 ==> bits == value + 0x1_0000_0000) by (bit_vector)
            requires
                bits == value as u32,
        ;
        Self::from_u32(bits)
    }

    /// Creates an [`AnyConst32`] from the bits of the given [`F32`] value.
    pub fn from_f32(value: F32) -> (r: Self)
        ensures
            r.bits() == f32_bits(value),
            r == Self::of_bits(f32_bits(value)),
    {
        Self::from_u32(f32_to_bits(value))
    }

    /// Creates an [`AnyConst32`] from the given `i64` value if it fits a signed 32-bit cell.
    pub fn from_i64(value: i64) -> (r: Option<Self>)
        ensures
            r.is_some() <==> fits_i32(value as int),
            r.is_some() ==> signed32(r.unwrap().bits()) == value,
            r == Self::encode_i64(value),
    {
        if -0x8000_0000 <= value && value <= 0x7fff_ffff {
            Some(Self::from_i32(value as i32))
        } else {
            None
        }
    }

    /// Returns the stored bits as a `u32` value.
    pub fn to_u32(self) -> (r: u32)
        ensures
            r == self.bits(),
    {
        (self.0[0] as u32) | ((self.0[1] as u32) << 8) | ((self.0[2] as u32) << 16) | ((
        self.0[3] as u32) << 24)
    }

    /// Returns the stored bits as an `i32` value.
    pub fn to_i32(self) -> (r: i32)
        ensures
            r == self.decode_i32(),
            r == signed32(self.bits()),
    {
        let bits: u32 = self.to_u32();
        let value: i32 = #[verifier::truncate] (bits as i32);
        assert(bits <= 0x7fff_ffff ==> value == bits) by (bit_vector)
            requires
                value == bits as i32,
        ;
        assert(bits > 0x7fff_ffff ==> value == bits - 0x1_0000_0000) by (bit_vector)
            requires
                value == bits as i32,
        ;
        value
    }

    /// Returns the [`F32`] value that has the stored bits.
    pub fn to_f32(self) -> (r: F32)
        ensures
            f32_bits(r) == self.bits(),
    {
        f32_from_bits(self.to_u32())
    }

    /// Returns the stored bits as an `i32` value, sign-extended to `i64`.
    pub fn to_i64(self) -> (r: i64)
        ensures
            r == self.decode_i64(),
            r == signed32(self.bits()),
    {
        self.to_i32() as i64
    }
}

impl TryFrom<i64> for AnyConst32 {
    type Error = OutOfBoundsConst32;

    /// Encodes the `i64` value, or fails if it does not fit a signed 32-bit cell.
    fn try_from(value: i64) -> (r: Result<Self, Self::Error>) {
        match Self::from_i64(value) {
            Some(encoded) => Ok(encoded),
            None => Err(OutOfBoundsConst32),
        }
    }
}

impl TryFromSpecImpl<i64> for AnyConst32 {
    open spec fn obeys_try_from_spec() -> bool {
        true
    }

    open spec fn try_from_spec(value: i64) -> Result<Self, Self::Error> {
        if fits_i32(value as int) {
            Ok(Self::of_bits(unsigned32(value as i32) as u32))
        } else {
            Err(OutOfBoundsConst32)
        }
    }
}

impl From<bool> for AnyConst32 {
    /// Stores 1 for `true` and 0 for `false`.
    fn from(value: bool) -> (r: Self) {
        Self::from_bool(value)
    }
}

impl FromSpecImpl<bool> for AnyConst32 {
    open spec fn obeys_from_spec() -> bool {
        true
    }

    open spec fn from_spec(value: bool) -> Self {
        Self::of_bits(if value { 1u32 } else { 0u32 })
    }
}

impl From<i8> for AnyConst32 {
    /// Stores the `i8` value sign-extended to 32 bits.
    fn from(value: i8) -> (r: Self) {
        Self::from_i32(value as i32)
    }
}

impl FromSpecImpl<i8> for AnyConst32 {
    open spec fn obeys_from_spec() -> bool {
        true
    }

    open spec fn from_spec(value: i8) -> Self {
        Self::of_bits(unsigned32(value as i32) as u32)
    }
}

impl From<i16> for AnyConst32 {
    /// Stores the `i16` value sign-extended to 32 bits.
    fn from(value: i16) -> (r: Self) {
        Self::from_i32(value as i32)
    }
}

impl FromSpecImpl<i16> for AnyConst32 {
    open spec fn obeys_from_spec() -> bool {
        true
    }

    open spec fn from_spec(value: i16) -> Self {
        Self::of_bits(unsigned32(value as i32) as u32)
    }
}

impl From<i32> for AnyConst32 {
    /// Stores the bits of the `i32` value.
    fn from(value: i32) -> (r: Self) {
        Self::from_i32(value)
    }
}

impl FromSpecImpl<i32> for AnyConst32 {
    open spec fn obeys_from_spec() -> bool {
        true
    }

    open spec fn from_spec(value: i32) -> Self {
        Self::of_bits(unsigned32(value) as u32)
    }
}

impl From<u32> for AnyConst32 {
    /// Stores the `u32` value.
    fn from(value: u32) -> (r: Self) {
        Self::from_u32(value)
    }
}

impl FromSpecImpl<u32> for AnyConst32 {
    open spec fn obeys_from_spec() -> bool {
        true
    }

    open spec fn from_spec(value: u32) -> Self {
        Self::of_bits(value)
    }
}

impl From<F32> for AnyConst32 {
    /// Stores the bits of the [`F32`] value.
    fn from(value: F32) -> (r: Self) {
        Self::from_f32(value)
    }
}

impl FromSpecImpl<F32> for AnyConst32 {
    open spec fn obeys_from_spec() -> bool {
        true
    }

    open spec fn from_spec(value: F32) -> Self {
        Self::of_bits(f32_bits(value))
    }
}

/// An `i32` that fits a signed 16-bit cell is encoded, untyped and
/// typed, and decodes to itself by sign-extension.
pub proof fn lemma_const16_i32_round_trip(value: i32)
    requires
        fits_i16(value as int),
    ensures
        AnyConst16::encode_i32(value) matches Some(c) && c.decode_i32() == value,
        Const16::<i32>::encode_i32(value) matches Some(c) && c.decode_i32() == value,
{
}

/// An `i32` that does not fit a signed 16-bit cell is not encoded: the
/// result is absent, never a wrapped value.
pub proof fn lemma_const16_i32_out_of_range(value: i32)
    requires
        !fits_i16(value as int),
    ensures
        AnyConst16::encode_i32(value) is None,
        Const16::<i32>::encode_i32(value) is None,
{
}

/// An `i64` that fits a signed 16-bit cell is encoded, untyped and
/// typed, and decodes to itself by sign-extension.
pub proof fn lemma_const16_i64_round_trip(value: i64)
    requires
        fits_i16(value as int),
    ensures
        AnyConst16::encode_i64(value) matches Some(c) && c.decode_i64() == value,
        Const16::<i64>::encode_i64(value) matches Some(c) && c.decode_i64() == value,
{
}

/// An `i64` that does not fit a signed 16-bit cell is not encoded: the
/// result is absent, never a wrapped value.
pub proof fn lemma_const16_i64_out_of_range(value: i64)
    requires
        !fits_i16(value as int),
    ensures
        AnyConst16::encode_i64(value) is None,
        Const16::<i64>::encode_i64(value) is None,
{
}

/// An `u32` that fits an unsigned 16-bit cell is encoded, untyped and
/// typed, and decodes to itself by zero-extension.
pub proof fn lemma_const16_u32_round_trip(value: u32)
    requires
        fits_u16(value as int),
    ensures
        AnyConst16::encode_u32(value) matches Some(c) && c.decode_u32() == value,
        Const16::<u32>::encode_u32(value) matches Some(c) && c.decode_u32() == value,
{
}

/// An `u32` that does not fit an unsigned 16-bit cell is not encoded: the
/// result is absent, never a wrapped value.
pub proof fn lemma_const16_u32_out_of_range(value: u32)
    requires
        !fits_u16(value as int),
    ensures
        AnyConst16::encode_u32(value) is None,
        Const16::<u32>::encode_u32(value) is None,
{
}

/// An `u64` that fits an unsigned 16-bit cell is encoded, untyped and
/// typed, and decodes to itself by zero-extension.
pub proof fn lemma_const16_u64_round_trip(value: u64)
    requires
        fits_u16(value as int),
    ensures
        AnyConst16::encode_u64(value) matches Some(c) && c.decode_u64() == value,
        Const16::<u64>::encode_u64(value) matches Some(c) && c.decode_u64() == value,
{
}

/// An `u64` that does not fit an unsigned 16-bit cell is not encoded: the
/// result is absent, never a wrapped value.
pub proof fn lemma_const16_u64_out_of_range(value: u64)
    requires
        !fits_u16(value as int),
    ensures
        AnyConst16::encode_u64(value) is None,
        Const16::<u64>::encode_u64(value) is None,
{
}

/// Every `u32` is stored and read back unchanged.
pub proof fn lemma_const32_u32_round_trip(value: u32)
    ensures
        AnyConst32::of_bits(value).bits() == value,
{
    AnyConst32::lemma_of_bits(value);
}

/// Every `i32` is stored by its bits and read back unchanged.
pub proof fn lemma_const32_i32_round_trip(value: i32)
    ensures
        AnyConst32::of_bits(unsigned32(value) as u32).decode_i32() == value,
{
    AnyConst32::lemma_of_bits(unsigned32(value) as u32);
}

/// Every [`F32`] is stored by its bits, and whatever is read back as an
/// [`F32`] has exactly those bits, the payload of a NaN included.
pub proof fn lemma_const32_f32_round_trip(value: F32, decoded: F32)
    requires
        f32_bits(decoded) == AnyConst32::of_bits(f32_bits(value)).bits(),
    ensures
        f32_bits(decoded) == f32_bits(value),
{
    AnyConst32::lemma_of_bits(f32_bits(value));
}

/// An `i64` is encoded exactly if it fits a signed 32-bit cell, and then
/// decodes to itself by sign-extension.
pub proof fn lemma_const32_i64_round_trip(value: i64)
    ensures
        fits_i32(value as int) ==> (AnyConst32::encode_i64(value) matches Some(c)
            && c.decode_i64() == value),
        !fits_i32(value as int) ==> AnyConst32::encode_i64(value) is None,
        AnyConst32::encode_i64(i64::MAX) is None,
        AnyConst32::encode_i64(i64::MIN) is None,
{
    if fits_i32(value as int) {
        AnyConst32::lemma_of_bits(unsigned32(value as i32) as u32);
    }
}

} // verus!
