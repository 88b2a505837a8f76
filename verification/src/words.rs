//! Bit-level helpers shared by the whole core: sign and zero extension of
//! register-sized integers, and byte access within 16- and 32-bit words.
//! Words are little-endian throughout: byte index 0 is the least significant.

use vstd::prelude::*;

verus! {

/// A trait for sign-extending an unsigned integer to a wider one, filling the
/// high bits with the sign bit.
pub trait SextExt: Sized {
    /// The wider unsigned integer produced by the extension.
    type Target;

    /// What the extension means: reinterpret as signed, then widen.
    spec fn sext_spec(self) -> Self::Target;

    /// Extends the integer, filling the high bits with the sign bit.
    fn sign_extend(self) -> (r: Self::Target)
        ensures
            r == self.sext_spec(),
    ;
}

/// A trait for zero-extending an unsigned integer to a wider one.
pub trait ZextExt: Sized {
    /// The wider unsigned integer produced by the extension.
    type Target;

    /// What the extension means: the same value in the wider type.
    spec fn zext_spec(self) -> Self::Target;

    /// Extends the integer, filling the high bits with zero.
    fn zero_extend(self) -> (r: Self::Target)
        ensures
            r == self.zext_spec(),
    ;
}

impl SextExt for u8 {
    type Target = u16;

    open spec fn sext_spec(self) -> u16 {
        self as i8 as u16
    }

    fn sign_extend(self) -> u16 {
        self as i8 as u16
    }
}

impl SextExt for u16 {
    type Target = u32;

    open spec fn sext_spec(self) -> u32 {
        self as i16 as u32
    }

    fn sign_extend(self) -> u32 {
        self as i16 as u32
    }
}

impl SextExt for u32 {
    type Target = u32;

    open spec fn sext_spec(self) -> u32 {
        self
    }

    fn sign_extend(self) -> u32 {
        self
    }
}

impl ZextExt for u8 {
    type Target = u16;

    open spec fn zext_spec(self) -> u16 {
        self as u16
    }

    fn zero_extend(self) -> u16 {
        self as u16
    }
}

impl ZextExt for u16 {
    type Target = u32;

    open spec fn zext_spec(self) -> u32 {
        self as u32
    }

    fn zero_extend(self) -> u32 {
        self as u32
    }
}

impl ZextExt for u32 {
    type Target = u32;

    open spec fn zext_spec(self) -> u32 {
        self
    }

    fn zero_extend(self) -> u32 {
        self
    }
}

/// The byte of `word` at little-endian position `index`.
pub open spec fn word_byte(word: u32, index: u32) -> u8
    recommends
        index < 4,
{
    (word >> (index * 8)) as u8
}

/// `word` with the byte at little-endian position `index` replaced by `value`.
pub open spec fn word_with_byte(word: u32, index: u32, value: u8) -> u32
    recommends
        index < 4,
{
    (word & !(0xffu32 << (index * 8))) | ((value as u32) << (index * 8))
}

/// The byte of the half-word `half` at little-endian position `index`.
pub open spec fn half_byte(half: u16, index: u32) -> u8
    recommends
        index < 2,
{
    (half >> (index * 8)) as u8
}

/// `half` with the byte at little-endian position `index` replaced by `value`.
pub open spec fn half_with_byte(half: u16, index: u32, value: u8) -> u16
    recommends
        index < 2,
{
    (half & !(0xffu16 << (index * 8))) | ((value as u16) << (index * 8))
}

/// The 32-bit word assembled from four bytes in little-endian address order.
pub open spec fn word_of_bytes(b0: u8, b1: u8, b2: u8, b3: u8) -> u32 {
    ((b3 as u32) << 24) | ((b2 as u32) << 16) | ((b1 as u32) << 8) | (b0 as u32)
}

/// The 16-bit half-word assembled from two bytes in little-endian address order.
pub open spec fn half_of_bytes(b0: u8, b1: u8) -> u16 {
    ((b1 as u16) << 8) | (b0 as u16)
}

/// Reads the byte of a 32-bit word at a little-endian position.
pub fn word_get_byte(word: u32, index: u32) -> (r: u8)
    requires
        index < 4,
    ensures
        r == word_byte(word, index),
{
    (word >> (index * 8)) as u8
}

/// Replaces the byte of a 32-bit word at a little-endian position.
pub fn word_set_byte(word: u32, index: u32, value: u8) -> (r: u32)
    requires
        index < 4,
    ensures
        r == word_with_byte(word, index, value),
{
    (word & !(0xffu32 << (index * 8))) | ((value as u32) << (index * 8))
}

/// Reads the byte of a 16-bit half-word at a little-endian position.
pub fn half_get_byte(half: u16, index: u32) -> (r: u8)
    requires
        index < 2,
    ensures
        r == half_byte(half, index),
{
    (half >> (index * 8)) as u8
}

/// Replaces the byte of a 16-bit half-word at a little-endian position.
pub fn half_set_byte(half: u16, index: u32, value: u8) -> (r: u16)
    requires
        index < 2,
    ensures
        r == half_with_byte(half, index, value),
{
    (half & !(0xffu16 << (index * 8))) | ((value as u16) << (index * 8))
}

/// Assembles a 32-bit word from four bytes in little-endian address order.
pub fn word_from_bytes(b0: u8, b1: u8, b2: u8, b3: u8) -> (r: u32)
    ensures
        r == word_of_bytes(b0, b1, b2, b3),
{
    ((b3 as u32) << 24) | ((b2 as u32) << 16) | ((b1 as u32) << 8) | (b0 as u32)
}

/// Assembles a 16-bit half-word from two bytes in little-endian address order.
pub fn half_from_bytes(b0: u8, b1: u8) -> (r: u16)
    ensures
        r == half_of_bytes(b0, b1),
{
    ((b1 as u16) << 8) | (b0 as u16)
}

/// Splitting a word into its four bytes and reassembling them in address
/// order gives the word back.
pub proof fn lemma_word_bytes_roundtrip(w: u32)
    ensures
        word_of_bytes(word_byte(w, 0), word_byte(w, 1), word_byte(w, 2), word_byte(w, 3)) == w,
{
    assert(((((w >> 24) as u8) as u32) << 24) | ((((w >> 16) as u8) as u32) << 16) | ((((w >> 8)
        as u8) as u32) << 8) | (((w >> 0) as u8) as u32) == w) by (bit_vector);
}

/// Splitting a half-word into its two bytes and reassembling them in address
/// order gives the half-word back.
pub proof fn lemma_half_bytes_roundtrip(h: u16)
    ensures
        half_of_bytes(half_byte(h, 0), half_byte(h, 1)) == h,
{
    assert(((((h >> 8) as u8) as u16) << 8) | (((h >> 0) as u8) as u16) == h) by (bit_vector);
}

} // verus!
