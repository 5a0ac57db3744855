//! Fixed-point quantities as they travel on the link.
//!
//! A physical value `x` is carried as the integer nearest to
//! `(x + offset) * scale`, cut down to the width of its field. Cutting wraps:
//! a value outside the field's range comes out modulo two to the width, it is
//! never clamped.

use super::u64_view::{low_mask, mask_of};
use vstd::arithmetic::div_mod::{lemma_mod_multiples_vanish, lemma_small_mod};
use vstd::arithmetic::power2::{
    lemma2_to64, lemma2_to64_rest, lemma_pow2_adds, lemma_pow2_pos, pow2,
};
use vstd::bits::{
    lemma_u64_low_bits_mask_is_mod, lemma_u64_pow2_no_overflow, lemma_u64_shl_is_mul,
    low_bits_mask,
};
use vstd::prelude::*;

verus! {

/// Width in bits of a squashed component.
pub const COMPONENT_BITS: usize = 16;

/// Positions are carried in thirds of a unit,
pub const POSITION_SCALE: i32 = 3;

/// shifted up by this many units.
pub const POSITION_OFFSET: i32 = 10000;

/// Velocities are carried in forty-fifths of a unit per second,
pub const VELOCITY_SCALE: i32 = 45;

/// shifted up by this many units per second.
pub const VELOCITY_OFFSET: i32 = 750;

/// What the position 0 is carried as.
pub const POSITION_ZERO: i32 = POSITION_OFFSET * POSITION_SCALE;

/// What the velocity 0 is carried as.
pub const VELOCITY_ZERO: i32 = VELOCITY_OFFSET * VELOCITY_SCALE;

/// The lowest `bits` bits of the two's complement form of `value`.
pub open spec fn squashed(value: i32, bits: u64) -> u64 {
    (value as u64) & low_mask(bits)
}

/// The lowest `bits` bits of `word`, read back as a signed number.
pub open spec fn unsquashed(word: u64, bits: u64) -> i32 {
    (word & low_mask(bits)) as i32
}

/// Cuts a scaled value down to `bits` bits.
pub fn squash(value: i32, bits: usize) -> (word: u64)
    ensures
        word == squashed(value, bits as u64),
{
    (value as u64) & mask_of(bits)
}

/// Reads a field of `bits` bits back as a scaled value.
pub fn unsquash(word: u64, bits: usize) -> (value: i32)
    ensures
        value == unsquashed(word, bits as u64),
{
    #[verifier::truncate]
    ((word & mask_of(bits)) as i32)
}

/// The mask of a width is two to the width, less one.
proof fn lemma_low_mask_is_pow2_less_one(len: u64)
    requires
        len < 64,
    ensures
        low_mask(len) == pow2(len as nat) - 1,
        low_mask(len) == low_bits_mask(len as nat),
{
    lemma_u64_pow2_no_overflow(len as nat);
    lemma_pow2_pos(len as nat);
    lemma_u64_shl_is_mul(1, len);
}

/// Squashing wraps: what comes out is the value modulo two to the width,
/// whether the value fits the field or not.
pub proof fn lemma_squash_wraps(value: i32, bits: u64)
    requires
        bits < 64,
    ensures
        squashed(value, bits) == (value as int) % (pow2(bits as nat) as int),
{
    let word = value as u64;
    let width = bits as nat;
    lemma_low_mask_is_pow2_less_one(bits);
    lemma_u64_pow2_no_overflow(width);
    lemma_pow2_pos(width);
    lemma_u64_low_bits_mask_is_mod(word, width);
    assert(value >= 0 ==> word == value) by (bit_vector)
        requires
            word == value as u64,
    ;
    assert(value < 0 ==> word == value + 0x1_0000_0000_0000_0000) by (bit_vector)
        requires
            word == value as u64,
    ;
    if value < 0 {
        lemma_pow2_adds(width, (64 - width) as nat);
        lemma2_to64_rest();
        lemma_mod_multiples_vanish(
            pow2((64 - width) as nat) as int,
            value as int,
            pow2(width) as int,
        );
    }
}

/// A value that fits its field comes back from it unchanged.
pub proof fn lemma_unsquash_squash(value: i32, bits: u64)
    requires
        bits < 32,
        0 <= value < pow2(bits as nat),
    ensures
        unsquashed(squashed(value, bits), bits) == value,
{
    let width = bits as nat;
    lemma_squash_wraps(value, bits);
    lemma_small_mod(value as nat, pow2(width));
    let word = squashed(value, bits);
    lemma_low_mask_is_pow2_less_one(bits);
    lemma_u64_low_bits_mask_is_mod(word, width);
    lemma_u64_pow2_no_overflow(width);
    lemma_small_mod(word as nat, pow2(width));
}

/// In 16 bits: what is squashed is below 65536 and is the value modulo
/// 65536, and a value from 0 to 65535 comes back unchanged.
pub proof fn lemma_squash_16(value: i32)
    ensures
        squashed(value, 16) < 0x1_0000,
        squashed(value, 16) == (value as int) % 0x1_0000,
        0 <= value < 0x1_0000 ==> unsquashed(squashed(value, 16), 16) == value,
{
    lemma2_to64();
    lemma_squash_wraps(value, 16);
    if 0 <= value < 0x1_0000 {
        lemma_unsquash_squash(value, 16);
    }
}

/// Three scaled components.
#[derive(Clone, Copy, Debug, PartialEq, Eq)]
pub struct FixedVector3 {
    pub x: i32,
    pub y: i32,
    pub z: i32,
}

impl FixedVector3 {
    /// The vector of the three components.
    pub fn new(x: i32, y: i32, z: i32) -> (v: FixedVector3)
        ensures
            v == (FixedVector3 { x, y, z }),
    {
        FixedVector3 { x, y, z }
    }

    /// Every component fits a 16-bit field as it is.
    pub open spec fn fits(self) -> bool {
        0 <= self.x < 0x1_0000 && 0 <= self.y < 0x1_0000 && 0 <= self.z < 0x1_0000
    }
}

} // verus!
