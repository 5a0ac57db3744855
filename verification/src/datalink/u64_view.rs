//! A 64-bit frame with a write cursor and a read cursor.

use vstd::arithmetic::power2::{lemma_pow2_pos, pow2};
use vstd::bits::{
    lemma_u64_low_bits_mask_is_mod, lemma_u64_pow2_no_overflow, lemma_u64_shl_is_mul,
    lemma_u64_shr_is_div, low_bits_mask,
};
use vstd::prelude::*;

verus! {

/// The word whose `len` lowest bits are set; all 64 once `len` reaches 64.
pub open spec fn low_mask(len: u64) -> u64 {
    if len >= 64 {
        0xffff_ffff_ffff_ffffu64
    } else {
        ((1u64 << len) - 1) as u64
    }
}

/// The `len` bits of `word` that start at bit `start`, as a number.
/// Bits past bit 63 read as zero.
pub open spec fn field(word: u64, start: u64, len: u64) -> u64 {
    if start >= 64 {
        0
    } else {
        (word >> start) & low_mask(len)
    }
}

/// `word` with the `len` bits that start at bit `start` replaced by the
/// lowest `len` bits of `value`. Bits past bit 63 are dropped.
pub open spec fn with_field(word: u64, start: u64, len: u64, value: u64) -> u64 {
    if start >= 64 {
        word
    } else {
        (word & !(low_mask(len) << start)) | ((value & low_mask(len)) << start)
    }
}

/// In numbers, a field is the word divided by two to the power of its
/// start, modulo two to the power of its width.
pub proof fn lemma_field_is_div_mod(word: u64, start: u64, len: u64)
    requires
        start < 64,
        len < 64,
    ensures
        field(word, start, len) == (word as int / pow2(start as nat) as int) % (pow2(
            len as nat,
        ) as int),
{
    lemma_u64_pow2_no_overflow(start as nat);
    lemma_u64_pow2_no_overflow(len as nat);
    lemma_pow2_pos(start as nat);
    lemma_pow2_pos(len as nat);
    lemma_u64_shr_is_div(word, start);
    lemma_u64_shl_is_mul(1, len);
    assert(low_mask(len) == low_bits_mask(len as nat));
    lemma_u64_low_bits_mask_is_mod(word >> start, len as nat);
}

/// A field that was just written reads back as the value's lowest `len` bits.
pub proof fn lemma_field_of_with_field(word: u64, start: u64, len: u64, value: u64)
    requires
        start + len <= 64,
    ensures
        field(with_field(word, start, len, value), start, len) == value & low_mask(len),
{
    assert(start + len <= 64 ==> field(with_field(word, start, len, value), start, len) == value
        & low_mask(len)) by (bit_vector);
}

/// Writing one field leaves every field that does not overlap it as it was.
pub proof fn lemma_field_of_other_field(
    word: u64,
    start: u64,
    len: u64,
    value: u64,
    other_start: u64,
    other_len: u64,
)
    requires
        start + len <= 64,
        other_start + other_len <= 64,
        other_start + other_len <= start || start + len <= other_start,
    ensures
        field(with_field(word, start, len, value), other_start, other_len) == field(
            word,
            other_start,
            other_len,
        ),
{
    assert(start + len <= 64 && other_start + other_len <= 64 && (other_start + other_len <= start
        || start + len <= other_start) ==> field(
        with_field(word, start, len, value),
        other_start,
        other_len,
    ) == field(word, other_start, other_len)) by (bit_vector);
}

/// A field never exceeds the mask of its width.
pub proof fn lemma_field_bound(word: u64, start: u64, len: u64)
    ensures
        field(word, start, len) <= low_mask(len),
{
    assert(field(word, start, len) <= low_mask(len)) by (bit_vector);
}

/// The cursor and width of a read or write that would pass bit 64.
#[derive(Clone, Copy, Debug, PartialEq, Eq)]
pub struct OverflowError {
    pub cursor: usize,
    pub width: usize,
}

/// A 64-bit word that is filled and read field by field, from bit 0 up.
pub struct U64View {
    pub value: u64,
    /// Bit at which the next `write` starts.
    pub write_index: usize,
    /// Bit at which the next `read` starts.
    pub read_index: usize,
}

impl U64View {
    /// A view of the word 0.
    pub fn zero() -> (view: U64View)
        ensures
            view.value == 0,
            view.write_index == 0,
            view.read_index == 0,
    {
        U64View::new(0)
    }

    /// A view of `value` with both cursors at bit 0.
    pub fn new(value: u64) -> (view: U64View)
        ensures
            view.value == value,
            view.write_index == 0,
            view.read_index == 0,
    {
        U64View { value, write_index: 0, read_index: 0 }
    }

    /// The `len` bits that start at bit `start`.
    pub fn get(&self, start: usize, len: usize) -> (bits: u64)
        ensures
            bits == field(self.value, start as u64, len as u64),
    {
        if start >= 64 {
            return 0;
        }
        let mask: u64 = mask_of(len);
        (self.value >> start) & mask
    }

    /// Replaces the `len` bits that start at bit `start` by the lowest `len` bits of
    /// `value`.
    pub fn set(&mut self, start: usize, len: usize, value: u64)
        ensures
            final(self).value == with_field(old(self).value, start as u64, len as u64, value),
            final(self).write_index == old(self).write_index,
            final(self).read_index == old(self).read_index,
    {
        if start < 64 {
            let mask: u64 = mask_of(len);
            self.value = (self.value & !(mask << start)) | ((value & mask) << start);
        }
    }

    /// Packs the lowest `len` bits of `value` at the write cursor and moves
    /// the cursor past them. A write that would pass bit 64 changes nothing.
    pub fn write(&mut self, value: u64, len: usize) -> (done: Result<(), OverflowError>)
        ensures
            old(self).write_index + len <= 64 ==> done is Ok,
            old(self).write_index + len <= 64 ==> final(self).value == with_field(
                old(self).value,
                old(self).write_index as u64,
                len as u64,
                value,
            ),
            old(self).write_index + len <= 64 ==> final(self).write_index == old(self).write_index
                + len,
            old(self).write_index + len <= 64 ==> final(self).read_index == old(self).read_index,
            old(self).write_index + len > 64 ==> done == Err::<(), OverflowError>(
                OverflowError { cursor: old(self).write_index, width: len },
            ),
            old(self).write_index + len > 64 ==> *final(self) == *old(self),
    {
        if len > 64 || self.write_index > 64 - len {
            return Err(OverflowError { cursor: self.write_index, width: len });
        }
        self.set(self.write_index, len, value);
        self.write_index = self.write_index + len;
        Ok(())
    }

    /// Extracts `len` bits at the read cursor and moves the cursor past them.
    /// A read that would pass bit 64 changes nothing.
    pub fn read(&mut self, len: usize) -> (bits: Result<u64, OverflowError>)
        ensures
            old(self).read_index + len <= 64 ==> bits == Ok::<u64, OverflowError>(
                field(old(self).value, old(self).read_index as u64, len as u64),
            ),
            old(self).read_index + len <= 64 ==> final(self).read_index == old(self).read_index
                + len,
            old(self).read_index + len <= 64 ==> final(self).value == old(self).value,
            old(self).read_index + len <= 64 ==> final(self).write_index == old(self).write_index,
            old(self).read_index + len > 64 ==> bits == Err::<u64, OverflowError>(
                OverflowError { cursor: old(self).read_index, width: len },
            ),
            old(self).read_index + len > 64 ==> *final(self) == *old(self),
    {
        if len > 64 || self.read_index > 64 - len {
            return Err(OverflowError { cursor: self.read_index, width: len });
        }
        let value: u64 = self.get(self.read_index, len);
        self.read_index = self.read_index + len;
        Ok(value)
    }
}

/// The word whose `len` lowest bits are set.
pub fn mask_of(len: usize) -> (mask: u64)
    ensures
        mask == low_mask(len as u64),
{
    if len >= 64 {
        u64::MAX
    } else {
        assert((1u64 << len) >= 1) by (bit_vector)
            requires
                len < 64,
        ;
        (1u64 << len) - 1
    }
}

} // verus!
