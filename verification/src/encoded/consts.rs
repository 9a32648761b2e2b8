//! Bit positions and masks for the encoded word.
//!
//! The two most-significant bits of a machine word hold the two encoded
//! bools; the remaining low bits hold the address. The constants below are
//! written against `usize::BITS`, so they are correct on both 32-bit and
//! 64-bit targets, and everything proved about them holds for either width.

use vstd::prelude::*;

verus! {

/// The size of a pointer in bits.
pub const PTR_SIZE_IN_BITS: usize = usize::BITS as usize;

/// The bit position of the first encoded bool.
pub const BOOL_ONE_POSITION: usize = PTR_SIZE_IN_BITS - 1;

/// The bit position of the second encoded bool.
pub const BOOL_TWO_POSITION: usize = PTR_SIZE_IN_BITS - 2;

/// Mask with `BOOL_ONE_POSITION` set to 1.
pub const BOOL_ONE_MASK: usize = 1 << BOOL_ONE_POSITION;

/// Mask with `BOOL_TWO_POSITION` set to 1.
pub const BOOL_TWO_MASK: usize = 1 << BOOL_TWO_POSITION;

/// Mask that has the bits that are used for the encoded bools set.
pub const ENCODED_MASK: usize = 0b11 << BOOL_TWO_POSITION;

/// Mask that has the bits that are used for the address set.
pub const ADDRESS_MASK: usize = !ENCODED_MASK;

/// The three masks partition the word: the two tag bits are distinct single
/// bits at the top of the word, and the address mask is exactly the rest.
pub proof fn lemma_mask_partition()
    ensures
        BOOL_ONE_MASK & BOOL_TWO_MASK == 0,
        BOOL_ONE_MASK | BOOL_TWO_MASK == ENCODED_MASK,
        ENCODED_MASK & ADDRESS_MASK == 0,
        ENCODED_MASK | ADDRESS_MASK == !0usize,
{
    assert((1usize << BOOL_ONE_POSITION) & (1usize << BOOL_TWO_POSITION) == 0) by (bit_vector);
    assert((1usize << BOOL_ONE_POSITION) | (1usize << BOOL_TWO_POSITION) == (0b11usize
        << BOOL_TWO_POSITION)) by (bit_vector);
    assert((0b11usize << BOOL_TWO_POSITION) & !(0b11usize << BOOL_TWO_POSITION) == 0)
        by (bit_vector);
    assert((0b11usize << BOOL_TWO_POSITION) | !(0b11usize << BOOL_TWO_POSITION) == !0usize)
        by (bit_vector);
}

/// The tag occupies the top two bits of the word exactly: bits 63 and 62 on a
/// 64-bit target, bits 31 and 30 on a 32-bit target.
pub proof fn lemma_tag_positions()
    ensures
        BOOL_ONE_POSITION == PTR_SIZE_IN_BITS - 1,
        BOOL_TWO_POSITION == PTR_SIZE_IN_BITS - 2,
        PTR_SIZE_IN_BITS == 64 ==> BOOL_ONE_POSITION == 63 && BOOL_TWO_POSITION == 62,
        PTR_SIZE_IN_BITS == 32 ==> BOOL_ONE_POSITION == 31 && BOOL_TWO_POSITION == 30,
{
}

} // verus!
