//! The encoded pointer word and its operations.

use vstd::prelude::*;

pub mod consts;

use crate::decoded::{DecodedPointer, DecodedPointerMut};
use crate::encoded::consts::{
    ADDRESS_MASK, BOOL_ONE_MASK, BOOL_ONE_POSITION, BOOL_TWO_MASK, BOOL_TWO_POSITION, ENCODED_MASK,
    PTR_SIZE_IN_BITS,
};
use crate::hex::{hex_lower, hex_seq_lower, hex_seq_upper_padded, hex_upper_padded};
use vstd::string::StringExecFns;

verus! {

/// True when the address holds data in one of the two most-significant bits,
/// the bits reserved for the encoded bools.
pub open spec fn spec_collision(pointer: usize) -> bool {
    pointer & ENCODED_MASK != 0
}

/// The address portion of an encoded word: the word with the tag bits cleared.
pub open spec fn spec_address(value: usize) -> usize {
    value & ADDRESS_MASK
}

/// The bool encoded in the most-significant bit of the word.
pub open spec fn spec_bool_one(value: usize) -> bool {
    value & BOOL_ONE_MASK != 0
}

/// The bool encoded in the second-most-significant bit of the word.
pub open spec fn spec_bool_two(value: usize) -> bool {
    value & BOOL_TWO_MASK != 0
}

/// The word that encodes the given address together with the two bools.
pub open spec fn spec_encode(pointer: usize, bool_one: bool, bool_two: bool) -> usize {
    pointer | (if bool_one {
        BOOL_ONE_MASK
    } else {
        0
    }) | (if bool_two {
        BOOL_TWO_MASK
    } else {
        0
    })
}

/// The word `value` with its most-significant bit replaced by `b`.
pub open spec fn spec_set_bool_one(value: usize, b: bool) -> usize {
    (value & !BOOL_ONE_MASK) | (if b {
        BOOL_ONE_MASK
    } else {
        0
    })
}

/// The word `value` with its second-most-significant bit replaced by `b`.
pub open spec fn spec_set_bool_two(value: usize, b: bool) -> usize {
    (value & !BOOL_TWO_MASK) | (if b {
        BOOL_TWO_MASK
    } else {
        0
    })
}

/// The word `value` with its address bits replaced by `pointer`, the tag bits kept.
pub open spec fn spec_set_address(value: usize, pointer: usize) -> usize {
    pointer | (value & ENCODED_MASK)
}

/// Encoding an address whose top two bits are clear and then decoding gives
/// back exactly the address and the two bools that went in.
pub proof fn lemma_encode_roundtrip(pointer: usize, bool_one: bool, bool_two: bool)
    requires
        !spec_collision(pointer),
    ensures
        spec_address(spec_encode(pointer, bool_one, bool_two)) == pointer,
        spec_bool_one(spec_encode(pointer, bool_one, bool_two)) == bool_one,
        spec_bool_two(spec_encode(pointer, bool_one, bool_two)) == bool_two,
{
    assert(spec_address(spec_encode(pointer, bool_one, bool_two)) == pointer
        && spec_bool_one(spec_encode(pointer, bool_one, bool_two)) == bool_one
        && spec_bool_two(spec_encode(pointer, bool_one, bool_two)) == bool_two) by (bit_vector)
        requires
            pointer & ENCODED_MASK == 0,
    ;
}

/// Every word is the encoding of its own address and bool parts: the three
/// bit ranges partition the word with no overlap.
pub proof fn lemma_decomposition(value: usize)
    ensures
        !spec_collision(spec_address(value)),
        value == spec_encode(spec_address(value), spec_bool_one(value), spec_bool_two(value)),
{
    assert(!spec_collision(spec_address(value)) && value == spec_encode(
        spec_address(value),
        spec_bool_one(value),
        spec_bool_two(value),
    )) by (bit_vector);
}

/// Replacing the most-significant bit changes only that bit: the address and
/// the other bool keep their values.
pub proof fn lemma_set_bool_one(value: usize, b: bool)
    ensures
        spec_bool_one(spec_set_bool_one(value, b)) == b,
        spec_bool_two(spec_set_bool_one(value, b)) == spec_bool_two(value),
        spec_address(spec_set_bool_one(value, b)) == spec_address(value),
{
    assert(spec_bool_one(spec_set_bool_one(value, b)) == b && spec_bool_two(
        spec_set_bool_one(value, b),
    ) == spec_bool_two(value) && spec_address(spec_set_bool_one(value, b)) == spec_address(value))
        by (bit_vector);
}

/// Replacing the second-most-significant bit changes only that bit.
pub proof fn lemma_set_bool_two(value: usize, b: bool)
    ensures
        spec_bool_two(spec_set_bool_two(value, b)) == b,
        spec_bool_one(spec_set_bool_two(value, b)) == spec_bool_one(value),
        spec_address(spec_set_bool_two(value, b)) == spec_address(value),
{
    assert(spec_bool_two(spec_set_bool_two(value, b)) == b && spec_bool_one(
        spec_set_bool_two(value, b),
    ) == spec_bool_one(value) && spec_address(spec_set_bool_two(value, b)) == spec_address(value))
        by (bit_vector);
}

/// Replacing the address bits with a collision-free address changes only the
/// address: both bools keep their values.
pub proof fn lemma_set_address(value: usize, pointer: usize)
    requires
        !spec_collision(pointer),
    ensures
        spec_address(spec_set_address(value, pointer)) == pointer,
        spec_bool_one(spec_set_address(value, pointer)) == spec_bool_one(value),
        spec_bool_two(spec_set_address(value, pointer)) == spec_bool_two(value),
{
    assert(spec_address(spec_set_address(value, pointer)) == pointer && spec_bool_one(
        spec_set_address(value, pointer),
    ) == spec_bool_one(value) && spec_bool_two(spec_set_address(value, pointer)) == spec_bool_two(
        value,
    )) by (bit_vector)
        requires
            pointer & ENCODED_MASK == 0,
    ;
}

/// Setting the most-significant bit twice to the same bool gives the same
/// word as setting it once.
pub proof fn lemma_set_bool_one_idempotent(value: usize, b: bool)
    ensures
        spec_set_bool_one(spec_set_bool_one(value, b), b) == spec_set_bool_one(value, b),
{
    assert(spec_set_bool_one(spec_set_bool_one(value, b), b) == spec_set_bool_one(value, b))
        by (bit_vector);
}

/// Setting the second-most-significant bit twice to the same bool gives the
/// same word as setting it once.
pub proof fn lemma_set_bool_two_idempotent(value: usize, b: bool)
    ensures
        spec_set_bool_two(spec_set_bool_two(value, b), b) == spec_set_bool_two(value, b),
{
    assert(spec_set_bool_two(spec_set_bool_two(value, b), b) == spec_set_bool_two(value, b))
        by (bit_vector);
}

/// The error returned when an address holds data in the two most-significant
/// bits, the bits reserved for the encoded bools, and so cannot be encoded.
#[derive(Clone, Copy, Debug, PartialEq, Eq, Structural)]
pub struct CollisionError;

/// A machine word that encodes two bools into its two most-significant bits
/// and keeps an address in the remaining low bits. The checked constructors
/// refuse an address whose top two bits are not clear, so the tag bits and
/// the address bits never overlap; the `*_unchecked` operations skip that
/// check and trust the caller's word instead.
///
/// The view of an `EncodedPointer` is the raw word it holds; the spec
/// functions `spec_address`, `spec_bool_one` and `spec_bool_two` say what
/// each accessor reads out of that word.
#[derive(Clone, Copy)]
pub struct EncodedPointer {
    value: usize,
}

impl View for EncodedPointer {
    type V = usize;

    closed spec fn view(&self) -> usize {
        self.value
    }
}

impl EncodedPointer {
    /// Checks if there is bit collision in the provided pointer, and then returns an
    /// EncodedPointer with the given bool values encoded into the pointer. If there is
    /// bit collision, it returns `CollisionError`.
    pub fn new(pointer: usize, bool_one: bool, bool_two: bool) -> (r: Result<
        Self,
        CollisionError,
    >)
        ensures
            r is Ok <==> !spec_collision(pointer),
            r matches Ok(p) ==> p@ == spec_encode(pointer, bool_one, bool_two),
            r matches Ok(p) ==> spec_address(p@) == pointer && spec_bool_one(p@) == bool_one
                && spec_bool_two(p@) == bool_two,
    {
        if bit_collision(pointer) {
            return Err(CollisionError);
        }
        let value = Self::encode(pointer, bool_one, bool_two);
        proof {
            lemma_encode_roundtrip(pointer, bool_one, bool_two);
        }
        Ok(EncodedPointer { value })
    }

    /// Checks if there is bit collision in the provided pointer, and then returns an
    /// EncodedPointer with the encoded bools set to false. If there is bit collision,
    /// it returns `CollisionError`.
    pub fn from_address(address: usize) -> (r: Result<Self, CollisionError>)
        ensures
            r is Ok <==> !spec_collision(address),
            r matches Ok(p) ==> p@ == spec_encode(address, false, false),
            r matches Ok(p) ==> spec_address(p@) == address && !spec_bool_one(p@)
                && !spec_bool_two(p@),
    {
        Self::new(address, false, false)
    }

    /// Returns an encoded pointer with the provided value, without checking for bit
    /// collision. It is up to the caller to pass in a valid value that either contains
    /// none of the upper bits set, or the correct upper bits set that represent the
    /// values in the encoded pointer being created.
    pub fn from_value_unchecked(value: usize) -> (r: EncodedPointer)
        ensures
            r@ == value,
    {
        EncodedPointer { value }
    }

    /// Returns a `DecodedPointer` holding the address portion of the word and the
    /// two encoded bools, so callers do not re-derive the parts inconsistently.
    pub fn get_decoded(&self) -> (r: DecodedPointer)
        ensures
            r.is_decoding_of(self@),
    {
        DecodedPointer::from(self)
    }

    /// Returns a `DecodedPointerMut` holding the address portion of the word and
    /// the two encoded bools, for callers that intend to mutate the pointee.
    pub fn get_decoded_mut(&mut self) -> (r: DecodedPointerMut)
        ensures
            final(self)@ == old(self)@,
            r.is_decoding_of(old(self)@),
    {
        DecodedPointerMut {
            pointer: self.get_address(),
            bool_one: self.get_bool_one(),
            bool_two: self.get_bool_two(),
        }
    }

    /// Returns the entire encoded pointer value, including the encoded bools. The
    /// result must not be reinterpreted as a real address without first masking off
    /// the tag bits; it exists for serialization and round-tripping.
    #[inline(always)]
    pub fn get_value(&self) -> (r: usize)
        ensures
            r == self@,
    {
        self.value
    }

    /// Returns the address portion of the encoded pointer: the word with the tag
    /// bits cleared. This is the only value safe to reinterpret as a pointer.
    #[inline(always)]
    pub fn get_address(&self) -> (r: usize)
        ensures
            r == spec_address(self@),
    {
        self.value & ADDRESS_MASK
    }

    /// Returns the bool encoded into the last bit of the pointer.
    #[inline(always)]
    pub fn get_bool_one(&self) -> (r: bool)
        ensures
            r == spec_bool_one(self@),
    {
        self.value & BOOL_ONE_MASK != 0
    }

    /// Returns the bool encoded into the second to last bit of the pointer.
    #[inline(always)]
    pub fn get_bool_two(&self) -> (r: bool)
        ensures
            r == spec_bool_two(self@),
    {
        self.value & BOOL_TWO_MASK != 0
    }

    /// Sets the entire encoded pointer to the given value, with no validation. It is
    /// up to the caller to pass in a valid value, under the same trust contract as
    /// `from_value_unchecked`.
    #[inline(always)]
    pub fn set_value(&mut self, value: usize)
        ensures
            final(self)@ == value,
    {
        self.value = value;
    }

    /// Checks if the address has bit collision with the encoded bool portion of the
    /// encoded pointer. Sets the address portion of the encoded pointer to the address
    /// given, if there is no collision, and returns true; both encoded bools keep
    /// their values. Returns false and leaves the word unchanged if the address could
    /// not be set.
    #[inline(always)]
    pub fn set_address(&mut self, pointer: usize) -> (r: bool)
        ensures
            r <==> !spec_collision(pointer),
            r ==> final(self)@ == spec_set_address(old(self)@, pointer),
            r ==> spec_address(final(self)@) == pointer,
            !r ==> final(self)@ == old(self)@,
            spec_bool_one(final(self)@) == spec_bool_one(old(self)@),
            spec_bool_two(final(self)@) == spec_bool_two(old(self)@),
    {
        if bit_collision(pointer) {
            return false;
        }
        let encoded = self.value & ENCODED_MASK;
        self.value = pointer | encoded;
        proof {
            lemma_set_address(old(self)@, pointer);
        }
        true
    }

    /// Sets the last bit of the encoded pointer to the provided value; the address
    /// and the other encoded bool keep their values.
    pub fn set_bool_one(&mut self, b: bool)
        ensures
            final(self)@ == spec_set_bool_one(old(self)@, b),
            spec_bool_one(final(self)@) == b,
            spec_bool_two(final(self)@) == spec_bool_two(old(self)@),
            spec_address(final(self)@) == spec_address(old(self)@),
    {
        self.value = self.value & !BOOL_ONE_MASK;
        self.value = self.value | ((b as usize) << BOOL_ONE_POSITION);
        proof {
            let v = old(self)@;
            assert((v & !BOOL_ONE_MASK) | ((b as usize) << BOOL_ONE_POSITION)
                == spec_set_bool_one(v, b)) by (bit_vector);
            lemma_set_bool_one(v, b);
        }
    }

    /// Sets the second to last bit of the encoded pointer to the provided value; the
    /// address and the other encoded bool keep their values.
    #[inline(always)]
    pub fn set_bool_two(&mut self, b: bool)
        ensures
            final(self)@ == spec_set_bool_two(old(self)@, b),
            spec_bool_two(final(self)@) == b,
            spec_bool_one(final(self)@) == spec_bool_one(old(self)@),
            spec_address(final(self)@) == spec_address(old(self)@),
    {
        self.value = self.value & !BOOL_TWO_MASK;
        self.value = self.value | ((b as usize) << BOOL_TWO_POSITION);
        proof {
            let v = old(self)@;
            assert((v & !BOOL_TWO_MASK) | ((b as usize) << BOOL_TWO_POSITION)
                == spec_set_bool_two(v, b)) by (bit_vector);
            lemma_set_bool_two(v, b);
        }
    }

    /// Takes in a usize and two bools, and returns a usize with the two bools encoded
    /// into the last two bits of the usize. Does not do any checking for bit collision.
    #[inline(always)]
    pub fn encode(pointer: usize, bool_one: bool, bool_two: bool) -> (r: usize)
        ensures
            r == spec_encode(pointer, bool_one, bool_two),
    {
        let r = pointer | ((bool_one as usize) << BOOL_ONE_POSITION) | ((bool_two as usize)
            << BOOL_TWO_POSITION);
        proof {
            assert(pointer | ((bool_one as usize) << BOOL_ONE_POSITION) | ((bool_two as usize)
                << BOOL_TWO_POSITION) == spec_encode(pointer, bool_one, bool_two)) by (bit_vector);
        }
        r
    }
}

/// The debug rendering of the word `value`: its decoded parts, followed by
/// the raw word in uppercase hexadecimal, zero-padded to the word width.
pub open spec fn spec_debug_render(value: usize) -> Seq<char> {
    "DecodedPointer { pointer: 0x"@ + hex_seq_lower(spec_address(value) as nat) + ", bool_one: "@
        + spec_bool_render(spec_bool_one(value)) + ", bool_two: "@ + spec_bool_render(
        spec_bool_two(value),
    ) + " } : 0x"@ + hex_seq_upper_padded(value as nat, (PTR_SIZE_IN_BITS / 4) as nat)
}

/// The rendering of a bool, as in its debug output.
pub open spec fn spec_bool_render(b: bool) -> Seq<char> {
    if b {
        "true"@
    } else {
        "false"@
    }
}

/// Renders a bool as `"true"` or `"false"`.
fn bool_render(b: bool) -> (r: &'static str)
    ensures
        r@ == spec_bool_render(b),
{
    if b {
        "true"
    } else {
        "false"
    }
}

impl EncodedPointer {
    /// Renders the decoded parts of the word followed by the raw word in
    /// hexadecimal, for diagnostics; for example
    /// `DecodedPointer { pointer: 0x100, bool_one: true, bool_two: false } : 0x8000000000000100`
    /// on a 64-bit target.
    pub fn debug_string(&self) -> (r: String)
        ensures
            r@ == spec_debug_render(self@),
    {
        let mut s = String::from_str("DecodedPointer { pointer: 0x");
        s.append(hex_lower(self.get_address()).as_str());
        s.append(", bool_one: ");
        s.append(bool_render(self.get_bool_one()));
        s.append(", bool_two: ");
        s.append(bool_render(self.get_bool_two()));
        s.append(" } : 0x");
        s.append(hex_upper_padded(self.get_value(), PTR_SIZE_IN_BITS / 4).as_str());
        proof {
            assert(s@ =~= spec_debug_render(self@));
        }
        s
    }
}

/// Returns true if any of the bits used for encoding are set.
pub fn bit_collision(pointer: usize) -> (r: bool)
    ensures
        r == spec_collision(pointer),
{
    pointer & ENCODED_MASK != 0
}

} // verus!
