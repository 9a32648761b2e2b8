//! Helper types that deconstruct an `EncodedPointer` into its parts.

use vstd::prelude::*;

use crate::encoded::{spec_address, spec_bool_one, spec_bool_two, EncodedPointer};

verus! {

/// A helper type used to deconstruct an `EncodedPointer` into the address
/// portion of its word and the two encoded bools. Does not have any methods
/// associated with it, and all fields are public.
///
/// The `pointer` field holds the address as a plain word with the tag bits
/// cleared; unverified callers that own the pointee may reinterpret it as a
/// shared, read-only pointer.
#[derive(Clone, Copy, Debug, PartialEq, Eq, Structural)]
pub struct DecodedPointer {
    pub pointer: usize,
    pub bool_one: bool,
    pub bool_two: bool,
}

/// A helper type used to deconstruct an `EncodedPointer` into the address
/// portion of its word and the two encoded bools, for callers that intend to
/// mutate the pointee. Does not have any methods associated with it, and all
/// fields are public.
///
/// The `pointer` field holds the address as a plain word with the tag bits
/// cleared; unverified callers that hold exclusive access to the pointee may
/// reinterpret it as a mutable pointer.
#[derive(Clone, Copy, Debug, PartialEq, Eq, Structural)]
pub struct DecodedPointerMut {
    pub pointer: usize,
    pub bool_one: bool,
    pub bool_two: bool,
}

impl DecodedPointer {
    /// True when the fields are exactly the decoded parts of the word `value`.
    pub open spec fn is_decoding_of(self, value: usize) -> bool {
        self.pointer == spec_address(value) && self.bool_one == spec_bool_one(value)
            && self.bool_two == spec_bool_two(value)
    }
}

impl DecodedPointerMut {
    /// True when the fields are exactly the decoded parts of the word `value`.
    pub open spec fn is_decoding_of(self, value: usize) -> bool {
        self.pointer == spec_address(value) && self.bool_one == spec_bool_one(value)
            && self.bool_two == spec_bool_two(value)
    }
}

impl<'a> From<&'a EncodedPointer> for DecodedPointer {
    fn from(pointer: &'a EncodedPointer) -> (r: DecodedPointer) {
        DecodedPointer {
            pointer: pointer.get_address(),
            bool_one: pointer.get_bool_one(),
            bool_two: pointer.get_bool_two(),
        }
    }
}

impl<'a> vstd::std_specs::convert::FromSpecImpl<&'a EncodedPointer> for DecodedPointer {
    open spec fn obeys_from_spec() -> bool {
        true
    }

    open spec fn from_spec(pointer: &'a EncodedPointer) -> DecodedPointer {
        DecodedPointer {
            pointer: spec_address(pointer@),
            bool_one: spec_bool_one(pointer@),
            bool_two: spec_bool_two(pointer@),
        }
    }
}

impl<'a> From<&'a mut EncodedPointer> for DecodedPointerMut {
    fn from(pointer: &'a mut EncodedPointer) -> (r: DecodedPointerMut) {
        DecodedPointerMut {
            pointer: pointer.get_address(),
            bool_one: pointer.get_bool_one(),
            bool_two: pointer.get_bool_two(),
        }
    }
}

impl<'a> vstd::std_specs::convert::FromSpecImpl<&'a mut EncodedPointer> for DecodedPointerMut {
    open spec fn obeys_from_spec() -> bool {
        true
    }

    open spec fn from_spec(pointer: &'a mut EncodedPointer) -> DecodedPointerMut {
        DecodedPointerMut {
            pointer: spec_address(pointer@),
            bool_one: spec_bool_one(pointer@),
            bool_two: spec_bool_two(pointer@),
        }
    }
}

} // verus!
