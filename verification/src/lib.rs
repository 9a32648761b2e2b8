//! A tagged-pointer word: a machine-word-sized value that packs an address
//! together with two boolean flags in the two most-significant bits of the
//! word, bits that real addresses leave unused.
//!
//! [`encoded::EncodedPointer`] holds the word and enforces that the tag bits
//! and the address bits never overlap: the checked constructors and
//! [`encoded::EncodedPointer::set_address`] refuse an address whose top two
//! bits are set, and every mutator leaves the other bit ranges untouched.
//! [`decoded::DecodedPointer`] and [`decoded::DecodedPointerMut`] deconstruct
//! the word into its three parts at once.

pub mod decoded;
pub mod encoded;
pub mod hex;
