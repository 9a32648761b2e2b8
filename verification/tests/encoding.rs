use encoded_pointer::decoded::DecodedPointer;
use encoded_pointer::encoded::{bit_collision, CollisionError, EncodedPointer};
use encoded_pointer::hex::{hex_lower, hex_upper_padded};

/// Constructing from a valid address decodes back to exactly the address and
/// the two bools that went in, for every combination of the bools.
#[test]
fn round_trip_all_bool_combinations() {
    for &(bool_one, bool_two) in
        &[(false, false), (false, true), (true, false), (true, true)]
    {
        let pointer = EncodedPointer::new(0x1234, bool_one, bool_two).unwrap();
        assert_eq!(0x1234, pointer.get_address());
        assert_eq!(bool_one, pointer.get_bool_one());
        assert_eq!(bool_two, pointer.get_bool_two());
    }
}

/// An address with either of the top two bits set is rejected by `new` and
/// `from_address` with `CollisionError`.
#[test]
fn construction_rejects_collision() {
    let top_bit: usize = 1 << 63;
    let second_bit: usize = 1 << 62;
    assert_eq!(Some(CollisionError), EncodedPointer::new(top_bit, false, false).err());
    assert_eq!(Some(CollisionError), EncodedPointer::new(second_bit, true, true).err());
    assert_eq!(Some(CollisionError), EncodedPointer::from_address(top_bit | 0x100).err());
    assert!(EncodedPointer::new(!(0b11usize << 62), true, true).is_ok());
}

/// `construct(0x8000000000000000, false, false)` (top bit already set) is a
/// collision failure.
#[test]
fn construct_top_bit_collision() {
    assert!(EncodedPointer::new(0x8000000000000000, false, false).is_err());
}

/// `set_address` with a colliding address returns false and leaves the whole
/// word unchanged.
#[test]
fn set_address_rejects_collision_unchanged() {
    let mut pointer = EncodedPointer::new(0x100, true, false).unwrap();
    let before = pointer.get_value();
    assert!(!pointer.set_address(1usize << 63));
    assert_eq!(before, pointer.get_value());
    assert!(!pointer.set_address(1usize << 62));
    assert_eq!(before, pointer.get_value());
    assert_eq!(0x100, pointer.get_address());
    assert_eq!(true, pointer.get_bool_one());
    assert_eq!(false, pointer.get_bool_two());
}

/// `from_address(0x100)` gives address `0x100` with both flags false; after
/// setting both bools the address is unchanged, both bools read true, and the
/// raw word holds exactly the two tag bits above the address.
#[test]
fn scenario_set_both_bools() {
    let mut pointer = EncodedPointer::from_address(0x100).unwrap();
    assert_eq!(0x100, pointer.get_address());
    assert_eq!(false, pointer.get_bool_one());
    assert_eq!(false, pointer.get_bool_two());

    pointer.set_bool_one(true);
    pointer.set_bool_two(true);

    assert_eq!(0x100, pointer.get_address());
    assert_eq!(true, pointer.get_bool_one());
    assert_eq!(true, pointer.get_bool_two());
    assert_eq!(0xC000000000000100, pointer.get_value());
}

/// Starting from a word with both bools set, `set_address(0x200)` replaces
/// the address and both bools remain true.
#[test]
fn scenario_set_address_keeps_flags() {
    let mut pointer = EncodedPointer::new(0x100, true, true).unwrap();
    assert!(pointer.set_address(0x200));
    assert_eq!(0x200, pointer.get_address());
    assert_eq!(true, pointer.get_bool_one());
    assert_eq!(true, pointer.get_bool_two());
}

/// Setting a bool twice to the same value yields the same raw word as
/// setting it once.
#[test]
fn set_bool_idempotent() {
    for &b in &[false, true] {
        let mut once = EncodedPointer::new(0x42, false, true).unwrap();
        once.set_bool_one(b);
        let mut twice = once;
        twice.set_bool_one(b);
        assert_eq!(once.get_value(), twice.get_value());

        let mut once = EncodedPointer::new(0x42, true, false).unwrap();
        once.set_bool_two(b);
        let mut twice = once;
        twice.set_bool_two(b);
        assert_eq!(once.get_value(), twice.get_value());
    }
}

/// `encode` packs the bools into the top two bits without validating the
/// address, and `bit_collision` tells exactly which addresses collide.
#[test]
fn encode_and_collision_check() {
    assert_eq!(0x8000000000000100, EncodedPointer::encode(0x100, true, false));
    assert_eq!(0x4000000000000100, EncodedPointer::encode(0x100, false, true));
    assert_eq!(0x100, EncodedPointer::encode(0x100, false, false));
    assert!(bit_collision(1usize << 63));
    assert!(bit_collision(1usize << 62));
    assert!(!bit_collision(0x100));
    assert!(!bit_collision(usize::MAX >> 2));
}

/// The unchecked constructor and setter store the word as given, and the
/// accessors decode it.
#[test]
fn unchecked_value_round_trip() {
    let mut pointer = EncodedPointer::from_value_unchecked(0xC000000000000100);
    assert_eq!(0xC000000000000100, pointer.get_value());
    assert_eq!(0x100, pointer.get_address());
    assert_eq!(true, pointer.get_bool_one());
    assert_eq!(true, pointer.get_bool_two());

    pointer.set_value(0x4000000000000200);
    assert_eq!(0x200, pointer.get_address());
    assert_eq!(false, pointer.get_bool_one());
    assert_eq!(true, pointer.get_bool_two());
}

/// `get_decoded` hands out all three parts at once, and they agree with the
/// individual accessors.
#[test]
fn decoded_parts_agree() {
    let mut pointer = EncodedPointer::new(0x300, false, true).unwrap();
    let DecodedPointer { pointer: address, bool_one, bool_two } = pointer.get_decoded();
    assert_eq!(0x300, address);
    assert_eq!(false, bool_one);
    assert_eq!(true, bool_two);

    let decoded_mut = pointer.get_decoded_mut();
    assert_eq!(0x300, decoded_mut.pointer);
    assert_eq!(false, decoded_mut.bool_one);
    assert_eq!(true, decoded_mut.bool_two);
}

/// The hex renderings used by the debug string: lowercase without leading
/// zeros, uppercase padded to the requested width.
#[test]
fn hex_renderings() {
    assert_eq!("0", hex_lower(0));
    assert_eq!("1abc", hex_lower(0x1abc));
    assert_eq!("ffffffffffffffff", hex_lower(usize::MAX));
    assert_eq!("001F", hex_upper_padded(0x1f, 4));
    assert_eq!("", hex_upper_padded(0x1f, 0));
    assert_eq!("0000000000000100", hex_upper_padded(0x100, 16));
}

/// The debug rendering zero-pads the raw word to the full word width.
#[test]
fn debug_rendering_pads_raw_word() {
    let pointer = EncodedPointer::from_address(0x100).unwrap();
    assert_eq!(
        pointer.debug_string(),
        "DecodedPointer { pointer: 0x100, bool_one: false, bool_two: false } : 0x0000000000000100"
    );
}
