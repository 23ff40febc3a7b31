//! Single bits of a register byte, tested by their weight.
use vstd::prelude::*;

verus! {

/// Whether the bit of weight `weight` (a power of two) is set in `byte`.
pub open spec fn has_bit(byte: u8, weight: u8) -> bool {
    weight > 0 && (byte / weight) % 2 == 1
}

/// Tests the bit of weight `weight` in `byte`.
pub fn test_bit(byte: u8, weight: u8) -> (set: bool)
    requires
        weight > 0,
    ensures
        set == has_bit(byte, weight),
{
    (byte / weight) % 2 == 1
}

/// For each of the eight weights the test is the mask test.
pub proof fn has_bit_is_mask_test(byte: u8)
    ensures
        has_bit(byte, 0x01) == (byte & 0x01 != 0),
        has_bit(byte, 0x02) == (byte & 0x02 != 0),
        has_bit(byte, 0x04) == (byte & 0x04 != 0),
        has_bit(byte, 0x08) == (byte & 0x08 != 0),
        has_bit(byte, 0x10) == (byte & 0x10 != 0),
        has_bit(byte, 0x20) == (byte & 0x20 != 0),
        has_bit(byte, 0x40) == (byte & 0x40 != 0),
        has_bit(byte, 0x80) == (byte & 0x80 != 0),
{
    assert(((byte / 0x01) % 2 == 1) == (byte & 0x01 != 0) && ((byte / 0x02) % 2 == 1) == (byte
        & 0x02 != 0) && ((byte / 0x04) % 2 == 1) == (byte & 0x04 != 0) && ((byte / 0x08) % 2 == 1)
        == (byte & 0x08 != 0) && ((byte / 0x10) % 2 == 1) == (byte & 0x10 != 0) && ((byte / 0x20)
        % 2 == 1) == (byte & 0x20 != 0) && ((byte / 0x40) % 2 == 1) == (byte & 0x40 != 0) && ((
    byte / 0x80) % 2 == 1) == (byte & 0x80 != 0)) by (bit_vector);
}

} // verus!
