use vstd::prelude::*;

verus! {

/// Whether the bit pattern of a 32-bit IEEE 754 number is that of a NaN: all
/// exponent bits set, and some bit of the fraction.
pub open spec fn is_nan_bits(bits: u32) -> bool {
    (bits & 0x7f80_0000u32) == 0x7f80_0000u32 && (bits & 0x007f_ffffu32) != 0
}

/// The place of a number that is no NaN among all such numbers, from its bit
/// pattern: the patterns are sign and magnitude, so without the sign bit they
/// rise with the number, and with it they fall. Both zeros have the place zero.
pub open spec fn rank_of_bits(bits: u32) -> int {
    if (bits & 0x8000_0000u32) != 0 {
        -((bits & 0x7fff_ffffu32) as int)
    } else {
        bits as int
    }
}

pub fn is_nan(bits: u32) -> (nan: bool)
    ensures
        nan == is_nan_bits(bits),
{
    (bits & 0x7f80_0000u32) == 0x7f80_0000u32 && (bits & 0x007f_ffffu32) != 0
}

pub fn rank(bits: u32) -> (place: i64)
    ensures
        place == rank_of_bits(bits),
{
    if (bits & 0x8000_0000u32) != 0 {
        -((bits & 0x7fff_ffffu32) as i64)
    } else {
        bits as i64
    }
}

/// The number behind a character.
pub open spec fn char_code(c: char) -> int {
    c as int
}

} // verus!
