//! Integer conversions that the graphics API asks for.
use vstd::prelude::*;

verus! {

/// The signed integer with the same thirty-two bits as `value`.
pub open spec fn reinterpret(value: u32) -> int {
    if value <= 0x7fff_ffff {
        value as int
    } else {
        value - 0x1_0000_0000
    }
}

/// Reads the bits of `value` as a signed integer: values up to `i32::MAX`
/// stay, larger ones wrap round to the negative numbers.
pub fn to_signed(value: u32) -> (signed: i32)
    ensures
        signed == reinterpret(value),
{
    if value <= 0x7fff_ffff {
        value as i32
    } else {
        let above: u32 = value - 0x8000_0000;
        above as i32 + i32::MIN
    }
}

} // verus!
