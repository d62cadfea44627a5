use vstd::prelude::*;

verus! {

/// Converts `num` to `i32`, clamping it to `i32`'s max value if `num` is too big.
pub fn as_i32(num: usize) -> (r: i32)
    ensures
        num <= i32::MAX ==> r == num as i32,
        num > i32::MAX ==> r == i32::MAX,
{
    if num <= i32::MAX as usize {
        num as i32
    } else {
        i32::MAX
    }
}

/// Converts `num` to `usize`, clamping it between 0 and `usize::MAX` if `num` is outside range.
pub fn as_usize(num: i32) -> (r: usize)
    ensures
        num >= 0 ==> r == num as usize,
        num < 0 ==> r == 0,
{
    if num >= 0 {
        num as usize
    } else {
        0
    }
}

/// Converts `num` to `usize`; every `u16` value fits.
pub fn u16_to_usize(num: u16) -> (r: usize)
    ensures
        r == num as usize,
{
    num as usize
}

} // verus!
