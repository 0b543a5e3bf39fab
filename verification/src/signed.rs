//! Two's-complement views of 16-bit values, as the screen geometry uses them.
use vstd::prelude::*;

verus! {

/// The value of a `u16` read as an `i16`.
pub open spec fn signed16(x: u16) -> int {
    if x < 0x8000 { x as int } else { x - 0x10000 }
}

/// The `u16` whose `i16` reading is `v`, for `v` in the `i16` range.
pub open spec fn wrap16(v: int) -> u16 {
    if v < 0 { (v + 0x10000) as u16 } else { v as u16 }
}

/// Whether `v` lies in the range of `i16`.
pub open spec fn in_i16(v: int) -> bool {
    -0x8000 <= v <= 0x7fff
}

/// Adds `delta` to `x` read as an `i16` and reads the sum back as a `u16`.
pub fn add_signed16(x: u16, delta: i32) -> (r: u16)
    requires
        in_i16(signed16(x) + delta),
    ensures
        r == wrap16(signed16(x) + delta),
        signed16(r) == signed16(x) + delta,
{
    let s: i32 = if x < 0x8000 { x as i32 } else { x as i32 - 0x10000 };
    let v: i32 = s + delta;
    if v < 0 {
        (v + 0x10000) as u16
    } else {
        v as u16
    }
}

} // verus!
