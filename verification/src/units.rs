//! Frequencies and FreeRTOS tick counts.

use vstd::prelude::*;

verus! {

/// A frequency in Hz.
#[derive(Clone, Copy, Debug, PartialEq, Eq, Structural)]
pub struct Hertz(pub u32);

/// A FreeRTOS tick count (`TickType_t`).
pub type TickType = u32;

/// Tick count meaning "wait forever".
pub const BLOCK: TickType = 0xffff_ffff;

/// Ticks that do not wait at all.
pub const NON_BLOCK: TickType = 0;

/// The value a `TickType_t` takes as a C `int`, the way the I2C driver
/// hands its timeout to the ESP-IDF calls.
pub open spec fn c_int_of_ticks(ticks: TickType) -> int {
    if ticks <= 0x7fff_ffff {
        ticks as int
    } else {
        ticks as int - 0x1_0000_0000
    }
}

/// A tick count keeps its value as a C `int` when it fits; otherwise it
/// becomes the negative number that has the same 32 bits.
pub proof fn law_c_int_of_ticks(ticks: TickType)
    ensures
        ticks <= 0x7fff_ffff ==> c_int_of_ticks(ticks) == ticks,
        ticks > 0x7fff_ffff ==> c_int_of_ticks(ticks) == ticks - 0x1_0000_0000,
        i32::MIN <= c_int_of_ticks(ticks) <= i32::MAX,
{
}

/// Converts a tick count to a C `int` by reinterpreting its bits.
pub fn ticks_as_c_int(ticks: TickType) -> (r: i32)
    ensures
        r as int == c_int_of_ticks(ticks),
        ticks <= 0x7fff_ffff ==> r == ticks,
        r >= 0 <==> ticks <= 0x7fff_ffff,
        (r as int - ticks as int) % 0x1_0000_0000 == 0,
{
    let r = ticks as i32;
    proof {
        assert(ticks <= 0x7fff_ffff ==> r as int == ticks as int) by (bit_vector)
            requires
                r == ticks as i32,
        ;
        assert(ticks > 0x7fff_ffff ==> r as int == ticks as int - 0x1_0000_0000) by (bit_vector)
            requires
                r == ticks as i32,
        ;
    }
    r
}

} // verus!
