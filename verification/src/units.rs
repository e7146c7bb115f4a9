//! Units of time and length.

use vstd::prelude::*;

verus! {

/// Ticks of the clock in one second. With this rate every checkpoint of the
/// three styles and every step of the squares falls on a whole tick, and so
/// does every millisecond.
pub const TICKS_PER_SECOND: u64 = 3000;

/// Parts in one unit of length. A spinner's size is given in whole units;
/// every length that is drawn is counted in parts, so that each fraction of
/// the size that a style uses is a whole number.
pub const PARTS_PER_UNIT: u64 = 60;

/// Steps of brightness: a shade of this value is the full foreground colour.
pub const FULL_SHADE: u8 = 5;

/// The length of `units` whole units, in parts.
pub open spec fn parts_of(units: int) -> int {
    units * PARTS_PER_UNIT
}

} // verus!
