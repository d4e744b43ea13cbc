//! The controller state.
//!
//! The host reports the eight buttons of the controller as one byte, one bit
//! for each button.

use vstd::prelude::*;

verus! {

/// Whether bit `n` of `mask` is set; bit 0 is the lowest.
pub open spec fn bit(mask: u8, n: u8) -> bool {
    (mask >> n) & 1 != 0
}

/// Which buttons are held down.
#[derive(Clone, Copy, Debug, PartialEq, Eq, Structural)]
pub struct ControllerState {
    pub a: bool,
    pub b: bool,
    pub start: bool,
    pub select: bool,
    pub up: bool,
    pub down: bool,
    pub left: bool,
    pub right: bool,
}

/// The buttons that `mask` reports: bit 0 is A, then B, Start, Select, Up,
/// Down, Left, and bit 7 is Right.
pub open spec fn decode(mask: u8) -> ControllerState {
    ControllerState {
        a: bit(mask, 0),
        b: bit(mask, 1),
        start: bit(mask, 2),
        select: bit(mask, 3),
        up: bit(mask, 4),
        down: bit(mask, 5),
        left: bit(mask, 6),
        right: bit(mask, 7),
    }
}

impl ControllerState {
    /// Decodes the byte that the host reports.
    pub fn from_byte(mask: u8) -> (state: Self)
        ensures
            state == decode(mask),
    {
        ControllerState {
            a: is_set(mask, 0),
            b: is_set(mask, 1),
            start: is_set(mask, 2),
            select: is_set(mask, 3),
            up: is_set(mask, 4),
            down: is_set(mask, 5),
            left: is_set(mask, 6),
            right: is_set(mask, 7),
        }
    }
}

fn is_set(mask: u8, n: u8) -> (set: bool)
    requires
        n < 8,
    ensures
        set == bit(mask, n),
{
    (mask >> n) & 1 != 0
}

/// Each flag is read from a bit of its own: two bytes that report the same
/// buttons are the same byte.
pub proof fn lemma_flags_independent(a: u8, b: u8)
    ensures
        decode(a) == decode(b) ==> a == b,
{
    assert(((a >> 0) & 1 != 0) == ((b >> 0) & 1 != 0) && ((a >> 1) & 1 != 0) == ((b >> 1) & 1
        != 0) && ((a >> 2) & 1 != 0) == ((b >> 2) & 1 != 0) && ((a >> 3) & 1 != 0) == ((b >> 3) & 1
        != 0) && ((a >> 4) & 1 != 0) == ((b >> 4) & 1 != 0) && ((a >> 5) & 1 != 0) == ((b >> 5) & 1
        != 0) && ((a >> 6) & 1 != 0) == ((b >> 6) & 1 != 0) && ((a >> 7) & 1 != 0) == ((b >> 7) & 1
        != 0) ==> a == b) by (bit_vector);
}

} // verus!
