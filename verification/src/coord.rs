//! Pointer coordinates and the distance used to compare them.

use vstd::prelude::*;

verus! {

/// A pointer position in screen coordinates; the payload of every emitted event.
#[derive(Clone, Copy, Debug, PartialEq, Eq, Structural)]
pub struct MousePos {
    pub x: i32,
    pub y: i32,
}

/// Absolute value of a mathematical integer.
pub open spec fn spec_abs(v: int) -> int {
    if v < 0 {
        -v
    } else {
        v
    }
}

/// The L1 (taxicab) distance between two positions, as a mathematical integer.
pub open spec fn spec_l1_distance(a: MousePos, b: MousePos) -> int {
    spec_abs(a.x - b.x) + spec_abs(a.y - b.y)
}

/// Computes the L1 distance between two positions.
///
/// The result is exact for every pair of positions: the sum is carried in 64
/// bits, where it cannot overflow.
pub fn l1_distance(a: MousePos, b: MousePos) -> (d: u64)
    ensures
        d == spec_l1_distance(a, b),
{
    let dx: i64 = a.x as i64 - b.x as i64;
    let dy: i64 = a.y as i64 - b.y as i64;
    let ax: u64 = if dx < 0 {
        (-dx) as u64
    } else {
        dx as u64
    };
    let ay: u64 = if dy < 0 {
        (-dy) as u64
    } else {
        dy as u64
    };
    ax + ay
}

} // verus!
