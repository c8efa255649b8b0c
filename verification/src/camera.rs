//! Camera movement decisions: turns the polled state of the four
//! direction keys into a unit movement direction. Scaling the direction
//! by a speed and applying it to a transform is the rendering runtime's
//! floating-point concern, not this module's.

use vstd::prelude::*;

verus! {

/// The movement direction requested by the four direction keys: one step
/// right minus one step left on the first axis, one step up minus one
/// step down on the second. Opposing keys cancel out.
pub fn wasd_move_direction(up: bool, down: bool, right: bool, left: bool) -> (direction: (
    i32,
    i32,
))
    ensures
        direction.0 == (if right {
            1int
        } else {
            0int
        }) - (if left {
            1int
        } else {
            0int
        }),
        direction.1 == (if up {
            1int
        } else {
            0int
        }) - (if down {
            1int
        } else {
            0int
        }),
{
    let mut dx: i32 = 0;
    let mut dy: i32 = 0;
    if up {
        dy = dy + 1;
    }
    if down {
        dy = dy - 1;
    }
    if right {
        dx = dx + 1;
    }
    if left {
        dx = dx - 1;
    }
    (dx, dy)
}

/// Whether a polled direction asks the camera to move at all.
pub fn camera_should_move(direction: (i32, i32)) -> (should: bool)
    ensures
        should == (direction.0 != 0 || direction.1 != 0),
{
    direction.0 != 0 || direction.1 != 0
}

} // verus!
