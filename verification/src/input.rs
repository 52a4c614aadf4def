use vstd::prelude::*;
use crate::geom::Vec2;
use crate::geom::valid_dir;

verus! {

/// Press and release edges observed this frame for the four movement
/// directions. A "left" edge is reported when either of the keys bound to
/// leftward movement (A or the left arrow) changes state, and likewise for
/// the other directions.
#[derive(Clone, Copy, Debug, PartialEq, Eq, Structural)]
pub struct InputEdges {
    pub left_pressed: bool,
    pub left_released: bool,
    pub right_pressed: bool,
    pub right_released: bool,
    pub up_pressed: bool,
    pub up_released: bool,
    pub down_pressed: bool,
    pub down_released: bool,
}

impl InputEdges {
    /// A frame on which no movement key changed state.
    pub fn none() -> (k: InputEdges)
        ensures
            k == (InputEdges {
                left_pressed: false,
                left_released: false,
                right_pressed: false,
                right_released: false,
                up_pressed: false,
                up_released: false,
                down_pressed: false,
                down_released: false,
            }),
    {
        InputEdges {
            left_pressed: false,
            left_released: false,
            right_pressed: false,
            right_released: false,
            up_pressed: false,
            up_released: false,
            down_pressed: false,
            down_released: false,
        }
    }
}

/// New horizontal direction after this frame's edges. A press overwrites the
/// axis with its own sign; a release zeroes the axis only while the axis
/// still carries that key's sign, so releasing one key never cancels the
/// opposing key's input. The leftward pair is handled before the rightward
/// pair, each as a press branch with a release fallback.
pub open spec fn steered_x(x: int, k: InputEdges) -> int {
    let x1 = if k.left_pressed {
        -1
    } else if k.left_released && x < 0 {
        0
    } else {
        x
    };
    if k.right_pressed {
        1
    } else if k.right_released && x1 > 0 {
        0
    } else {
        x1
    }
}

/// New vertical direction after this frame's edges: up carries +1 and down
/// carries -1, otherwise exactly as `steered_x`.
pub open spec fn steered_y(y: int, k: InputEdges) -> int {
    let y1 = if k.up_pressed {
        1
    } else if k.up_released && y > 0 {
        0
    } else {
        y
    };
    if k.down_pressed {
        -1
    } else if k.down_released && y1 < 0 {
        0
    } else {
        y1
    }
}

/// The input mapper: applies this frame's key edges to the player's
/// direction vector, each axis independently.
pub fn apply_input(dir: &mut Vec2, k: InputEdges)
    requires
        valid_dir(*old(dir)),
    ensures
        final(dir).x == steered_x(old(dir).x as int, k),
        final(dir).y == steered_y(old(dir).y as int, k),
        valid_dir(*final(dir)),
{
    if k.left_pressed {
        dir.x = -1;
    } else if k.left_released && dir.x < 0 {
        dir.x = 0;
    }
    if k.right_pressed {
        dir.x = 1;
    } else if k.right_released && dir.x > 0 {
        dir.x = 0;
    }
    if k.up_pressed {
        dir.y = 1;
    } else if k.up_released && dir.y > 0 {
        dir.y = 0;
    }
    if k.down_pressed {
        dir.y = -1;
    } else if k.down_released && dir.y < 0 {
        dir.y = 0;
    }
}

} // verus!
