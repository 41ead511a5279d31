//! The per-tick input snapshot the simulation consumes. The host samples
//! its input device once per tick and hands the core plain values; the
//! "pressed" flags are edge-triggered (true only the tick the key went
//! down).

use vstd::prelude::*;

verus! {

/// One tick's worth of player input.
#[derive(Copy, Clone, Debug, PartialEq, Eq, Structural)]
pub struct InputSnapshot {
    /// Horizontal axis: -1 (left), 0 (neutral) or 1 (right).
    pub x_axis: i32,
    /// Jump was pressed this tick.
    pub jump: bool,
    /// The first attack button was pressed this tick.
    pub attack: bool,
    /// The second (heavy) attack button was pressed this tick.
    pub heavy: bool,
}

impl InputSnapshot {
    pub open spec fn wf(self) -> bool {
        -1 <= self.x_axis <= 1
    }

    /// A snapshot with nothing pressed and a neutral axis.
    pub fn neutral() -> (r: Self)
        ensures
            r == (InputSnapshot { x_axis: 0, jump: false, attack: false, heavy: false }),
            r.wf(),
    {
        InputSnapshot { x_axis: 0, jump: false, attack: false, heavy: false }
    }
}

/// The horizontal axis derived from the two direction keys: right
/// minus left, a unit step that cancels to neutral when both or
/// neither are held.
pub fn x_axis_from_keys(left: bool, right: bool) -> (r: i32)
    ensures
        r == (if right {
            1int
        } else {
            0int
        }) - (if left {
            1int
        } else {
            0int
        }),
        -1 <= r <= 1,
{
    let l: i32 = if left {
        1
    } else {
        0
    };
    let r: i32 = if right {
        1
    } else {
        0
    };
    r - l
}

} // verus!
