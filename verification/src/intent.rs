use vstd::prelude::*;

verus! {

/// The five logical input keys a demo reads. Four directional keys move the
/// actor; the boost key, while held, raises the per-frame step from the base
/// speed to the run speed. In the three-dimensional demos `down` is the key
/// that pushes the actor toward the viewer (positive z) and `up` the key that
/// pushes it away (negative z); in the two-dimensional chase `up` raises y.
#[derive(Clone, Copy)]
pub struct HeldKeys {
    pub left: bool,
    pub right: bool,
    pub up: bool,
    pub down: bool,
    pub boost: bool,
}

impl HeldKeys {
    /// True when at least one directional key is held.
    pub open spec fn any_direction(self) -> bool {
        self.left || self.right || self.up || self.down
    }
}

/// Net unit step along one axis from an opposed pair of held keys: the
/// contributions are additive, so holding both keys cancels to zero.
pub open spec fn axis_delta(neg_held: bool, pos_held: bool) -> int {
    (if pos_held { 1int } else { 0int }) - (if neg_held { 1int } else { 0int })
}

/// A per-frame movement request: a unit step per axis (before scaling by the
/// frame speed) and whether the boost key was held. Produced fresh each frame
/// by the intent reader and consumed by the motion integrator.
#[derive(Clone, Copy)]
pub struct MovementIntent {
    pub dx: i64,
    pub dz: i64,
    pub running: bool,
}

impl MovementIntent {
    /// Every intent the reader emits keeps each axis step within one unit.
    pub open spec fn valid(self) -> bool {
        -1 <= self.dx <= 1 && -1 <= self.dz <= 1
    }

    /// True when the intent requests no displacement at all.
    pub open spec fn is_zero(self) -> bool {
        self.dx == 0 && self.dz == 0
    }
}

/// The intent `read_intent` emits for a given set of held keys.
pub open spec fn spec_intent(keys: HeldKeys) -> MovementIntent {
    MovementIntent {
        dx: axis_delta(keys.left, keys.right) as i64,
        dz: axis_delta(keys.up, keys.down) as i64,
        running: keys.boost,
    }
}

/// Intent reader: maps the currently held keys to a movement intent. Each
/// directional key contributes one signed unit step on its axis and the
/// contributions are additive, so opposed keys cancel and diagonals keep a
/// full step on both axes. The boost key alone decides the running flag.
pub fn read_intent(keys: &HeldKeys) -> (m: MovementIntent)
    ensures
        m == spec_intent(*keys),
        m.dx == axis_delta(keys.left, keys.right),
        m.dz == axis_delta(keys.up, keys.down),
        m.running == keys.boost,
        m.valid(),
        m.is_zero() <==> keys.left == keys.right && keys.up == keys.down,
{
    let mut dx: i64 = 0;
    let mut dz: i64 = 0;
    if keys.left {
        dx = dx - 1;
    }
    if keys.right {
        dx = dx + 1;
    }
    if keys.up {
        dz = dz - 1;
    }
    if keys.down {
        dz = dz + 1;
    }
    MovementIntent { dx, dz, running: keys.boost }
}

} // verus!
