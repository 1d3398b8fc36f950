use vstd::prelude::*;
use crate::intent::{HeldKeys, MovementIntent, axis_delta, spec_intent};

verus! {

/// World-units step per frame while walking.
pub const BASE_SPEED: i64 = 3;

/// World-units step per frame while the boost key is held.
pub const RUN_SPEED: i64 = 10;

/// How far behind the actor the look-at target is placed on each moved axis.
/// The actor is turned to face a point reflected away from its net
/// translation, reproducing the demos' look-toward-where-you-came-from
/// convention.
pub const LOOK_BEHIND_DISTANCE: i64 = 100;

/// Coordinates are kept within this bound so that every per-frame step and
/// every doubled coordinate difference in the overlap tests fits in an `i64`.
pub const COORD_LIMIT: i64 = 0x1000_0000_0000_0000;

/// A position in whole world units.
#[derive(Clone, Copy)]
pub struct Vec3i {
    pub x: i64,
    pub y: i64,
    pub z: i64,
}

impl Vec3i {
    /// All coordinates within the world bound.
    pub open spec fn in_world(self) -> bool {
        &&& -COORD_LIMIT <= self.x <= COORD_LIMIT
        &&& -COORD_LIMIT <= self.y <= COORD_LIMIT
        &&& -COORD_LIMIT <= self.z <= COORD_LIMIT
    }
}

/// The controllable entity of a demo: a position and a horizontal facing.
/// The facing is stored as the offset from the actor's position to its
/// current look-at target; a fresh actor faces straight down the z axis, so
/// its x offset is zero.
#[derive(Clone, Copy)]
pub struct Actor {
    pub pos: Vec3i,
    pub face_x: i64,
    pub face_z: i64,
}

impl Actor {
    pub open spec fn in_world(self) -> bool {
        self.pos.in_world()
    }

    /// A fresh actor at the given position, facing down the z axis.
    pub fn at(pos: Vec3i) -> (a: Actor)
        ensures
            a.pos == pos,
            a.face_x == 0,
            a.face_z == 0,
    {
        Actor { pos, face_x: 0, face_z: 0 }
    }
}

/// The per-frame step magnitude an intent's running flag selects.
pub open spec fn speed_of(running: bool) -> int {
    if running {
        RUN_SPEED as int
    } else {
        BASE_SPEED as int
    }
}

/// Whether an intent displaces the actor: the step magnitude is never zero,
/// so the position strictly changes exactly when some axis step is nonzero.
pub open spec fn spec_moved(intent: MovementIntent) -> bool {
    !intent.is_zero()
}

/// The facing offset toward the reflected look-at target on one axis: the
/// target sits `LOOK_BEHIND_DISTANCE` behind the old position on each moved
/// axis, so its offset from the new position opposes the step taken.
pub open spec fn spec_face_delta(step: int, speed: int) -> int {
    step * -(LOOK_BEHIND_DISTANCE + speed)
}

/// A product with a factor of -1, 0 or 1 reduces to a negation, zero or the
/// other factor.
proof fn lemma_unit_mul(d: int, s: int)
    ensures
        d == 0 ==> d * s == 0,
        d == 1 ==> d * s == s,
        d == -1 ==> d * s == -s,
{
    assert(0int * s == 0) by (nonlinear_arith);
    assert(1int * s == s) by (nonlinear_arith);
    assert((-1int) * s == -s) by (nonlinear_arith);
}

/// The actor `integrate` leaves behind: the position advances by the intent's
/// unit steps scaled by the frame speed; the facing is recomputed toward the
/// reflected target when the actor moved and is untouched otherwise.
pub open spec fn spec_integrate(a: Actor, m: MovementIntent) -> Actor {
    let speed = speed_of(m.running);
    Actor {
        pos: Vec3i {
            x: (a.pos.x + m.dx * speed) as i64,
            y: a.pos.y,
            z: (a.pos.z + m.dz * speed) as i64,
        },
        face_x: if spec_moved(m) {
            spec_face_delta(m.dx as int, speed) as i64
        } else {
            a.face_x
        },
        face_z: if spec_moved(m) {
            spec_face_delta(m.dz as int, speed) as i64
        } else {
            a.face_z
        },
    }
}

/// Motion integrator: advances the actor by the intent's per-axis unit steps
/// scaled by the frame speed, reports whether the position strictly changed,
/// and, only on movement, turns the actor toward a target reflected behind
/// its net translation. Height and, on an idle frame, facing are untouched.
pub fn integrate(actor: &mut Actor, intent: &MovementIntent) -> (moved: bool)
    requires
        intent.valid(),
        old(actor).in_world(),
    ensures
        moved == spec_moved(*intent),
        *final(actor) == spec_integrate(*old(actor), *intent),
        final(actor).pos.x == old(actor).pos.x + intent.dx * speed_of(intent.running),
        final(actor).pos.y == old(actor).pos.y,
        final(actor).pos.z == old(actor).pos.z + intent.dz * speed_of(intent.running),
        !moved ==> *final(actor) == *old(actor),
{
    let speed: i64 = if intent.running {
        RUN_SPEED
    } else {
        BASE_SPEED
    };
    let behind: i64 = -(LOOK_BEHIND_DISTANCE + speed);
    proof {
        lemma_unit_mul(intent.dx as int, speed as int);
        lemma_unit_mul(intent.dz as int, speed as int);
        lemma_unit_mul(intent.dx as int, behind as int);
        lemma_unit_mul(intent.dz as int, behind as int);
    }
    actor.pos.x = actor.pos.x + intent.dx * speed;
    actor.pos.z = actor.pos.z + intent.dz * speed;
    if intent.dx != 0 || intent.dz != 0 {
        actor.face_x = intent.dx * behind;
        actor.face_z = intent.dz * behind;
        true
    } else {
        false
    }
}

/// Exactly one directional key is held.
pub open spec fn exactly_one_direction(keys: HeldKeys) -> bool {
    ||| (keys.left && !keys.right && !keys.up && !keys.down)
    ||| (!keys.left && keys.right && !keys.up && !keys.down)
    ||| (!keys.left && !keys.right && keys.up && !keys.down)
    ||| (!keys.left && !keys.right && !keys.up && keys.down)
}

/// Law: with no directional key held the intent reader yields a zero-delta
/// intent whose running flag follows the boost key alone, and the motion
/// integrator leaves position and facing unchanged and reports no movement.
pub proof fn lemma_idle_frame(keys: HeldKeys, a: Actor)
    requires
        !keys.any_direction(),
    ensures
        spec_intent(keys).is_zero(),
        spec_intent(keys).running == keys.boost,
        !spec_moved(spec_intent(keys)),
        spec_integrate(a, spec_intent(keys)) == a,
{
}

/// Law: a single held directional key displaces the actor by exactly the
/// frame speed along that key's axis and leaves the other axes unchanged,
/// where the speed is the run speed if boost is held and the base speed
/// otherwise.
pub proof fn lemma_single_key_step(keys: HeldKeys, a: Actor)
    requires
        exactly_one_direction(keys),
        a.in_world(),
    ensures
        spec_integrate(a, spec_intent(keys)).pos.y == a.pos.y,
        keys.left ==> spec_integrate(a, spec_intent(keys)).pos.x == a.pos.x - speed_of(
            keys.boost,
        ) && spec_integrate(a, spec_intent(keys)).pos.z == a.pos.z,
        keys.right ==> spec_integrate(a, spec_intent(keys)).pos.x == a.pos.x + speed_of(
            keys.boost,
        ) && spec_integrate(a, spec_intent(keys)).pos.z == a.pos.z,
        keys.up ==> spec_integrate(a, spec_intent(keys)).pos.z == a.pos.z - speed_of(keys.boost)
            && spec_integrate(a, spec_intent(keys)).pos.x == a.pos.x,
        keys.down ==> spec_integrate(a, spec_intent(keys)).pos.z == a.pos.z + speed_of(keys.boost)
            && spec_integrate(a, spec_intent(keys)).pos.x == a.pos.x,
{
    let m = spec_intent(keys);
    lemma_unit_mul(m.dx as int, speed_of(keys.boost));
    lemma_unit_mul(m.dz as int, speed_of(keys.boost));
}

/// The square of an integer, used to state displacement magnitudes without
/// leaving integer arithmetic.
pub open spec fn spec_sq(n: int) -> int {
    n * n
}

/// Law: a diagonal input, one key from each opposed pair, displaces the actor
/// by the frame speed on both axes at once, so the squared magnitude of the
/// displacement is twice the squared speed: the diagonal step is deliberately
/// not normalized down to a single speed unit.
pub proof fn lemma_diagonal_step(keys: HeldKeys, a: Actor)
    requires
        keys.left != keys.right,
        keys.up != keys.down,
        a.in_world(),
    ensures
        spec_sq(spec_integrate(a, spec_intent(keys)).pos.x - a.pos.x) + spec_sq(
            spec_integrate(a, spec_intent(keys)).pos.z - a.pos.z,
        ) == 2 * spec_sq(speed_of(keys.boost)),
{
    let m = spec_intent(keys);
    let s = speed_of(keys.boost);
    lemma_unit_mul(m.dx as int, s);
    lemma_unit_mul(m.dz as int, s);
    assert((-s) * (-s) == s * s) by (nonlinear_arith);
}

} // verus!
