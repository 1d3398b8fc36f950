use vstd::prelude::*;
use crate::collision::axis_overlap;
use crate::intent::{axis_delta, HeldKeys};
use crate::motion::COORD_LIMIT;

verus! {

/// World-units step per frame for the chase demo's player.
pub const CHASE_SPEED: i64 = 5;

/// Side of the square footprint both the player and the enemies present.
pub const CHASE_EXTENT: i64 = 50;

/// A position on the chase demo's two-dimensional plane.
#[derive(Clone, Copy, PartialEq, Eq, Structural, Debug)]
pub struct Pos2 {
    pub x: i64,
    pub y: i64,
}

impl Pos2 {
    pub open spec fn in_world(self) -> bool {
        &&& -COORD_LIMIT <= self.x <= COORD_LIMIT
        &&& -COORD_LIMIT <= self.y <= COORD_LIMIT
    }
}

/// A static enemy with the standard square footprint.
#[derive(Clone, Copy, PartialEq, Eq, Structural, Debug)]
pub struct Enemy {
    pub x: i64,
    pub y: i64,
}

impl Enemy {
    pub open spec fn in_world(self) -> bool {
        &&& -COORD_LIMIT <= self.x <= COORD_LIMIT
        &&& -COORD_LIMIT <= self.y <= COORD_LIMIT
    }
}

/// The position one frame of held keys moves the player to: each held
/// directional key contributes one full step, additively, with the up key
/// raising y.
pub open spec fn spec_chase_step(p: Pos2, keys: HeldKeys) -> Pos2 {
    Pos2 {
        x: (p.x + CHASE_SPEED * axis_delta(keys.left, keys.right)) as i64,
        y: (p.y + CHASE_SPEED * axis_delta(keys.down, keys.up)) as i64,
    }
}

/// Free two-dimensional movement: advances the player by a fixed step per
/// held directional key, opposed keys cancelling.
pub fn move_player(p: &mut Pos2, keys: &HeldKeys)
    requires
        old(p).in_world(),
    ensures
        *final(p) == spec_chase_step(*old(p), *keys),
{
    if keys.left {
        p.x = p.x - CHASE_SPEED;
    }
    if keys.right {
        p.x = p.x + CHASE_SPEED;
    }
    if keys.up {
        p.y = p.y + CHASE_SPEED;
    }
    if keys.down {
        p.y = p.y - CHASE_SPEED;
    }
}

/// Where one coordinate ends up after the screen wrap: a coordinate more
/// than half the span from the centre is pulled back by a full span toward
/// the centre, the exact integer form of comparing its magnitude to half
/// the span.
pub open spec fn spec_warp_axis(v: int, span: int) -> int {
    if 2 * v > span {
        v - span
    } else if 2 * v < -span {
        v + span
    } else {
        v
    }
}

/// Screen wrap on one axis.
pub fn warp_axis(v: i64, span: i64) -> (r: i64)
    requires
        -COORD_LIMIT <= v <= COORD_LIMIT,
        0 <= span <= COORD_LIMIT,
    ensures
        r == spec_warp_axis(v as int, span as int),
{
    let doubled: i64 = 2 * v;
    if doubled > span {
        v - span
    } else if doubled < -span {
        v + span
    } else {
        v
    }
}

/// Screen wrap: a player that has left the window on either axis reappears
/// one full window span away on the other side; a player inside the window
/// is untouched.
pub fn warp_player(p: &mut Pos2, width: i64, height: i64)
    requires
        old(p).in_world(),
        0 <= width <= COORD_LIMIT,
        0 <= height <= COORD_LIMIT,
    ensures
        final(p).x == spec_warp_axis(old(p).x as int, width as int),
        final(p).y == spec_warp_axis(old(p).y as int, height as int),
{
    p.x = warp_axis(p.x, width);
    p.y = warp_axis(p.y, height);
}

/// Whether the player's footprint strictly overlaps an enemy's: both
/// present the same fixed square extent on both axes.
pub open spec fn hits_enemy(p: Pos2, e: Enemy) -> bool {
    &&& axis_overlap(p.x as int, CHASE_EXTENT as int, e.x as int, CHASE_EXTENT as int)
    &&& axis_overlap(p.y as int, CHASE_EXTENT as int, e.y as int, CHASE_EXTENT as int)
}

/// How many enemies the player overlaps.
pub open spec fn enemy_hit_count(p: Pos2, s: Seq<Enemy>) -> nat
    decreases s.len(),
{
    if s.len() == 0 {
        0
    } else {
        enemy_hit_count(p, s.drop_last()) + if hits_enemy(p, s.last()) {
            1nat
        } else {
            0nat
        }
    }
}

/// The enemies that survive the frame: exactly those the player does not
/// overlap, in their original order.
pub open spec fn enemy_survivors(p: Pos2, s: Seq<Enemy>) -> Seq<Enemy>
    decreases s.len(),
{
    if s.len() == 0 {
        Seq::empty()
    } else if hits_enemy(p, s.last()) {
        enemy_survivors(p, s.drop_last())
    } else {
        enemy_survivors(p, s.drop_last()).push(s.last())
    }
}

/// Overlap test between the player and one enemy.
pub fn enemy_overlaps(p: &Pos2, e: &Enemy) -> (r: bool)
    requires
        p.in_world(),
        e.in_world(),
    ensures
        r == hits_enemy(*p, *e),
{
    let two_dx: i64 = 2 * (p.x - e.x);
    let two_dy: i64 = 2 * (p.y - e.y);
    let span: i64 = CHASE_EXTENT + CHASE_EXTENT;
    -span < two_dx && two_dx < span && -span < two_dy && two_dy < span
}

/// Collision sweep: removes every enemy the player overlaps and reports
/// whether any overlap occurred this frame, the signal the demo's one-shot
/// collision sound follows.
pub fn check_for_collisions(p: &Pos2, enemies: &Vec<Enemy>) -> (r: (Vec<Enemy>, bool))
    requires
        p.in_world(),
        forall|i: int| 0 <= i < enemies@.len() ==> enemies@[i].in_world(),
    ensures
        r.0@ == enemy_survivors(*p, enemies@),
        r.1 <==> enemy_hit_count(*p, enemies@) > 0,
{
    let ghost all = enemies@;
    let mut remaining: Vec<Enemy> = Vec::new();
    let mut any: bool = false;
    let mut i: usize = 0;
    while i < enemies.len()
        invariant
            0 <= i <= enemies@.len(),
            all == enemies@,
            p.in_world(),
            forall|j: int| 0 <= j < enemies@.len() ==> enemies@[j].in_world(),
            remaining@ == enemy_survivors(*p, all.take(i as int)),
            any <==> enemy_hit_count(*p, all.take(i as int)) > 0,
        decreases enemies@.len() - i,
    {
        let e = enemies[i];
        proof {
            assert(all.take(i + 1).drop_last() =~= all.take(i as int));
            assert(all.take(i + 1).last() == all[i as int]);
        }
        if enemy_overlaps(p, &e) {
            any = true;
        } else {
            remaining.push(e);
        }
        i = i + 1;
    }
    proof {
        assert(all.take(enemies@.len() as int) =~= enemies@);
    }
    (remaining, any)
}

} // verus!
