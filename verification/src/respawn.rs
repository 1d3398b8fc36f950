use vstd::prelude::*;
use crate::collision::{
    check_collisions, hit_count, survivors, Collectible, ScoreBoard, COLLECTIBLE_EXTENT,
};
use crate::motion::Actor;
use crate::randomness::{fresh_rng, gen_range_i64};

verus! {

/// Bounds of the square ground region replacement collectibles spawn in.
pub const SPAWN_MIN: i64 = -500;

pub const SPAWN_MAX: i64 = 500;

/// Height every collectible sits at.
pub const COLLECTIBLE_HEIGHT: i64 = 50;

/// Where a replacement collectible may legally appear: inside the spawn
/// square at the fixed height, with the standard footprint.
pub open spec fn in_spawn_region(c: Collectible) -> bool {
    &&& SPAWN_MIN <= c.x < SPAWN_MAX
    &&& c.y == COLLECTIBLE_HEIGHT
    &&& SPAWN_MIN <= c.z < SPAWN_MAX
    &&& c.extent == COLLECTIBLE_EXTENT
}

/// Respawn step: places one replacement collectible at a random position
/// within the spawn square, at the fixed height and with the standard
/// footprint. Every outcome lands inside the region; nothing is assumed of
/// which position is drawn.
pub fn respawn_collectible() -> (c: Collectible)
    ensures
        in_spawn_region(c),
        c.wf(),
{
    let mut rng = fresh_rng();
    let x: i64 = gen_range_i64(&mut rng, SPAWN_MIN, SPAWN_MAX);
    let z: i64 = gen_range_i64(&mut rng, SPAWN_MIN, SPAWN_MAX);
    Collectible { x, y: COLLECTIBLE_HEIGHT, z, extent: COLLECTIBLE_EXTENT }
}

/// One full collision/respawn frame, run after the actor's position is
/// final: every overlapped collectible is removed and scores one point, and
/// if any overlap occurred at all, exactly one replacement is appended,
/// somewhere inside the spawn region. Simultaneous overlaps each score but
/// are coalesced into a single respawn, as the demos' frame-local event
/// check does.
pub fn collision_tick(a: &Actor, collectibles: &Vec<Collectible>, board: &mut ScoreBoard) -> (r: (
    Vec<Collectible>,
    bool,
))
    requires
        a.in_world(),
        forall|i: int| 0 <= i < collectibles@.len() ==> collectibles@[i].wf(),
        old(board).score + collectibles@.len() <= u32::MAX,
    ensures
        final(board).score == old(board).score + hit_count(*a, collectibles@),
        r.1 <==> hit_count(*a, collectibles@) > 0,
        !r.1 ==> r.0@ == survivors(*a, collectibles@),
        r.1 ==> r.0@.len() == survivors(*a, collectibles@).len() + 1 && r.0@.drop_last()
            == survivors(*a, collectibles@) && in_spawn_region(r.0@.last()),
{
    let (mut remaining, any) = check_collisions(a, collectibles, board);
    if any {
        let fresh = respawn_collectible();
        remaining.push(fresh);
        proof {
            assert(remaining@.drop_last() =~= survivors(*a, collectibles@));
        }
    }
    (remaining, any)
}

} // verus!
