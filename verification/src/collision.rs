use vstd::prelude::*;
use crate::motion::{Actor, COORD_LIMIT};

verus! {

/// Horizontal extents of the controllable actor's bounding footprint, in
/// world units, as width across x, height, and depth along z when the actor
/// faces straight down the z axis.
pub const ACTOR_EXTENT_X: i64 = 25;

pub const ACTOR_EXTENT_Y: i64 = 70;

pub const ACTOR_EXTENT_Z: i64 = 125;

/// Side length of every collectible's square footprint, in world units.
pub const COLLECTIBLE_EXTENT: i64 = 100;

/// A static pickup entity: a centre position and the side of its square
/// footprint on the ground plane.
#[derive(Clone, Copy)]
pub struct Collectible {
    pub x: i64,
    pub y: i64,
    pub z: i64,
    pub extent: i64,
}

impl Collectible {
    /// Centre within the world bound and a footprint that is nonnegative
    /// and bounded, so overlap arithmetic stays within machine range.
    pub open spec fn wf(self) -> bool {
        &&& -COORD_LIMIT <= self.x <= COORD_LIMIT
        &&& -COORD_LIMIT <= self.y <= COORD_LIMIT
        &&& -COORD_LIMIT <= self.z <= COORD_LIMIT
        &&& 0 <= self.extent <= COORD_LIMIT
    }
}

/// The process-wide score: one point per detected collectible overlap.
pub struct ScoreBoard {
    pub score: u32,
}

/// Strict overlap of two centred extents projected on one axis: the boxes
/// overlap iff the doubled distance between the centres stays strictly
/// inside the sum of the extents, the exact integer form of comparing the
/// boxes' half-extent edges.
pub open spec fn axis_overlap(ac: int, ae: int, bc: int, be: int) -> bool {
    -(ae + be) < 2 * (ac - bc) < ae + be
}

/// The actor's footprint extent across x: the demos keep the bounding box
/// unrotated and instead swap its horizontal extents by facing axis, so an
/// actor looking along z presents its narrow width on x and its long depth
/// on z, and any turn off that axis presents them swapped.
pub open spec fn actor_extent_x(a: Actor) -> int {
    if a.face_x == 0 {
        ACTOR_EXTENT_X as int
    } else {
        ACTOR_EXTENT_Z as int
    }
}

/// The actor's footprint extent along z, the counterpart of
/// `actor_extent_x`.
pub open spec fn actor_extent_z(a: Actor) -> int {
    if a.face_x == 0 {
        ACTOR_EXTENT_Z as int
    } else {
        ACTOR_EXTENT_X as int
    }
}

/// Whether the actor's ground footprint strictly overlaps the collectible's
/// on both horizontal axes. Heights are not consulted: the demos test
/// overlap on the ground plane only.
pub open spec fn hits_collectible(a: Actor, c: Collectible) -> bool {
    &&& axis_overlap(a.pos.x as int, actor_extent_x(a), c.x as int, c.extent as int)
    &&& axis_overlap(a.pos.z as int, actor_extent_z(a), c.z as int, c.extent as int)
}

/// How many of the collectibles the actor overlaps.
pub open spec fn hit_count(a: Actor, s: Seq<Collectible>) -> nat
    decreases s.len(),
{
    if s.len() == 0 {
        0
    } else {
        hit_count(a, s.drop_last()) + if hits_collectible(a, s.last()) {
            1nat
        } else {
            0nat
        }
    }
}

/// The collectibles that survive the frame: exactly those the actor does
/// not overlap, in their original order.
pub open spec fn survivors(a: Actor, s: Seq<Collectible>) -> Seq<Collectible>
    decreases s.len(),
{
    if s.len() == 0 {
        Seq::empty()
    } else if hits_collectible(a, s.last()) {
        survivors(a, s.drop_last())
    } else {
        survivors(a, s.drop_last()).push(s.last())
    }
}

/// The actor never overlaps more collectibles than there are.
pub proof fn lemma_hit_count_bounded(a: Actor, s: Seq<Collectible>)
    ensures
        hit_count(a, s) <= s.len(),
    decreases s.len(),
{
    if s.len() > 0 {
        lemma_hit_count_bounded(a, s.drop_last());
    }
}

/// Overlap test between the actor and one collectible, the exact integer
/// counterpart of the demos' axis-aligned box test on the ground plane.
pub fn collectible_overlaps(a: &Actor, c: &Collectible) -> (r: bool)
    requires
        a.in_world(),
        c.wf(),
    ensures
        r == hits_collectible(*a, *c),
{
    let aex: i64 = if a.face_x == 0 {
        ACTOR_EXTENT_X
    } else {
        ACTOR_EXTENT_Z
    };
    let aez: i64 = if a.face_x == 0 {
        ACTOR_EXTENT_Z
    } else {
        ACTOR_EXTENT_X
    };
    let two_dx: i64 = 2 * (a.pos.x - c.x);
    let two_dz: i64 = 2 * (a.pos.z - c.z);
    let span_x: i64 = aex + c.extent;
    let span_z: i64 = aez + c.extent;
    -span_x < two_dx && two_dx < span_x && -span_z < two_dz && two_dz < span_z
}

/// Collision accounting: tests the actor's footprint against every live
/// collectible, removes each overlapped one, and scores one point per
/// overlap. Returns the surviving collectibles in order and whether any
/// overlap was detected this frame.
pub fn check_collisions(a: &Actor, collectibles: &Vec<Collectible>, board: &mut ScoreBoard) -> (r:
    (Vec<Collectible>, bool))
    requires
        a.in_world(),
        forall|i: int| 0 <= i < collectibles@.len() ==> collectibles@[i].wf(),
        old(board).score + collectibles@.len() <= u32::MAX,
    ensures
        r.0@ == survivors(*a, collectibles@),
        final(board).score == old(board).score + hit_count(*a, collectibles@),
        r.1 <==> hit_count(*a, collectibles@) > 0,
{
    let ghost all = collectibles@;
    let mut remaining: Vec<Collectible> = Vec::new();
    let mut any: bool = false;
    let mut i: usize = 0;
    while i < collectibles.len()
        invariant
            0 <= i <= collectibles@.len(),
            all == collectibles@,
            a.in_world(),
            forall|j: int| 0 <= j < collectibles@.len() ==> collectibles@[j].wf(),
            old(board).score + collectibles@.len() <= u32::MAX,
            remaining@ == survivors(*a, all.take(i as int)),
            board.score == old(board).score + hit_count(*a, all.take(i as int)),
            any <==> hit_count(*a, all.take(i as int)) > 0,
        decreases collectibles@.len() - i,
    {
        let c = collectibles[i];
        proof {
            assert(all.take(i + 1).drop_last() =~= all.take(i as int));
            assert(all.take(i + 1).last() == all[i as int]);
            lemma_hit_count_bounded(*a, all.take(i as int));
        }
        if collectible_overlaps(a, &c) {
            board.score = board.score + 1;
            any = true;
        } else {
            remaining.push(c);
        }
        i = i + 1;
    }
    proof {
        assert(all.take(collectibles@.len() as int) =~= collectibles@);
    }
    (remaining, any)
}

/// No overlap anywhere leaves the set and the score untouched.
pub proof fn lemma_no_hits(a: Actor, s: Seq<Collectible>)
    requires
        forall|j: int| 0 <= j < s.len() ==> !hits_collectible(a, s[j]),
    ensures
        hit_count(a, s) == 0,
        survivors(a, s) == s,
    decreases s.len(),
{
    if s.len() > 0 {
        lemma_no_hits(a, s.drop_last());
        assert(survivors(a, s.drop_last()).push(s.last()) =~= s);
    }
}

/// Law: when the actor's footprint overlaps exactly one collectible, that
/// frame removes precisely that collectible, keeps every other one in
/// order, and scores exactly one point.
pub proof fn lemma_single_hit(a: Actor, s: Seq<Collectible>, i: int)
    requires
        0 <= i < s.len(),
        hits_collectible(a, s[i]),
        forall|j: int| 0 <= j < s.len() && j != i ==> !hits_collectible(a, s[j]),
    ensures
        hit_count(a, s) == 1,
        survivors(a, s) == s.subrange(0, i) + s.subrange(i + 1, s.len() as int),
    decreases s.len(),
{
    let last = s.len() - 1;
    if i == last {
        assert forall|j: int| 0 <= j < s.drop_last().len() implies !hits_collectible(
            a,
            s.drop_last()[j],
        ) by {
            assert(s.drop_last()[j] == s[j]);
        }
        lemma_no_hits(a, s.drop_last());
        assert(survivors(a, s) == s.drop_last());
        assert(s.drop_last() =~= s.subrange(0, i) + s.subrange(i + 1, s.len() as int));
    } else {
        assert(!hits_collectible(a, s.last()));
        assert forall|j: int| 0 <= j < s.drop_last().len() && j != i implies !hits_collectible(
            a,
            s.drop_last()[j],
        ) by {
            assert(s.drop_last()[j] == s[j]);
        }
        assert(s.drop_last()[i] == s[i]);
        lemma_single_hit(a, s.drop_last(), i);
        assert(survivors(a, s) == (s.drop_last().subrange(0, i) + s.drop_last().subrange(
            i + 1,
            last,
        )).push(s.last()));
        assert((s.drop_last().subrange(0, i) + s.drop_last().subrange(i + 1, last)).push(s.last())
            =~= s.subrange(0, i) + s.subrange(i + 1, s.len() as int));
    }
}

} // verus!
