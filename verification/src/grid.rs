use vstd::prelude::*;
use crate::intent::HeldKeys;
use crate::randomness::{fresh_rng, gen_range_i64};

verus! {

/// The grid demo's cell size in pixels. The food spawner reuses these two
/// numbers as the half-open spans it draws random cells from.
pub const UNIT_WIDTH: i64 = 20;

pub const UNIT_HEIGHT: i64 = 20;

/// A discrete heading on the grid. `Stay` is the heading of a frame with no
/// directional key held: the head halts until a key is pressed again.
#[derive(Clone, Copy, PartialEq, Eq, Structural, Debug)]
pub enum Direction {
    Left,
    Up,
    Right,
    Down,
    Stay,
}

impl Direction {
    /// The exact reverse of a heading; staying put is its own reverse.
    pub open spec fn spec_opposite(self) -> Direction {
        match self {
            Direction::Left => Direction::Right,
            Direction::Right => Direction::Left,
            Direction::Up => Direction::Down,
            Direction::Down => Direction::Up,
            Direction::Stay => Direction::Stay,
        }
    }

    pub fn opposite(self) -> (d: Direction)
        ensures
            d == self.spec_opposite(),
    {
        match self {
            Direction::Left => Direction::Right,
            Direction::Right => Direction::Left,
            Direction::Up => Direction::Down,
            Direction::Down => Direction::Up,
            Direction::Stay => Direction::Stay,
        }
    }
}

/// An integer grid cell, distinct from the continuous render position.
#[derive(Clone, Copy, PartialEq, Eq, Structural, Debug)]
pub struct Position {
    pub x: i32,
    pub y: i32,
}

/// A sprite's extent relative to one grid cell, in thousandths of the cell,
/// so a square filling eight tenths of its cell has both sides 800.
#[derive(Clone, Copy, PartialEq, Eq, Structural, Debug)]
pub struct Size {
    pub width: u32,
    pub height: u32,
}

impl Size {
    pub fn square(x: u32) -> (s: Size)
        ensures
            s.width == x,
            s.height == x,
    {
        Size { width: x, height: x }
    }
}

/// The heading a frame's held keys request, with the demo's key priority:
/// left outranks down, then up, then right; no directional key requests a
/// halt.
pub open spec fn spec_requested(keys: HeldKeys) -> Direction {
    if keys.left {
        Direction::Left
    } else if keys.down {
        Direction::Down
    } else if keys.up {
        Direction::Up
    } else if keys.right {
        Direction::Right
    } else {
        Direction::Stay
    }
}

pub fn requested_direction(keys: &HeldKeys) -> (d: Direction)
    ensures
        d == spec_requested(*keys),
{
    if keys.left {
        Direction::Left
    } else if keys.down {
        Direction::Down
    } else if keys.up {
        Direction::Up
    } else if keys.right {
        Direction::Right
    } else {
        Direction::Stay
    }
}

/// The heading the head keeps after a steering request: the request wins
/// unless it is the exact reverse of the current heading, which is refused
/// to rule out an instant about-turn into the body.
pub open spec fn spec_steer(current: Direction, requested: Direction) -> Direction {
    if requested == current.spec_opposite() {
        current
    } else {
        requested
    }
}

pub fn steer(current: Direction, requested: Direction) -> (d: Direction)
    ensures
        d == spec_steer(current, requested),
{
    if requested == current.opposite() {
        current
    } else {
        requested
    }
}

/// Law: a request for the exact reverse of the current heading is rejected
/// and the heading stands, whatever it is.
pub proof fn lemma_reverse_rejected(current: Direction)
    ensures
        spec_steer(current, current.spec_opposite()) == current,
{
}

/// The cell one fixed-timestep tick moves the head to.
pub open spec fn spec_step(p: Position, d: Direction) -> Position {
    match d {
        Direction::Left => Position { x: (p.x - 1) as i32, y: p.y },
        Direction::Right => Position { x: (p.x + 1) as i32, y: p.y },
        Direction::Up => Position { x: p.x, y: (p.y + 1) as i32 },
        Direction::Down => Position { x: p.x, y: (p.y - 1) as i32 },
        Direction::Stay => p,
    }
}

/// Grid motion: one tick advances the head by exactly one cell along its
/// heading, or not at all when halted.
pub fn step(p: Position, d: Direction) -> (q: Position)
    requires
        i32::MIN < p.x < i32::MAX,
        i32::MIN < p.y < i32::MAX,
    ensures
        q == spec_step(p, d),
{
    match d {
        Direction::Left => Position { x: p.x - 1, y: p.y },
        Direction::Right => Position { x: p.x + 1, y: p.y },
        Direction::Up => Position { x: p.x, y: p.y + 1 },
        Direction::Down => Position { x: p.x, y: p.y - 1 },
        Direction::Stay => p,
    }
}

/// The food items left after the head has eaten: exactly those not on the
/// head's cell, in their original order.
pub open spec fn remaining_food(head: Position, s: Seq<Position>) -> Seq<Position>
    decreases s.len(),
{
    if s.len() == 0 {
        Seq::empty()
    } else if s.last() == head {
        remaining_food(head, s.drop_last())
    } else {
        remaining_food(head, s.drop_last()).push(s.last())
    }
}

/// Eating step: removes every food item sitting on the head's cell and
/// keeps the rest in order.
pub fn eat_food(head: Position, foods: &Vec<Position>) -> (r: Vec<Position>)
    ensures
        r@ == remaining_food(head, foods@),
{
    let ghost all = foods@;
    let mut remaining: Vec<Position> = Vec::new();
    let mut i: usize = 0;
    while i < foods.len()
        invariant
            0 <= i <= foods@.len(),
            all == foods@,
            remaining@ == remaining_food(head, all.take(i as int)),
        decreases foods@.len() - i,
    {
        let f = foods[i];
        proof {
            assert(all.take(i + 1).drop_last() =~= all.take(i as int));
            assert(all.take(i + 1).last() == all[i as int]);
        }
        if !(f.x == head.x && f.y == head.y) {
            remaining.push(f);
        }
        i = i + 1;
    }
    proof {
        assert(all.take(foods@.len() as int) =~= foods@);
    }
    remaining
}

/// Food spawner: places one food item on a random cell drawn from the
/// demo's fixed spans. Every outcome lands inside them; nothing is assumed
/// of which cell is drawn.
pub fn spawn_food() -> (p: Position)
    ensures
        0 <= p.x < UNIT_WIDTH,
        0 <= p.y < UNIT_HEIGHT,
{
    let mut rng = fresh_rng();
    let x: i64 = gen_range_i64(&mut rng, 0, UNIT_WIDTH);
    let y: i64 = gen_range_i64(&mut rng, 0, UNIT_HEIGHT);
    Position { x: x as i32, y: y as i32 }
}

} // verus!
