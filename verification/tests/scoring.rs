use arcade_core::collision::{
    check_collisions, collectible_overlaps, Collectible, ScoreBoard, COLLECTIBLE_EXTENT,
};
use arcade_core::motion::{integrate, Actor, Vec3i};
use arcade_core::intent::MovementIntent;
use arcade_core::respawn::{collision_tick, respawn_collectible, COLLECTIBLE_HEIGHT, SPAWN_MAX,
    SPAWN_MIN};

fn cube(x: i64, z: i64) -> Collectible {
    Collectible { x, y: COLLECTIBLE_HEIGHT, z, extent: COLLECTIBLE_EXTENT }
}

#[test]
fn touching_edges_do_not_overlap() {
    let a = Actor::at(Vec3i { x: 0, y: 0, z: 0 });
    // facing down z: width 25 across x, so the spans touch at 2*dx == 125
    assert!(collectible_overlaps(&a, &cube(62, 0)));
    assert!(!collectible_overlaps(&a, &cube(63, 0)));
    // depth 125 along z: the spans close at 2*dz == 225
    assert!(collectible_overlaps(&a, &cube(0, 112)));
    assert!(!collectible_overlaps(&a, &cube(0, 113)));
}

#[test]
fn footprint_swaps_with_facing_axis() {
    let mut a = Actor::at(Vec3i { x: 0, y: 0, z: 0 });
    let target = cube(70, 0);
    // facing down z the narrow width faces x and the cube is clear
    assert!(!collectible_overlaps(&a, &target));
    // after a step along x the long extent faces x and the same cube is hit
    integrate(&mut a, &MovementIntent { dx: 1, dz: 0, running: false });
    let target = cube(73, 0);
    assert!(collectible_overlaps(&a, &target));
}

#[test]
fn each_overlap_scores_one_point() {
    let a = Actor::at(Vec3i { x: 0, y: 0, z: 0 });
    let field = vec![cube(0, 0), cube(400, 400), cube(10, 10)];
    let mut board = ScoreBoard { score: 5 };
    let (left, any) = check_collisions(&a, &field, &mut board);
    assert!(any);
    assert_eq!(board.score, 7);
    assert_eq!(left.len(), 1);
    assert_eq!(left[0].x, 400);
    assert_eq!(left[0].z, 400);
}

#[test]
fn no_overlap_changes_nothing() {
    let a = Actor::at(Vec3i { x: 0, y: 0, z: 0 });
    let field = vec![cube(400, 400), cube(-300, 200)];
    let mut board = ScoreBoard { score: 3 };
    let (left, any) = check_collisions(&a, &field, &mut board);
    assert!(!any);
    assert_eq!(board.score, 3);
    assert_eq!(left.len(), 2);
    assert_eq!(left[0].x, 400);
    assert_eq!(left[1].x, -300);
}

#[test]
fn respawn_lands_in_the_spawn_region() {
    for _ in 0..50 {
        let c = respawn_collectible();
        assert!(SPAWN_MIN <= c.x && c.x < SPAWN_MAX);
        assert!(SPAWN_MIN <= c.z && c.z < SPAWN_MAX);
        assert_eq!(c.y, COLLECTIBLE_HEIGHT);
        assert_eq!(c.extent, COLLECTIBLE_EXTENT);
    }
}

#[test]
fn one_overlap_removes_scores_and_respawns_once() {
    let a = Actor::at(Vec3i { x: 100, y: 0, z: 100 });
    let field = vec![cube(100, 100), cube(480, -480)];
    let mut board = ScoreBoard { score: 0 };
    let (after, any) = collision_tick(&a, &field, &mut board);
    assert!(any);
    assert_eq!(board.score, 1);
    // the overlapped cube is gone, the distant one stays, one replacement appears
    assert_eq!(after.len(), 2);
    assert_eq!(after[0].x, 480);
    assert_eq!(after[0].z, -480);
    let fresh = after[1];
    assert!(SPAWN_MIN <= fresh.x && fresh.x < SPAWN_MAX);
    assert!(SPAWN_MIN <= fresh.z && fresh.z < SPAWN_MAX);
    assert_eq!(fresh.y, COLLECTIBLE_HEIGHT);
}

#[test]
fn simultaneous_overlaps_coalesce_to_one_respawn() {
    let a = Actor::at(Vec3i { x: 0, y: 0, z: 0 });
    let field = vec![cube(0, 0), cube(5, 5)];
    let mut board = ScoreBoard { score: 0 };
    let (after, any) = collision_tick(&a, &field, &mut board);
    assert!(any);
    assert_eq!(board.score, 2);
    assert_eq!(after.len(), 1);
}

#[test]
fn end_to_end_first_pickup() {
    // start: score 0, actor at the origin, one collectible at the origin
    let a = Actor::at(Vec3i { x: 0, y: 0, z: 0 });
    let field = vec![cube(0, 0)];
    let mut board = ScoreBoard { score: 0 };
    let (after, any) = collision_tick(&a, &field, &mut board);
    // after one tick: score 1, the original collectible is gone, and a new
    // one exists with x and z inside [-500, 500] at height 50
    assert!(any);
    assert_eq!(board.score, 1);
    assert_eq!(after.len(), 1);
    let fresh = after[0];
    assert!(-500 <= fresh.x && fresh.x <= 500);
    assert!(-500 <= fresh.z && fresh.z <= 500);
    assert_eq!(fresh.y, 50);
}
