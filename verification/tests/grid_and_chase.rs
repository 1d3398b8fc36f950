use arcade_core::chase::{
    check_for_collisions, enemy_overlaps, move_player, warp_player, Enemy, Pos2, CHASE_SPEED,
};
use arcade_core::grid::{
    eat_food, requested_direction, spawn_food, steer, step, Direction, Position, Size,
    UNIT_HEIGHT, UNIT_WIDTH,
};
use arcade_core::intent::HeldKeys;

fn keys(left: bool, right: bool, up: bool, down: bool) -> HeldKeys {
    HeldKeys { left, right, up, down, boost: false }
}

#[test]
fn opposite_directions() {
    assert_eq!(Direction::Left.opposite(), Direction::Right);
    assert_eq!(Direction::Right.opposite(), Direction::Left);
    assert_eq!(Direction::Up.opposite(), Direction::Down);
    assert_eq!(Direction::Down.opposite(), Direction::Up);
    assert_eq!(Direction::Stay.opposite(), Direction::Stay);
}

#[test]
fn reverse_request_is_rejected() {
    // heading up, asking for down: the heading stands
    assert_eq!(steer(Direction::Up, Direction::Down), Direction::Up);
    assert_eq!(steer(Direction::Left, Direction::Right), Direction::Left);
    assert_eq!(steer(Direction::Down, Direction::Up), Direction::Down);
}

#[test]
fn other_requests_are_taken() {
    assert_eq!(steer(Direction::Up, Direction::Left), Direction::Left);
    assert_eq!(steer(Direction::Up, Direction::Up), Direction::Up);
    // releasing every key requests a halt, which any heading accepts
    assert_eq!(steer(Direction::Up, Direction::Stay), Direction::Stay);
}

#[test]
fn key_priority_for_requests() {
    assert_eq!(requested_direction(&keys(true, true, true, true)), Direction::Left);
    assert_eq!(requested_direction(&keys(false, true, true, true)), Direction::Down);
    assert_eq!(requested_direction(&keys(false, true, true, false)), Direction::Up);
    assert_eq!(requested_direction(&keys(false, true, false, false)), Direction::Right);
    assert_eq!(requested_direction(&keys(false, false, false, false)), Direction::Stay);
}

#[test]
fn stepping_moves_one_cell() {
    let p = Position { x: 3, y: 3 };
    assert_eq!(step(p, Direction::Left), Position { x: 2, y: 3 });
    assert_eq!(step(p, Direction::Right), Position { x: 4, y: 3 });
    assert_eq!(step(p, Direction::Up), Position { x: 3, y: 4 });
    assert_eq!(step(p, Direction::Down), Position { x: 3, y: 2 });
    assert_eq!(step(p, Direction::Stay), p);
}

#[test]
fn eating_removes_food_on_the_head_cell() {
    let head = Position { x: 3, y: 3 };
    let foods = vec![
        Position { x: 1, y: 1 },
        Position { x: 3, y: 3 },
        Position { x: 9, y: 0 },
        Position { x: 3, y: 3 },
    ];
    let left = eat_food(head, &foods);
    assert_eq!(left, vec![Position { x: 1, y: 1 }, Position { x: 9, y: 0 }]);
}

#[test]
fn food_spawns_inside_the_spans() {
    for _ in 0..50 {
        let p = spawn_food();
        assert!(0 <= p.x && (p.x as i64) < UNIT_WIDTH);
        assert!(0 <= p.y && (p.y as i64) < UNIT_HEIGHT);
    }
}

#[test]
fn square_sizes_both_sides() {
    let s = Size::square(800);
    assert_eq!(s.width, 800);
    assert_eq!(s.height, 800);
}

#[test]
fn chase_movement_steps_and_cancels() {
    let mut p = Pos2 { x: 0, y: 0 };
    move_player(&mut p, &keys(false, true, true, false));
    assert_eq!(p, Pos2 { x: CHASE_SPEED, y: CHASE_SPEED });
    move_player(&mut p, &keys(true, true, false, true));
    assert_eq!(p, Pos2 { x: CHASE_SPEED, y: 0 });
}

#[test]
fn warp_wraps_only_outside_the_window() {
    // window 400 x 300: half spans are 200 and 150
    let mut p = Pos2 { x: 201, y: 0 };
    warp_player(&mut p, 400, 300);
    assert_eq!(p, Pos2 { x: -199, y: 0 });

    let mut p = Pos2 { x: -201, y: -151 };
    warp_player(&mut p, 400, 300);
    assert_eq!(p, Pos2 { x: 199, y: 149 });

    // exactly on the half span is still inside
    let mut p = Pos2 { x: 200, y: -150 };
    warp_player(&mut p, 400, 300);
    assert_eq!(p, Pos2 { x: 200, y: -150 });
}

#[test]
fn chase_collisions_remove_hit_enemies() {
    let p = Pos2 { x: 0, y: 0 };
    // both footprints are 50: the spans touch at a distance of 50
    assert!(enemy_overlaps(&p, &Enemy { x: 49, y: 0 }));
    assert!(!enemy_overlaps(&p, &Enemy { x: 50, y: 0 }));

    let enemies = vec![Enemy { x: 10, y: 10 }, Enemy { x: 300, y: 0 }, Enemy { x: 0, y: -20 }];
    let (left, any) = check_for_collisions(&p, &enemies);
    assert!(any);
    assert_eq!(left, vec![Enemy { x: 300, y: 0 }]);

    let (left, any) = check_for_collisions(&Pos2 { x: -500, y: -500 }, &enemies);
    assert!(!any);
    assert_eq!(left.len(), 3);
}
