use bevy_shooter::input::{movement_axes, player_speed, DirectionKeys};
use bevy_shooter::level::{
    level_walls, outline, sight_segments, spawn_edge, stepped_range, Bounds, Point, Rect, Segment,
    SpawnEdge, ARENA_HEIGHT, ARENA_WIDTH,
    GRID_SPACING,
};
use bevy_shooter::rng::{lcg_next, Lcg, LCG_SEED};

fn keys(up: bool, down: bool, left: bool, right: bool) -> DirectionKeys {
    DirectionKeys { up, down, left, right }
}

#[test]
fn movement_from_keys() {
    assert_eq!(movement_axes(&keys(false, false, false, false)), (0, 0));
    assert_eq!(movement_axes(&keys(true, false, false, false)), (0, 1));
    assert_eq!(movement_axes(&keys(false, true, true, false)), (-1, -1));
    assert_eq!(movement_axes(&keys(true, true, true, true)), (0, 0));
    assert_eq!(movement_axes(&keys(false, false, false, true)), (1, 0));
}

#[test]
fn sprint_speed() {
    assert_eq!(player_speed(false), 230);
    assert_eq!(player_speed(true), 330);
}

#[test]
fn level_has_six_walls() {
    let walls = level_walls();
    assert_eq!(walls.len(), 6);
    assert_eq!(walls[0], Rect::new(-210, 185, 220, 28));
    assert_eq!(walls[5], Rect { centre_x: 57, centre_y: -10, width: 32, height: 140 });
}

#[test]
fn walls_lie_inside_the_arena() {
    for w in level_walls() {
        assert!(2 * w.centre_x.abs() + w.width <= ARENA_WIDTH);
        assert!(2 * w.centre_y.abs() + w.height <= ARENA_HEIGHT);
    }
}

#[test]
fn player_start_is_clear_of_walls() {
    // The player starts at (0, -180) with radius 15.
    for w in level_walls() {
        let dx = ((2 * (0 - w.centre_x)).abs() - w.width).max(0) as i64;
        let dy = ((2 * (-180 - w.centre_y)).abs() - w.height).max(0) as i64;
        assert!(dx * dx + dy * dy >= 30 * 30);
    }
}

#[test]
fn grid_lines() {
    let xs = stepped_range(-ARENA_WIDTH / 2, ARENA_WIDTH / 2, GRID_SPACING);
    let expected: Vec<i32> = (-480..=480).step_by(40).collect();
    assert_eq!(xs, expected);
    assert_eq!(xs.len(), 25);
    let ys = stepped_range(-320, 320, 40);
    assert_eq!(ys.len(), 17);
    assert_eq!(ys[16], 320);
}

#[test]
fn stepped_range_edges() {
    assert_eq!(stepped_range(5, 4, 1), Vec::<i32>::new());
    assert_eq!(stepped_range(3, 3, 7), vec![3]);
    assert_eq!(stepped_range(0, 10, 3), vec![0, 3, 6, 9]);
    assert_eq!(stepped_range(0, 10, usize::MAX), vec![0]);
    let expected: Vec<i32> = (i32::MIN..=i32::MAX).step_by(1 << 30).collect();
    assert_eq!(stepped_range(i32::MIN, i32::MAX, 1 << 30), expected);
}

#[test]
fn spawn_edges() {
    assert_eq!(spawn_edge(0), SpawnEdge::Top);
    assert_eq!(spawn_edge(1), SpawnEdge::Bottom);
    assert_eq!(spawn_edge(2), SpawnEdge::Left);
    assert_eq!(spawn_edge(3), SpawnEdge::Right);
    assert_eq!(spawn_edge(4), SpawnEdge::Right);
}

#[test]
fn generator_steps() {
    let expected = ((LCG_SEED as u64 * 1664525 + 1013904223) % (1u64 << 32)) as u32;
    assert_eq!(lcg_next(LCG_SEED), expected);
    assert_eq!(lcg_next(0), 1013904223);
    assert_eq!(lcg_next(u32::MAX), 1013904223u32.wrapping_sub(1664525));
    let mut lcg = Lcg::new();
    assert_eq!(lcg.state, 0x1234abcd);
    let a = lcg.next_u32();
    let b = lcg.next_u32();
    assert_eq!(a, expected);
    assert_eq!(b, lcg_next(expected));
    assert_eq!(lcg.state, b);
}

#[test]
fn box_outline_is_a_closed_loop() {
    let b = Bounds { min_x: -2, min_y: -1, max_x: 3, max_y: 4 };
    let sides = outline(&b);
    assert_eq!(sides.len(), 4);
    assert_eq!(sides[0], Segment { a: Point { x: -2, y: -1 }, b: Point { x: 3, y: -1 } });
    assert_eq!(sides[1], Segment { a: Point { x: 3, y: -1 }, b: Point { x: 3, y: 4 } });
    assert_eq!(sides[2], Segment { a: Point { x: 3, y: 4 }, b: Point { x: -2, y: 4 } });
    assert_eq!(sides[3], Segment { a: Point { x: -2, y: 4 }, b: Point { x: -2, y: -1 } });
    for k in 0..4 {
        assert_eq!(sides[k].b, sides[(k + 1) % 4].a);
    }
}

#[test]
fn sight_segments_border_then_walls() {
    let arena = Bounds { min_x: -480.0f32, min_y: -320.0, max_x: 480.0, max_y: 320.0 };
    let walls = [
        Bounds { min_x: -320.0f32, min_y: 171.0, max_x: -100.0, max_y: 199.0 },
        Bounds { min_x: -40.0f32, min_y: -90.0, max_x: -8.0, max_y: 100.0 },
    ];
    let segments = sight_segments(&arena, &walls);
    assert_eq!(segments.len(), 12);
    assert_eq!(segments[0].a, Point { x: -480.0, y: -320.0 });
    assert_eq!(segments[0].b, Point { x: 480.0, y: -320.0 });
    assert_eq!(segments[3].b, Point { x: -480.0, y: -320.0 });
    assert_eq!(&segments[4..8], &outline(&walls[0])[..]);
    assert_eq!(&segments[8..12], &outline(&walls[1])[..]);
    assert_eq!(sight_segments::<f32>(&arena, &[]).len(), 4);
}
