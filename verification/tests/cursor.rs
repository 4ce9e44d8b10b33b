use streamville::cursor::{to_world, GridWalker, TrailConfig, TrailField};

fn open_config() -> TrailConfig {
    // Both gates disabled: every pointer-move event spawns.
    TrailConfig {
        debounce_ms: 0,
        min_dist_sq: 0,
    }
}

#[test]
fn first_move_always_spawns() {
    let mut field = TrailField::new();
    let cfg = open_config();
    let spawned = field.spawn_on_move(&cfg, 100_000, 200_000, 1_000);
    assert!(spawned);
    assert_eq!(field.quads.len(), 1);
    assert_eq!(field.quads[0].x_mp, 100_000);
    assert_eq!(field.quads[0].y_mp, 200_000);
    assert_eq!(field.quads[0].spawn_elapsed_ms, 1_000);
}

#[test]
fn quad_lives_just_under_two_seconds() {
    // A quad spawned at 10.0 s is still alive at 11.9 s and gone at 12.1 s.
    let mut field = TrailField::new();
    let cfg = open_config();
    field.spawn_on_move(&cfg, 0, 0, 10_000);
    field.despawn_expired(11_900);
    assert_eq!(field.quads.len(), 1);
    field.despawn_expired(12_100);
    assert_eq!(field.quads.len(), 0);
}

#[test]
fn quad_survives_the_exact_deadline() {
    // Removal needs now - spawn > 2.0 s, strictly: at exactly 2.0 s the
    // quad stays.
    let mut field = TrailField::new();
    let cfg = open_config();
    field.spawn_on_move(&cfg, 0, 0, 10_000);
    field.despawn_expired(12_000);
    assert_eq!(field.quads.len(), 1);
    field.despawn_expired(12_001);
    assert_eq!(field.quads.len(), 0);
}

#[test]
fn debounce_gate_blocks_early_spawns() {
    let mut field = TrailField::new();
    let cfg = TrailConfig {
        debounce_ms: 500,
        min_dist_sq: 0,
    };
    assert!(field.spawn_on_move(&cfg, 0, 0, 1_000));
    // 300 ms later: too soon, nothing changes.
    assert!(!field.spawn_on_move(&cfg, 50_000, 0, 1_300));
    assert_eq!(field.quads.len(), 1);
    assert_eq!(field.next_depth_bias_centi, 1);
    // 600 ms after the recorded spawn: passes.
    assert!(field.spawn_on_move(&cfg, 50_000, 0, 1_600));
    assert_eq!(field.quads.len(), 2);
}

#[test]
fn min_distance_gate_compares_squared_lengths() {
    let mut field = TrailField::new();
    // A 3-4-5 triangle: the move is 5000 milli-pixels long, squared
    // 25_000_000.
    let cfg = TrailConfig {
        debounce_ms: 0,
        min_dist_sq: 25_000_001,
    };
    assert!(field.spawn_on_move(&cfg, 0, 0, 1_000));
    assert!(!field.spawn_on_move(&cfg, 3_000, 4_000, 2_000));
    assert_eq!(field.quads.len(), 1);
    let cfg_pass = TrailConfig {
        debounce_ms: 0,
        min_dist_sq: 25_000_000,
    };
    assert!(field.spawn_on_move(&cfg_pass, 3_000, 4_000, 3_000));
    assert_eq!(field.quads.len(), 2);
}

#[test]
fn rejected_event_does_not_move_the_last_spawn() {
    let mut field = TrailField::new();
    let cfg = TrailConfig {
        debounce_ms: 1_000,
        min_dist_sq: 0,
    };
    assert!(field.spawn_on_move(&cfg, 0, 0, 5_000));
    // Two rejected events in a row: the debounce still counts from the
    // recorded spawn, not from the rejected events.
    assert!(!field.spawn_on_move(&cfg, 10_000, 0, 5_500));
    assert!(!field.spawn_on_move(&cfg, 20_000, 0, 5_900));
    assert!(field.spawn_on_move(&cfg, 30_000, 0, 6_000));
}

#[test]
fn depth_bias_grows_by_one_per_spawn() {
    let mut field = TrailField::new();
    let cfg = open_config();
    field.spawn_on_move(&cfg, 0, 0, 1_000);
    field.spawn_on_move(&cfg, 1_000, 0, 2_000);
    field.spawn_on_move(&cfg, 2_000, 0, 3_000);
    assert_eq!(field.quads[0].depth_bias_centi, 0);
    assert_eq!(field.quads[1].depth_bias_centi, 1);
    assert_eq!(field.quads[2].depth_bias_centi, 2);
    assert_eq!(field.next_depth_bias_centi, 3);
}

#[test]
fn to_world_recenters_and_flips_y() {
    // A 1920x1080 window in milli-pixels; a pointer at (300, 200) pixels
    // lands at (-660, 340) in world coordinates.
    let (wx, wy) = to_world(300_000, 200_000, 1_920_000, 1_080_000);
    assert_eq!(wx, -660_000);
    assert_eq!(wy, 340_000);
}

#[test]
fn grid_walker_steps_and_wraps() {
    let mut walker = GridWalker::new();
    // 20-pixel increments on a 100-pixel half-window.
    let (tx, ty) = walker.step(100_000, 100_000, 20_000);
    assert_eq!((tx, ty), (-10_000, -10_000));
    assert_eq!((walker.x_mp, walker.y_mp), (20_000, 0));
    // March x to the right edge: 100 is not past 100, so x reaches it.
    for _ in 0..4 {
        walker.step(100_000, 100_000, 20_000);
    }
    assert_eq!((walker.x_mp, walker.y_mp), (100_000, 0));
    // The next step would pass the edge: x wraps and y climbs.
    let (tx, ty) = walker.step(100_000, 100_000, 20_000);
    assert_eq!((tx, ty), (90_000, -10_000));
    assert_eq!((walker.x_mp, walker.y_mp), (0, 20_000));
}

#[test]
fn grid_walker_wraps_y_past_the_top() {
    let mut walker = GridWalker::new();
    walker.y_mp = 95_000;
    walker.x_mp = 100_000;
    // x wraps, y would reach 115 over a 100 ceiling: it wraps to zero.
    walker.step(100_000, 100_000, 20_000);
    assert_eq!((walker.x_mp, walker.y_mp), (0, 0));
}
