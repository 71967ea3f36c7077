use tiled_bevy_isometric::subtile::{
    corner_cut_open_centers, partial_wall_open_centers, subtile_center, SubtileGrid,
    CORNER_CUT_BLOCKED_LOCAL, CORNER_CUT_TILE, SUBTILES_PER_TILE,
};

/// Samples for a `w` x `h` tile map, every subtile set to `value`.
fn uniform_samples(w: usize, h: usize, value: bool) -> Vec<Vec<bool>> {
    vec![vec![value; 2 * w]; 2 * h]
}

/// The subtile a tile-space float position falls in (floor of twice it).
fn subtile_of_position(x: f32, y: f32) -> (i32, i32) {
    ((x * 2.0).floor() as i32, (y * 2.0).floor() as i32)
}

#[test]
fn empty_grid_blocks_nothing() {
    let grid = SubtileGrid::new();
    assert!(!grid.is_coord_blocked((0, 0)));
    assert!(!grid.is_coord_blocked((15, 24)));
    assert!(!grid.is_coord_blocked((-1, -1)));
}

#[test]
fn open_map_blocks_only_the_corner_cut_diagonal() {
    let grid = SubtileGrid::from_samples(&uniform_samples(20, 20, false));
    assert!(grid.is_coord_blocked((15, 24)));
    assert!(grid.is_coord_blocked((14, 25)));
    assert!(!grid.is_coord_blocked((14, 24)));
    assert!(!grid.is_coord_blocked((15, 25)));
    for y in 0..40 {
        for x in 0..40 {
            if (x, y) != (15, 24) && (x, y) != (14, 25) {
                assert!(!grid.is_coord_blocked((x, y)), "({x},{y}) should be open");
            }
        }
    }
}

#[test]
fn fully_covered_map_keeps_the_partial_wall_near_row_open() {
    let grid = SubtileGrid::from_samples(&uniform_samples(20, 20, true));
    assert!(!grid.is_coord_blocked((16, 24)));
    assert!(!grid.is_coord_blocked((17, 24)));
    assert!(grid.is_coord_blocked((16, 25)));
    assert!(grid.is_coord_blocked((17, 25)));
    assert!(grid.is_coord_blocked((14, 24)));
    assert!(grid.is_coord_blocked((15, 25)));
    assert!(grid.is_coord_blocked((0, 0)));
    assert!(grid.is_coord_blocked((39, 39)));
    assert!(!grid.is_coord_blocked((40, 0)));
    assert!(!grid.is_coord_blocked((0, 40)));
    assert!(!grid.is_coord_blocked((-1, 0)));
}

#[test]
fn a_fully_covered_tile_blocks_all_four_of_its_subtiles() {
    let mut samples = uniform_samples(20, 20, false);
    // Tile (3, 5) covers subtiles x 6..8, y 10..12.
    for sy in 10..12 {
        for sx in 6..8 {
            samples[sy][sx] = true;
        }
    }
    let grid = SubtileGrid::from_samples(&samples);
    for (x, y) in [(6, 10), (7, 10), (6, 11), (7, 11)] {
        assert!(grid.is_coord_blocked((x, y)));
    }
    for (x, y) in [(5, 10), (8, 10), (6, 9), (6, 12)] {
        assert!(!grid.is_coord_blocked((x, y)));
    }
}

#[test]
fn samples_index_rows_by_y_and_columns_by_x() {
    let mut samples = uniform_samples(20, 20, false);
    samples[3][1] = true;
    let grid = SubtileGrid::from_samples(&samples);
    assert!(grid.is_coord_blocked((1, 3)));
    assert!(!grid.is_coord_blocked((3, 1)));
}

#[test]
fn no_samples_still_applies_the_overrides() {
    let grid = SubtileGrid::from_samples(&Vec::new());
    assert!(grid.is_coord_blocked((15, 24)));
    assert!(grid.is_coord_blocked((14, 25)));
    assert!(!grid.is_coord_blocked((16, 25)));
}

#[test]
fn subtile_centers_are_in_quarter_tiles() {
    assert_eq!(subtile_center((0, 0)), (1, 1));
    assert_eq!(subtile_center((3, 4)), (7, 9));
    assert_eq!(subtile_center((-1, -2)), (-1, -3));
}

#[test]
fn partial_wall_centers_are_its_near_row() {
    assert_eq!(partial_wall_open_centers(), [(33, 49), (35, 49)]);
    let grid = SubtileGrid::from_samples(&uniform_samples(20, 20, true));
    for q in partial_wall_open_centers() {
        let c = subtile_of_position(q.0 as f32 / 4.0, q.1 as f32 / 4.0);
        assert!(!grid.is_coord_blocked(c));
    }
}

#[test]
fn corner_cut_open_centers_are_the_two_unblocked_diagonal_corners() {
    let centers = corner_cut_open_centers();
    let centers: Vec<(f32, f32)> =
        centers.iter().map(|q| (q.0 as f32 / 4.0, q.1 as f32 / 4.0)).collect();
    let (tx, ty) = CORNER_CUT_TILE;
    assert_eq!(subtile_of_position(centers[0].0, centers[0].1), (tx * 2, ty * 2));
    assert_eq!(subtile_of_position(centers[1].0, centers[1].1), (tx * 2 + 1, ty * 2 + 1));
    for (lx, ly) in CORNER_CUT_BLOCKED_LOCAL {
        let blocked_coord = (tx * SUBTILES_PER_TILE + lx, ty * SUBTILES_PER_TILE + ly);
        assert_ne!(subtile_of_position(centers[0].0, centers[0].1), blocked_coord);
        assert_ne!(subtile_of_position(centers[1].0, centers[1].1), blocked_coord);
    }
}

#[test]
fn nearby_states_walk_tiles_row_by_row_in_local_order() {
    let grid = SubtileGrid::from_samples(&uniform_samples(20, 20, false));
    let states = grid.nearby_subtile_states(7, 12, 1);
    assert_eq!(states.len(), 16);
    let expected = vec![
        ((12, 22), false),
        ((13, 22), false),
        ((12, 23), false),
        ((13, 23), false),
        ((14, 22), false),
        ((15, 22), false),
        ((14, 23), false),
        ((15, 23), false),
        ((12, 24), false),
        ((13, 24), false),
        ((12, 25), false),
        ((13, 25), false),
        ((14, 24), false),
        ((15, 24), true),
        ((14, 25), true),
        ((15, 25), false),
    ];
    assert_eq!(states, expected);
}

#[test]
fn nearby_states_cover_twice_the_radius_each_way() {
    let grid = SubtileGrid::new();
    assert!(grid.nearby_subtile_states(0, 0, 0).is_empty());
    let states = grid.nearby_subtile_states(-3, 4, 5);
    assert_eq!(states.len(), 10 * 10 * 4);
    assert_eq!(states[0].0, (-16, -2));
    assert_eq!(states[states.len() - 1].0, (3, 17));
}

#[test]
fn blocked_count_counts_each_blocked_subtile_once() {
    assert_eq!(SubtileGrid::new().blocked_count(), 0);
    assert_eq!(SubtileGrid::from_samples(&uniform_samples(20, 20, false)).blocked_count(), 2);
    assert_eq!(SubtileGrid::from_samples(&uniform_samples(20, 20, true)).blocked_count(), 1598);
}
