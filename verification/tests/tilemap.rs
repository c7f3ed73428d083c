use jumper::tilemap::{
    build_stage, hide_map, move_floating_platform, platform_frame, show_map, Tile,
    PATROL_INTERVAL_MS, PLATFORM_STEP, PLATFORM_VEL_Y,
};
use jumper::{Visibility, TILE_SIZE};

fn grid_of(rows: &[&str]) -> Vec<Vec<char>> {
    rows.iter().map(|r| r.chars().collect()).collect()
}

#[test]
fn stage_row_tiles() {
    // One row "#--#" produces four tiles at x = 0, 1, 2, 3 tile widths, y = 0:
    // the outer ones static ground, the inner ones moving platforms.
    let tiles = build_stage(&grid_of(&["#--#"]), '*');
    assert_eq!(tiles.len(), 4);
    for (i, tile) in tiles.iter().enumerate() {
        assert_eq!(tile.x, i as i64 * TILE_SIZE);
        assert_eq!(tile.y, 0);
        assert!(tile.tile_collider.is_some());
        assert!(tile.wall_collider.is_none());
        assert!(tile.encounter.is_none());
        assert_eq!(tile.vel_x, 0);
        assert_eq!(tile.vel_y, 0);
    }
    assert!(tiles[0].moving.is_none());
    assert!(tiles[3].moving.is_none());
    for i in [1, 2] {
        let patrol = tiles[i].moving.expect("platform tile must carry patrol state");
        assert_eq!(patrol.movements_right, 0);
        assert_eq!(patrol.movements_left, 0);
        assert_eq!(patrol.timer.duration_ms, PATROL_INTERVAL_MS);
        assert_eq!(patrol.timer.elapsed_ms, 0);
        assert!(patrol.timer.repeating);
        assert!(!patrol.timer.finished());
    }
    assert_eq!(tiles[0].index, 0);
    assert_eq!(tiles[1].index, 0);
}

#[test]
fn gap_characters_make_no_tiles() {
    assert_eq!(build_stage(&grid_of(&[]), '*').len(), 0);
    assert_eq!(build_stage(&grid_of(&["   ", ".x*", "abc"]), '*').len(), 0);
    // Two non-gap characters among gaps.
    let tiles = build_stage(&grid_of(&["#.x*|"]), '*');
    assert_eq!(tiles.len(), 2);
    assert_eq!(tiles[0].x, 0);
    assert_eq!(tiles[1].x, 4 * TILE_SIZE);
}

#[test]
fn tile_count_matches_non_gap() {
    let tiles = build_stage(&grid_of(&["#--#", "|..|", "####"]), '*');
    assert_eq!(tiles.len(), 4 + 2 + 4);
    // Rows map to descending y.
    assert_eq!(tiles[4].y, -TILE_SIZE);
    assert_eq!(tiles[4].x, 0);
    assert_eq!(tiles[5].x, 3 * TILE_SIZE);
    assert_eq!(tiles[6].y, -2 * TILE_SIZE);
}

#[test]
fn wall_and_platform_tags() {
    let tiles = build_stage(&grid_of(&["|-"]), '*');
    let wall = &tiles[0];
    assert_eq!(wall.index, 2);
    assert!(wall.wall_collider.is_some());
    assert!(wall.tile_collider.is_none());
    assert!(wall.moving.is_none());

    let platform = &tiles[1];
    assert_eq!(platform.index, 0);
    assert!(platform.wall_collider.is_none());
    assert!(platform.tile_collider.is_some());
    let patrol = platform.moving.expect("platform tile must carry patrol state");
    assert_eq!((patrol.movements_right, patrol.movements_left), (0, 0));
    assert!(!patrol.timer.finished());
}

#[test]
fn trigger_character_marks_spawner() {
    // With the default trigger (a gap character) nothing is marked.
    let plain = build_stage(&grid_of(&["#-"]), '*');
    assert!(plain.iter().all(|t| t.encounter.is_none()));

    // Designating the platform character marks exactly its tiles.
    let marked = build_stage(&grid_of(&["#-"]), '-');
    assert!(marked[0].encounter.is_none());
    assert!(marked[1].encounter.is_some());
}

#[test]
fn patrol_cycle_returns_home() {
    let tiles = build_stage(&grid_of(&["-"]), '*');
    let mut tile = tiles[0];
    let home = tile.x;
    for _ in 0..6 {
        platform_frame(&mut tile, PATROL_INTERVAL_MS);
    }
    let patrol = tile.moving.unwrap();
    assert_eq!((patrol.movements_right, patrol.movements_left), (0, 0));
    assert_eq!(tile.x, home);
}

#[test]
fn platform_steps_three_each_way() {
    let tiles = build_stage(&grid_of(&["-"]), '*');
    let mut tile = tiles[0];
    let home = tile.x;
    let mut xs = Vec::new();
    let mut vels = Vec::new();
    for _ in 0..6 {
        platform_frame(&mut tile, PATROL_INTERVAL_MS);
        xs.push(tile.x - home);
        vels.push(tile.vel_x);
        assert_eq!(tile.vel_y, PLATFORM_VEL_Y);
    }
    assert_eq!(
        xs,
        vec![
            PLATFORM_STEP,
            2 * PLATFORM_STEP,
            3 * PLATFORM_STEP,
            2 * PLATFORM_STEP,
            PLATFORM_STEP,
            0
        ]
    );
    assert_eq!(
        vels,
        vec![
            PLATFORM_STEP,
            PLATFORM_STEP,
            PLATFORM_STEP,
            -PLATFORM_STEP,
            -PLATFORM_STEP,
            -PLATFORM_STEP
        ]
    );
}

#[test]
fn platform_timer_gates_steps() {
    let tiles = build_stage(&grid_of(&["-"]), '*');
    let mut tile = tiles[0];
    let home = tile.x;

    platform_frame(&mut tile, 700);
    assert_eq!(tile.x, home);
    assert_eq!(tile.moving.unwrap().timer.elapsed_ms, 700);
    assert_eq!(tile.vel_x, 0);

    platform_frame(&mut tile, 800);
    assert_eq!(tile.x, home + PLATFORM_STEP);
    assert_eq!(tile.moving.unwrap().timer.elapsed_ms, 0);
    assert_eq!(tile.moving.unwrap().movements_right, 1);
}

#[test]
fn static_tiles_never_move() {
    let mut tiles = build_stage(&grid_of(&["#-"]), '*');
    let ground_before: Tile = tiles[0];
    move_floating_platform(&mut tiles, PATROL_INTERVAL_MS);
    assert_eq!(tiles[0].x, ground_before.x);
    assert_eq!(tiles[0].vel_x, 0);
    assert!(tiles[0].moving.is_none());
    assert_eq!(tiles[1].x, TILE_SIZE + PLATFORM_STEP);
    assert_eq!(tiles[1].vel_x, PLATFORM_STEP);
}

#[test]
fn show_hide_map_toggle_children() {
    let mut children = vec![
        Visibility { is_visible: false },
        Visibility { is_visible: true },
        Visibility { is_visible: false },
    ];
    show_map(&mut children);
    assert!(children.iter().all(|v| v.is_visible));
    hide_map(&mut children);
    assert!(children.iter().all(|v| !v.is_visible));
}
