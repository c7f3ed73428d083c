//! The tile map: building a level from a character grid, and the patrol
//! state machine of the moving platforms.
//!
//! A level is a rectangular grid of characters, one row per line.  Each
//! non-gap character produces one tile at `(column * TILE_SIZE,
//! -row * TILE_SIZE)`:
//!
//! * `'#'` — ground, sheet index 0, with a static solid collider;
//! * `'|'` — wall, sheet index 2, with a wall collider only;
//! * `'-'` — moving platform, sheet index 0, with a solid collider, a zeroed
//!   velocity and a fresh patrol state;
//! * any other character is a gap and produces no tile.
//!
//! A designated trigger character additionally marks the tiles it produces as
//! encounter spawners; with the default `'*'` (a gap) no tile is marked,
//! which leaves the encounter feature an explicit, not yet wired, stub.

use vstd::prelude::*;

use crate::timer::{GameTimer, spec_finished, spec_tick, timer_wf};
use crate::{POS_LIMIT, TILE_SIZE, Visibility};

verus! {

/// Period, in milliseconds, of the repeating timer that gates one patrol
/// step of a moving platform.
pub const PATROL_INTERVAL_MS: u32 = 1500;

/// Horizontal distance, in milliunits, that a moving platform covers in one
/// patrol step; also the magnitude of the velocity hint handed to the
/// physics engine.
pub const PLATFORM_STEP: i64 = 300;

/// Vertical velocity hint, in milliunits per second, set on a moving
/// platform whenever it steps.  The value is direction-independent and
/// deliberately kept as a named constant: the platforms patrol horizontally,
/// and this upward hint is part of their observed tuning.
pub const PLATFORM_VEL_Y: i64 = 10_000;

/// How many patrol steps a platform takes in each direction before turning.
pub const PATROL_STEPS: i32 = 3;

/// Largest accepted number of rows, and of characters per row, of a level
/// grid; keeps every tile coordinate far below [`POS_LIMIT`].
pub const GRID_DIM_LIMIT: usize = 1_000_000;

/// Marker for a tile with a static, solid collider: the ground the player
/// can stand on.  Contact with such a tile is what ends a jump.
#[derive(Debug, Clone, Copy, PartialEq, Eq, Structural)]
pub struct TileCollider;

/// Marker for a thin, solid wall tile.
#[derive(Debug, Clone, Copy, PartialEq, Eq, Structural)]
pub struct WallCollider;

/// Marker for a tile whose overlap region feeds the encounter tracker.
#[derive(Debug, Clone, Copy, PartialEq, Eq, Structural)]
pub struct EncounterSpawner;

/// Patrol state of a moving platform: steps taken rightwards and leftwards
/// in the current cycle, and the repeating timer that gates each step.
#[derive(Debug, Clone, Copy)]
pub struct MovingCollider {
    pub movements_right: i32,
    pub movements_left: i32,
    pub timer: GameTimer,
}

/// One tile of the built level: its position in milliunits, its sprite sheet
/// index, its collider markers (at most one collider class applies), its
/// patrol state if it is a moving platform, and its physics velocity hint.
#[derive(Debug, Clone, Copy)]
pub struct Tile {
    pub x: i64,
    pub y: i64,
    pub index: u32,
    pub tile_collider: Option<TileCollider>,
    pub wall_collider: Option<WallCollider>,
    pub moving: Option<MovingCollider>,
    pub encounter: Option<EncounterSpawner>,
    pub vel_x: i64,
    pub vel_y: i64,
}

/// A character that produces no tile.
pub open spec fn is_gap(c: char) -> bool {
    c != '#' && c != '|' && c != '-'
}

/// Sprite sheet index of a map character; 3 stands for "no tile".
pub open spec fn spec_char_index(c: char) -> u32 {
    if c == '#' {
        0
    } else if c == '|' {
        2
    } else if c == '-' {
        0
    } else {
        3
    }
}

/// See [`spec_char_index`].
pub fn char_index(c: char) -> (r: u32)
    ensures
        r == spec_char_index(c),
{
    if c == '#' {
        0
    } else if c == '|' {
        2
    } else if c == '-' {
        0
    } else {
        3
    }
}

/// The patrol state every moving platform starts with: no steps taken and a
/// fresh repeating timer.
pub open spec fn initial_patrol() -> MovingCollider {
    MovingCollider {
        movements_right: 0,
        movements_left: 0,
        timer: GameTimer {
            duration_ms: PATROL_INTERVAL_MS,
            elapsed_ms: 0,
            repeating: true,
            just_finished: false,
        },
    }
}

/// A bare sprite tile, before any collider or trigger marker is attached.
pub open spec fn spec_sprite(index: u32, x: i64, y: i64) -> Tile {
    Tile {
        x,
        y,
        index,
        tile_collider: None,
        wall_collider: None,
        moving: None,
        encounter: None,
        vel_x: 0,
        vel_y: 0,
    }
}

/// See [`spec_sprite`].
pub fn spawn_sprite(index: u32, x: i64, y: i64) -> (t: Tile)
    ensures
        t == spec_sprite(index, x, y),
{
    Tile {
        x,
        y,
        index,
        tile_collider: None,
        wall_collider: None,
        moving: None,
        encounter: None,
        vel_x: 0,
        vel_y: 0,
    }
}

/// The tile produced by the non-gap character `c` at grid cell
/// `(col, row)`, with `trigger` as the designated encounter character.
pub open spec fn spec_tile(c: char, col: int, row: int, trigger: char) -> Tile {
    Tile {
        x: (col * TILE_SIZE) as i64,
        y: (-row * TILE_SIZE) as i64,
        index: spec_char_index(c),
        tile_collider: if c == '#' || c == '-' {
            Some(TileCollider)
        } else {
            None
        },
        wall_collider: if c == '|' {
            Some(WallCollider)
        } else {
            None
        },
        moving: if c == '-' {
            Some(initial_patrol())
        } else {
            None
        },
        encounter: if c == trigger {
            Some(EncounterSpawner)
        } else {
            None
        },
        vel_x: 0,
        vel_y: 0,
    }
}

/// The tiles produced by one grid row (row number `row`), left to right.
pub open spec fn spec_row_tiles(cells: Seq<char>, row: int, trigger: char) -> Seq<Tile>
    decreases cells.len(),
{
    if cells.len() == 0 {
        Seq::empty()
    } else {
        spec_row_tiles(cells.drop_last(), row, trigger) + (if is_gap(cells.last()) {
            Seq::<Tile>::empty()
        } else {
            seq![spec_tile(cells.last(), cells.len() - 1, row, trigger)]
        })
    }
}

/// The tiles produced by a whole grid, top row first.
pub open spec fn spec_grid_tiles(grid: Seq<Seq<char>>, trigger: char) -> Seq<Tile>
    decreases grid.len(),
{
    if grid.len() == 0 {
        Seq::empty()
    } else {
        spec_grid_tiles(grid.drop_last(), trigger) + spec_row_tiles(
            grid.last(),
            grid.len() - 1,
            trigger,
        )
    }
}

/// Number of non-gap characters in one row.
pub open spec fn count_non_gap_row(cells: Seq<char>) -> nat
    decreases cells.len(),
{
    if cells.len() == 0 {
        0
    } else {
        count_non_gap_row(cells.drop_last()) + (if is_gap(cells.last()) {
            0nat
        } else {
            1nat
        })
    }
}

/// Number of non-gap characters in the whole grid.
pub open spec fn count_non_gap(grid: Seq<Seq<char>>) -> nat
    decreases grid.len(),
{
    if grid.len() == 0 {
        0
    } else {
        count_non_gap(grid.drop_last()) + count_non_gap_row(grid.last())
    }
}

/// One row produces exactly one tile per non-gap character.
pub proof fn lemma_row_tile_count(cells: Seq<char>, row: int, trigger: char)
    ensures
        spec_row_tiles(cells, row, trigger).len() == count_non_gap_row(cells),
    decreases cells.len(),
{
    if cells.len() > 0 {
        lemma_row_tile_count(cells.drop_last(), row, trigger);
    }
}

/// For every grid, the number of tiles produced equals the number of
/// non-gap characters: gap characters produce no tile.
pub proof fn lemma_tile_count(grid: Seq<Seq<char>>, trigger: char)
    ensures
        spec_grid_tiles(grid, trigger).len() == count_non_gap(grid),
    decreases grid.len(),
{
    if grid.len() > 0 {
        lemma_tile_count(grid.drop_last(), trigger);
        lemma_row_tile_count(grid.last(), grid.len() - 1, trigger);
    }
}

/// A tile produced by the wall character always carries the wall collider
/// and no patrol state; a tile produced by the moving-platform character
/// always carries patrol counters at (0, 0) and a fresh, unexpired timer.
pub proof fn lemma_wall_and_platform_tiles(col: int, row: int, trigger: char)
    ensures
        spec_tile('|', col, row, trigger).wall_collider == Some(WallCollider),
        spec_tile('|', col, row, trigger).tile_collider is None,
        spec_tile('|', col, row, trigger).moving is None,
        spec_tile('-', col, row, trigger).moving == Some(initial_patrol()),
        initial_patrol().movements_right == 0,
        initial_patrol().movements_left == 0,
        !spec_finished(initial_patrol().timer),
        initial_patrol().timer.elapsed_ms < initial_patrol().timer.duration_ms,
{
}

/// A tile carries at most one collider class: a wall tile has neither the
/// solid ground collider nor patrol state, and a moving platform is always
/// also solid ground (its patrol state rides on the ground collider).
pub proof fn lemma_collider_classes(c: char, col: int, row: int, trigger: char)
    ensures
        spec_tile(c, col, row, trigger).wall_collider is Some ==> spec_tile(
            c,
            col,
            row,
            trigger,
        ).tile_collider is None && spec_tile(c, col, row, trigger).moving is None,
        spec_tile(c, col, row, trigger).moving is Some ==> spec_tile(
            c,
            col,
            row,
            trigger,
        ).tile_collider is Some,
{
}

/// Build the level: one tile per non-gap character of `grid`, row by row and
/// left to right, each positioned at `(column * TILE_SIZE, -row * TILE_SIZE)`
/// and tagged as its character dictates.  Tiles produced by the `trigger`
/// character are additionally marked as encounter spawners.
pub fn build_stage(grid: &Vec<Vec<char>>, trigger: char) -> (tiles: Vec<Tile>)
    requires
        grid@.len() <= GRID_DIM_LIMIT,
        forall|i: int| 0 <= i < grid@.len() ==> #[trigger] grid@[i]@.len() <= GRID_DIM_LIMIT,
    ensures
        tiles@ == spec_grid_tiles(grid.deep_view(), trigger),
        tiles@.len() == count_non_gap(grid.deep_view()),
{
    let ghost g: Seq<Seq<char>> = grid.deep_view();
    let mut tiles: Vec<Tile> = Vec::new();
    let mut y: usize = 0;
    while y < grid.len()
        invariant
            y <= grid@.len(),
            grid@.len() <= GRID_DIM_LIMIT,
            forall|i: int| 0 <= i < grid@.len() ==> #[trigger] grid@[i]@.len() <= GRID_DIM_LIMIT,
            g == grid.deep_view(),
            tiles@ == spec_grid_tiles(g.take(y as int), trigger),
        decreases grid@.len() - y,
    {
        let row: &Vec<char> = &grid[y];
        proof {
            assert(g[y as int] =~= row@);
        }
        let mut x: usize = 0;
        while x < row.len()
            invariant
                x <= row@.len(),
                y < grid@.len(),
                grid@.len() <= GRID_DIM_LIMIT,
                row@.len() <= GRID_DIM_LIMIT,
                g == grid.deep_view(),
                g[y as int] == row@,
                tiles@ == spec_grid_tiles(g.take(y as int), trigger) + spec_row_tiles(
                    row@.take(x as int),
                    y as int,
                    trigger,
                ),
            decreases row@.len() - x,
        {
            let c: char = row[x];
            let index: u32 = char_index(c);
            if index != 3 {
                let mut tile: Tile = spawn_sprite(
                    index,
                    (x as i64) * TILE_SIZE,
                    -(y as i64) * TILE_SIZE,
                );
                if c == trigger {
                    tile.encounter = Some(EncounterSpawner);
                }
                if c == '#' {
                    tile.tile_collider = Some(TileCollider);
                }
                if c == '-' {
                    tile.tile_collider = Some(TileCollider);
                    tile.moving = Some(MovingCollider {
                        movements_right: 0,
                        movements_left: 0,
                        timer: GameTimer::from_millis(PATROL_INTERVAL_MS, true),
                    });
                }
                if c == '|' {
                    tile.wall_collider = Some(WallCollider);
                }
                proof {
                    assert(tile == spec_tile(c, x as int, y as int, trigger));
                }
                tiles.push(tile);
            }
            proof {
                assert(row@.take(x as int + 1).drop_last() =~= row@.take(x as int));
                assert(row@.take(x as int + 1).last() == row@[x as int]);
            }
            x = x + 1;
        }
        proof {
            assert(row@.take(row@.len() as int) =~= row@);
            assert(g.take(y as int + 1).drop_last() =~= g.take(y as int));
            assert(g.take(y as int + 1).last() == g[y as int]);
        }
        y = y + 1;
    }
    proof {
        assert(g.take(grid@.len() as int) =~= g);
        lemma_tile_count(g, trigger);
    }
    tiles
}

/// Well-formedness of a patrol state: counters within the cycle and a
/// well-formed timer.  Build states satisfy this and every step keeps it.
pub open spec fn patrol_wf(m: MovingCollider) -> bool {
    &&& 0 <= m.movements_right <= PATROL_STEPS
    &&& 0 <= m.movements_left <= PATROL_STEPS
    &&& timer_wf(m.timer)
}

/// One patrol step: the new state, whether the platform moved right, and
/// the horizontal velocity hint.  While fewer than [`PATROL_STEPS`] right
/// steps are taken the platform steps right; afterwards it steps left, and
/// completing the last left step resets both counters for the next cycle.
pub open spec fn spec_patrol_advance(m: MovingCollider) -> (MovingCollider, bool, i64) {
    if m.movements_right < PATROL_STEPS {
        (
            MovingCollider {
                movements_right: (m.movements_right + 1) as i32,
                movements_left: m.movements_left,
                timer: m.timer,
            },
            true,
            PLATFORM_STEP,
        )
    } else if m.movements_left < PATROL_STEPS {
        if m.movements_left + 1 == PATROL_STEPS {
            (
                MovingCollider { movements_right: 0, movements_left: 0, timer: m.timer },
                false,
                (-PLATFORM_STEP) as i64,
            )
        } else {
            (
                MovingCollider {
                    movements_right: m.movements_right,
                    movements_left: (m.movements_left + 1) as i32,
                    timer: m.timer,
                },
                false,
                (-PLATFORM_STEP) as i64,
            )
        }
    } else {
        (m, false, 0)
    }
}

/// See [`spec_patrol_advance`]; returns (moved right, velocity hint).
pub fn patrol_advance(m: &mut MovingCollider) -> (r: (bool, i64))
    requires
        patrol_wf(*old(m)),
    ensures
        (*final(m), r.0, r.1) == spec_patrol_advance(*old(m)),
        patrol_wf(*final(m)),
{
    if m.movements_right < PATROL_STEPS {
        m.movements_right = m.movements_right + 1;
        (true, PLATFORM_STEP)
    } else if m.movements_left < PATROL_STEPS {
        m.movements_left = m.movements_left + 1;
        if m.movements_left == PATROL_STEPS {
            m.movements_left = 0;
            m.movements_right = 0;
        }
        (false, -PLATFORM_STEP)
    } else {
        (false, 0)
    }
}

/// Horizontal displacement, in milliunits, of the step `spec_patrol_advance`
/// takes from state `m`.
pub open spec fn spec_patrol_dx(m: MovingCollider) -> int {
    if spec_patrol_advance(m).1 {
        PLATFORM_STEP as int
    } else {
        -PLATFORM_STEP
    }
}

/// Patrol cycle: starting from counters (0, 0), six consecutive steps
/// return the counters to (0, 0) and add up to zero net horizontal
/// displacement — three equal steps right, then three equal steps left.
pub proof fn lemma_patrol_cycle(m0: MovingCollider)
    requires
        m0.movements_right == 0,
        m0.movements_left == 0,
    ensures
        ({
            let m1 = spec_patrol_advance(m0).0;
            let m2 = spec_patrol_advance(m1).0;
            let m3 = spec_patrol_advance(m2).0;
            let m4 = spec_patrol_advance(m3).0;
            let m5 = spec_patrol_advance(m4).0;
            let m6 = spec_patrol_advance(m5).0;
            &&& m6.movements_right == 0
            &&& m6.movements_left == 0
            &&& m6.timer == m0.timer
            &&& spec_patrol_dx(m0) + spec_patrol_dx(m1) + spec_patrol_dx(m2) + spec_patrol_dx(m3)
                + spec_patrol_dx(m4) + spec_patrol_dx(m5) == 0
        }),
{
}

/// The state of `tile` after one frame of the platform controller with
/// frame delta `delta_ms`: a tile without patrol state is untouched; on a
/// moving platform the patrol timer advances, and each completion takes one
/// patrol step, moving the tile by [`PLATFORM_STEP`] in the step's direction
/// and setting the physics velocity hint.
pub open spec fn spec_platform_frame(t: Tile, delta_ms: u32) -> Tile {
    match t.moving {
        None => t,
        Some(m0) => {
            let ticked = spec_tick(m0.timer, delta_ms);
            let m1 = MovingCollider {
                movements_right: m0.movements_right,
                movements_left: m0.movements_left,
                timer: ticked,
            };
            if spec_finished(ticked) {
                let adv = spec_patrol_advance(m1);
                Tile {
                    x: (t.x + spec_patrol_dx(m1)) as i64,
                    y: t.y,
                    index: t.index,
                    tile_collider: t.tile_collider,
                    wall_collider: t.wall_collider,
                    moving: Some(adv.0),
                    encounter: t.encounter,
                    vel_x: adv.2,
                    vel_y: PLATFORM_VEL_Y,
                }
            } else {
                Tile {
                    x: t.x,
                    y: t.y,
                    index: t.index,
                    tile_collider: t.tile_collider,
                    wall_collider: t.wall_collider,
                    moving: Some(m1),
                    encounter: t.encounter,
                    vel_x: t.vel_x,
                    vel_y: t.vel_y,
                }
            }
        },
    }
}

/// Bounds under which a tile can be advanced without overflow, and its
/// patrol state, if any, is well formed.
pub open spec fn tile_frame_wf(t: Tile) -> bool {
    &&& -POS_LIMIT <= t.x <= POS_LIMIT
    &&& match t.moving {
        None => true,
        Some(m) => patrol_wf(m),
    }
}

/// Advance one tile by one frame of the platform controller.
/// See [`spec_platform_frame`].
pub fn platform_frame(tile: &mut Tile, delta_ms: u32)
    requires
        tile_frame_wf(*old(tile)),
    ensures
        *final(tile) == spec_platform_frame(*old(tile), delta_ms),
        (match final(tile).moving {
            None => true,
            Some(m) => patrol_wf(m),
        }),
        old(tile).x - PLATFORM_STEP <= final(tile).x <= old(tile).x + PLATFORM_STEP,
{
    if let Some(m_cur) = tile.moving {
        let mut m: MovingCollider = m_cur;
        m.timer.tick(delta_ms);
        if m.timer.finished() {
            let step = patrol_advance(&mut m);
            if step.0 {
                tile.x = tile.x + PLATFORM_STEP;
            } else {
                tile.x = tile.x - PLATFORM_STEP;
            }
            tile.vel_x = step.1;
            tile.vel_y = PLATFORM_VEL_Y;
        }
        tile.moving = Some(m);
    }
}

/// One frame of the moving-platform controller over the whole level: every
/// tile advances independently by [`spec_platform_frame`]; tiles without
/// patrol state are untouched.
pub fn move_floating_platform(tiles: &mut Vec<Tile>, delta_ms: u32)
    requires
        forall|i: int| 0 <= i < old(tiles)@.len() ==> tile_frame_wf(#[trigger] old(tiles)@[i]),
    ensures
        final(tiles)@ == old(tiles)@.map_values(|t: Tile| spec_platform_frame(t, delta_ms)),
{
    let ghost orig: Seq<Tile> = tiles@;
    let n: usize = tiles.len();
    let mut i: usize = 0;
    while i < n
        invariant
            i <= n,
            n == orig.len(),
            tiles@.len() == orig.len(),
            forall|j: int| 0 <= j < orig.len() ==> tile_frame_wf(#[trigger] orig[j]),
            forall|j: int| i <= j < orig.len() ==> tiles@[j] == orig[j],
            forall|j: int|
                0 <= j < i ==> tiles@[j] == spec_platform_frame(#[trigger] orig[j], delta_ms),
        decreases n - i,
    {
        proof {
            assert(tiles@[i as int] == orig[i as int]);
            assert(tile_frame_wf(orig[i as int]));
        }
        platform_frame(&mut tiles[i], delta_ms);
        i = i + 1;
    }
    proof {
        assert(tiles@ =~= orig.map_values(|t: Tile| spec_platform_frame(t, delta_ms)));
    }
}

/// Show every child of the map entity.
pub fn show_map(children: &mut Vec<Visibility>)
    ensures
        final(children)@.len() == old(children)@.len(),
        forall|i: int| 0 <= i < final(children)@.len() ==> final(children)@[i].is_visible,
{
    set_all_visibility(children, true);
}

/// Hide every child of the map entity.
pub fn hide_map(children: &mut Vec<Visibility>)
    ensures
        final(children)@.len() == old(children)@.len(),
        forall|i: int| 0 <= i < final(children)@.len() ==> !final(children)@[i].is_visible,
{
    set_all_visibility(children, false);
}

/// Set every visibility flag in `children` to `visible`.
pub fn set_all_visibility(children: &mut Vec<Visibility>, visible: bool)
    ensures
        final(children)@.len() == old(children)@.len(),
        forall|i: int| 0 <= i < final(children)@.len() ==> final(children)@[i].is_visible
            == visible,
{
    let n: usize = children.len();
    let mut i: usize = 0;
    while i < n
        invariant
            i <= n,
            children@.len() == n,
            forall|j: int| 0 <= j < i ==> children@[j].is_visible == visible,
        decreases n - i,
    {
        children[i] = Visibility { is_visible: visible };
        i = i + 1;
    }
}

} // verus!
