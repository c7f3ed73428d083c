//! The player: per-frame input handling, the action state machine, jumping,
//! melee attacks, projectiles, the encounter tracker, camera follow and
//! animation selection.
//!
//! Each frame the host engine polls the input devices and the physics
//! engine, calls the functions here with plain values, and applies the
//! resulting velocities, positions and animation choice.  Distances are in
//! milliunits, speeds in milliunits per second, time in milliseconds.

use vstd::prelude::*;

use crate::timer::{GameTimer, spec_finished, spec_tick, timer_wf};
use crate::tilemap::Tile;
use crate::{GameState, POS_LIMIT, TILE_SIZE, Visibility};

verus! {

/// Horizontal running speed, in milliunits per second.
pub const RUN_SPEED: i64 = 1200;

/// Upward velocity impulse, in milliunits per second, applied on a jump.
pub const JUMP_SPEED: i64 = 2500;

/// Horizontal lunge velocity, in milliunits per second, applied when a
/// melee attack starts; signed by the facing direction.
pub const ATTACK_LUNGE_SPEED: i64 = 2000;

/// Duration of a melee attack, in milliseconds.
pub const ATTACK_DURATION_MS: u32 = 150;

/// Period, in milliseconds, of the repeating dwell timer that drives the
/// encounter trigger.
pub const ENCOUNTER_INTERVAL_MS: u32 = 1000;

/// Horizontal speed of a bullet, in milliunits per second; signed by the
/// facing direction at fire time.
pub const BULLET_SPEED: i64 = 2000;

/// Lifetime of a bullet, in milliseconds.
pub const BULLET_LIFETIME_MS: u32 = 2000;

/// Vertical offset, in milliunits, the camera keeps above the player.
pub const CAMERA_Y_OFFSET: i64 = 320;

/// Nominal speed stat of the player; reserved tuning data carried on the
/// player record.
pub const PLAYER_SPEED: i64 = 100;

/// The position the player starts a stage at, in milliunits.
pub const PLAYER_START_X: i64 = 100;

/// See [`PLAYER_START_X`].
pub const PLAYER_START_Y: i64 = -200;

/// Full side length, in milliunits, of the axis-aligned box around the
/// player used for overlap tests; slightly smaller than a tile.
pub const PLAYER_BOX: i64 = 90;

/// The player's behavioural mode for the current frame; exactly one value
/// is active at a time and it drives both physics and animation.
#[derive(Debug, Clone, Copy, PartialEq, Eq, Hash, Structural)]
pub enum PlayerAction {
    RunningRight,
    RunningLeft,
    Idle,
    Jumping,
    Attacking,
}

/// The player's persistent state.  Exactly one player exists; it is created
/// at startup and mutated every frame.
#[derive(Debug, Clone, Copy)]
pub struct Player {
    /// Nominal speed stat; carried but not consumed by the current rules.
    pub speed: i64,
    /// Gates all input processing; cleared by the encounter trigger.
    pub active: bool,
    /// Dwell gate of the encounter trigger.  No rule in this library sets
    /// it: flagging actual movement here is a deliberately unwired
    /// extension point, so in the current rules the encounter trigger
    /// never accumulates.
    pub just_moved: bool,
    /// True from a jump until ground contact is reported.
    pub jumping: bool,
    /// Facing direction; decides the sign of lunges and bullets.
    pub facing_right: bool,
    /// The currently selected action.
    pub player_action: PlayerAction,
}

/// Countdown for the duration of a melee attack.
#[derive(Debug, Clone, Copy)]
pub struct AttackTimer {
    pub timer: GameTimer,
}

/// Repeating dwell timer of the encounter trigger.
#[derive(Debug, Clone, Copy)]
pub struct EncounterTracker {
    pub timer: GameTimer,
}

/// A fired projectile: signed horizontal speed and a one-shot lifetime.
#[derive(Debug, Clone, Copy)]
pub struct PlayerBullet {
    pub speed: i64,
    pub timer: GameTimer,
}

/// A bullet together with its position in the world.
#[derive(Debug, Clone, Copy)]
pub struct BulletEntity {
    pub x: i64,
    pub y: i64,
    pub bullet: PlayerBullet,
}

/// Linear velocity of a physics body, in milliunits per second.
#[derive(Debug, Clone, Copy, PartialEq, Eq, Structural)]
pub struct Velocity {
    pub x: i64,
    pub y: i64,
}

/// The handles of the four registered animation clips, resolved once at
/// load time and immutable thereafter.
#[derive(Debug, Clone, Copy, PartialEq, Eq, Structural)]
pub struct Animations {
    pub running: u64,
    pub idle: u64,
    pub jumping: u64,
    pub attacking: u64,
}

/// Handle of the player's sprite sheet atlas.
#[derive(Debug, Clone, Copy, PartialEq, Eq, Structural)]
pub struct PlayerSheet(pub u64);

/// The input snapshot of one frame: held movement keys, and the click
/// edges of the two mouse buttons.
#[derive(Debug, Clone, Copy)]
pub struct FrameInput {
    /// The stop key is held.
    pub down: bool,
    /// The left movement key is held.
    pub left: bool,
    /// The right movement key is held.
    pub right: bool,
    /// The jump key is held.
    pub jump: bool,
    /// The attack button was just pressed this frame.
    pub attack: bool,
    /// The fire button was just pressed this frame.
    pub fire: bool,
}

/// The player state and velocity after the movement rules of one frame.
///
/// With the player inactive nothing changes.  A held stop key zeroes the
/// velocity.  Otherwise a held left or right key (left wins) sets the
/// horizontal velocity and the facing, and — unless the player is jumping
/// or attacking — the matching running action; with no key held the action
/// falls back to `Idle` under the same gate.
pub open spec fn spec_player_movement(p: Player, v: Velocity, input: FrameInput) -> (
    Player,
    Velocity,
) {
    if !p.active {
        (p, v)
    } else if input.down {
        (p, Velocity { x: 0, y: 0 })
    } else if input.left {
        let action = if !p.jumping && p.player_action != PlayerAction::Attacking {
            PlayerAction::RunningLeft
        } else {
            p.player_action
        };
        (
            Player { facing_right: false, player_action: action, ..p },
            Velocity { x: (-RUN_SPEED) as i64, y: v.y },
        )
    } else if input.right {
        let action = if !p.jumping && p.player_action != PlayerAction::Attacking {
            PlayerAction::RunningRight
        } else {
            p.player_action
        };
        (
            Player { facing_right: true, player_action: action, ..p },
            Velocity { x: RUN_SPEED, y: v.y },
        )
    } else {
        let action = if !p.jumping && p.player_action != PlayerAction::Attacking {
            PlayerAction::Idle
        } else {
            p.player_action
        };
        (Player { player_action: action, ..p }, v)
    }
}

/// Apply the movement rules of one frame.  See [`spec_player_movement`].
pub fn player_movement(player: &mut Player, vel: &mut Velocity, input: FrameInput)
    ensures
        (*final(player), *final(vel)) == (spec_player_movement(*old(player), *old(vel), input)),
{
    if !player.active {
        return ;
    }
    if input.down {
        vel.x = 0;
        vel.y = 0;
    } else if input.left {
        vel.x = -RUN_SPEED;
        player.facing_right = false;
        if !player.jumping && player.player_action != PlayerAction::Attacking {
            player.player_action = PlayerAction::RunningLeft;
        }
    } else if input.right {
        vel.x = RUN_SPEED;
        player.facing_right = true;
        if !player.jumping && player.player_action != PlayerAction::Attacking {
            player.player_action = PlayerAction::RunningRight;
        }
    } else {
        if !player.jumping && player.player_action != PlayerAction::Attacking {
            player.player_action = PlayerAction::Idle;
        }
    }
}

/// The player state and velocity after the jump rule of one frame: a held
/// jump key while not already jumping starts a jump — the velocity becomes
/// a pure upward impulse, the jump flag is set and the action becomes
/// `Jumping`.  An inactive player ignores the key.
pub open spec fn spec_player_jump(p: Player, v: Velocity, jump_pressed: bool) -> (
    Player,
    Velocity,
) {
    if p.active && jump_pressed && !p.jumping {
        (
            Player { jumping: true, player_action: PlayerAction::Jumping, ..p },
            Velocity { x: 0, y: JUMP_SPEED },
        )
    } else {
        (p, v)
    }
}

/// Apply the jump rule of one frame.  See [`spec_player_jump`].
pub fn player_jump(player: &mut Player, vel: &mut Velocity, jump_pressed: bool)
    ensures
        (*final(player), *final(vel)) == (spec_player_jump(*old(player), *old(vel), jump_pressed)),
{
    if player.active && jump_pressed && !player.jumping {
        player.player_action = PlayerAction::Jumping;
        vel.x = 0;
        vel.y = JUMP_SPEED;
        player.jumping = true;
    }
}

/// The player state after the ground-contact poll of one frame: when the
/// physics engine reports an active contact between the player body and
/// any tile with a solid collider, the jump flag clears; otherwise it is
/// left as it is.  Jump state is level-geometry-driven, not timer-driven.
pub open spec fn spec_cancel_jump(p: Player, grounded: bool) -> Player {
    if grounded {
        Player { jumping: false, ..p }
    } else {
        p
    }
}

/// Apply the ground-contact poll of one frame; `grounded` is the physics
/// engine's report of an active contact pair between the player and any
/// tile carrying a solid collider.  See [`spec_cancel_jump`].
pub fn cancel_jump(player: &mut Player, grounded: bool)
    ensures
        *final(player) == spec_cancel_jump(*old(player), grounded),
{
    if grounded {
        player.jumping = false;
    }
}

/// The player, attack timer and velocity after the melee rules of one
/// frame.  An attack in progress advances its timer and, the moment the
/// timer completes, drops back to `Idle`; otherwise a fresh attack press
/// starts an attack unconditionally (even airborne): the action becomes
/// `Attacking`, a horizontal lunge in the facing direction replaces the
/// velocity and the timer rewinds.  An inactive player ignores all of it.
pub open spec fn spec_melee_attack(
    p: Player,
    t: AttackTimer,
    v: Velocity,
    attack_pressed: bool,
    delta_ms: u32,
) -> (Player, AttackTimer, Velocity) {
    if !p.active {
        (p, t, v)
    } else if p.player_action == PlayerAction::Attacking {
        let ticked = spec_tick(t.timer, delta_ms);
        let action = if ticked.just_finished {
            PlayerAction::Idle
        } else {
            PlayerAction::Attacking
        };
        (Player { player_action: action, ..p }, AttackTimer { timer: ticked }, v)
    } else if attack_pressed {
        let lunge = if p.facing_right {
            ATTACK_LUNGE_SPEED
        } else {
            (-ATTACK_LUNGE_SPEED) as i64
        };
        (
            Player { player_action: PlayerAction::Attacking, ..p },
            AttackTimer {
                timer: GameTimer {
                    duration_ms: t.timer.duration_ms,
                    elapsed_ms: 0,
                    repeating: t.timer.repeating,
                    just_finished: false,
                },
            },
            Velocity { x: lunge, y: 0 },
        )
    } else {
        (p, t, v)
    }
}

/// Apply the melee rules of one frame.  See [`spec_melee_attack`].
pub fn melee_attack(
    player: &mut Player,
    attack_timer: &mut AttackTimer,
    vel: &mut Velocity,
    attack_pressed: bool,
    delta_ms: u32,
)
    requires
        timer_wf(old(attack_timer).timer),
    ensures
        (*final(player), *final(attack_timer), *final(vel)) == (spec_melee_attack(
            *old(player),
            *old(attack_timer),
            *old(vel),
            attack_pressed,
            delta_ms,
        )),
        timer_wf(final(attack_timer).timer),
{
    if !player.active {
        return ;
    }
    if player.player_action == PlayerAction::Attacking {
        attack_timer.timer.tick(delta_ms);
        if attack_timer.timer.just_finished() {
            player.player_action = PlayerAction::Idle;
        }
    } else if attack_pressed {
        player.player_action = PlayerAction::Attacking;
        if player.facing_right {
            vel.x = ATTACK_LUNGE_SPEED;
        } else {
            vel.x = -ATTACK_LUNGE_SPEED;
        }
        vel.y = 0;
        attack_timer.timer.reset();
    }
}

/// The bullet spawned by the fire rules of one frame, if any: a fresh
/// press of the fire button spawns a bullet at the player's position with
/// speed [`BULLET_SPEED`] signed by the facing direction and a full
/// one-shot lifetime timer.
pub open spec fn spec_shooting(p: Player, fire_pressed: bool, px: i64, py: i64) -> Option<
    BulletEntity,
> {
    if fire_pressed {
        Some(
            BulletEntity {
                x: px,
                y: py,
                bullet: PlayerBullet {
                    speed: if p.facing_right {
                        BULLET_SPEED
                    } else {
                        (-BULLET_SPEED) as i64
                    },
                    timer: GameTimer {
                        duration_ms: BULLET_LIFETIME_MS,
                        elapsed_ms: 0,
                        repeating: false,
                        just_finished: false,
                    },
                },
            },
        )
    } else {
        None
    }
}

/// Apply the fire rules of one frame; `(px, py)` is the player's position.
/// See [`spec_shooting`].
pub fn shooting(player: &Player, fire_pressed: bool, px: i64, py: i64) -> (r: Option<BulletEntity>)
    ensures
        r == spec_shooting(*player, fire_pressed, px, py),
{
    if fire_pressed {
        let speed: i64 = if player.facing_right {
            BULLET_SPEED
        } else {
            -BULLET_SPEED
        };
        Some(
            BulletEntity {
                x: px,
                y: py,
                bullet: PlayerBullet {
                    speed,
                    timer: GameTimer::from_millis(BULLET_LIFETIME_MS, false),
                },
            },
        )
    } else {
        None
    }
}

/// Distance covered in `delta_ms` milliseconds at `speed` milliunits per
/// second, rounded towards zero.
pub open spec fn spec_displacement(speed: int, delta_ms: int) -> int {
    if speed >= 0 {
        speed * delta_ms / 1000
    } else {
        -((-speed) * delta_ms / 1000)
    }
}

/// Bounds under which a bullet can be advanced without overflow.
pub open spec fn bullet_frame_wf(b: BulletEntity) -> bool {
    &&& -POS_LIMIT <= b.x <= POS_LIMIT
    &&& -POS_LIMIT <= b.bullet.speed <= POS_LIMIT
    &&& timer_wf(b.bullet.timer)
}

/// The bullet after moving for one frame of `delta_ms` milliseconds: its
/// position advances by `speed * delta_ms / 1000` and, unless the bullet
/// is due for removal, its lifetime timer advances.
pub open spec fn spec_bullet_frame(b: BulletEntity, delta_ms: u32) -> BulletEntity {
    let moved = (b.x + spec_displacement(b.bullet.speed as int, delta_ms as int)) as i64;
    if spec_finished(b.bullet.timer) {
        BulletEntity { x: moved, y: b.y, bullet: b.bullet }
    } else {
        BulletEntity {
            x: moved,
            y: b.y,
            bullet: PlayerBullet {
                speed: b.bullet.speed,
                timer: spec_tick(b.bullet.timer, delta_ms),
            },
        }
    }
}

/// Whether the bullet is removed this frame: exactly on the first frame
/// its lifetime timer reports itself finished, not before.
pub open spec fn spec_bullet_removed(b: BulletEntity) -> bool {
    spec_finished(b.bullet.timer)
}

/// Advance one bullet by one frame; returns whether the bullet's entity is
/// despawned this frame.  See [`spec_bullet_frame`] and
/// [`spec_bullet_removed`].
pub fn bullet_frame(b: &mut BulletEntity, delta_ms: u32) -> (removed: bool)
    requires
        bullet_frame_wf(*old(b)),
        delta_ms <= 1_000_000,
    ensures
        *final(b) == spec_bullet_frame(*old(b), delta_ms),
        removed == spec_bullet_removed(*old(b)),
{
    proof {
        assert(0 <= (if b.bullet.speed >= 0 {
            b.bullet.speed as int
        } else {
            -(b.bullet.speed as int)
        }) * delta_ms <= (POS_LIMIT as int) * 1_000_000) by (nonlinear_arith)
            requires
                -POS_LIMIT <= b.bullet.speed <= POS_LIMIT,
                0 <= delta_ms <= 1_000_000,
        ;
    }
    let disp: i64 = if b.bullet.speed >= 0 {
        b.bullet.speed * (delta_ms as i64) / 1000
    } else {
        -((-b.bullet.speed) * (delta_ms as i64) / 1000)
    };
    proof {
        assert(disp == spec_displacement(b.bullet.speed as int, delta_ms as int));
        assert(-(POS_LIMIT as int) * 1_000_000 <= spec_displacement(
            b.bullet.speed as int,
            delta_ms as int,
        ) <= (POS_LIMIT as int) * 1_000_000);
    }
    b.x = b.x + disp;
    if b.bullet.timer.finished() {
        true
    } else {
        b.bullet.timer.tick(delta_ms);
        false
    }
}

/// Advance every live bullet by one frame and drop the ones whose
/// lifetime has run out: the surviving bullets are exactly the live ones
/// advanced by [`spec_bullet_frame`], in their original order, and a
/// bullet is dropped exactly on the frame its timer reports finished.
pub fn move_bullets(bullets: &mut Vec<BulletEntity>, delta_ms: u32)
    requires
        forall|i: int| 0 <= i < old(bullets)@.len() ==> bullet_frame_wf(#[trigger] old(bullets)@[i]),
        delta_ms <= 1_000_000,
    ensures
        final(bullets)@ == old(bullets)@.filter(|b: BulletEntity| !spec_bullet_removed(b))
            .map_values(|b: BulletEntity| spec_bullet_frame(b, delta_ms)),
{
    let ghost orig: Seq<BulletEntity> = bullets@;
    let mut kept: Vec<BulletEntity> = Vec::new();
    let n: usize = bullets.len();
    let mut i: usize = 0;
    while i < n
        invariant
            i <= n,
            n == orig.len(),
            bullets@ == orig,
            delta_ms <= 1_000_000,
            forall|j: int| 0 <= j < orig.len() ==> bullet_frame_wf(#[trigger] orig[j]),
            kept@ == orig.take(i as int).filter(|b: BulletEntity| !spec_bullet_removed(b))
                .map_values(|b: BulletEntity| spec_bullet_frame(b, delta_ms)),
        decreases n - i,
    {
        let mut b: BulletEntity = bullets[i];
        let removed = bullet_frame(&mut b, delta_ms);
        if !removed {
            kept.push(b);
        }
        proof {
            assert(orig.take(i as int + 1).drop_last() =~= orig.take(i as int));
            assert(orig.take(i as int + 1).last() == orig[i as int]);
            reveal_with_fuel(Seq::filter, 2);
        }
        i = i + 1;
    }
    proof {
        assert(orig.take(n as int) =~= orig);
    }
    *bullets = kept;
}

/// Strict axis-aligned box overlap between the player's box (side
/// [`PLAYER_BOX`]) at `(px, py)` and a tile-sized box (side [`TILE_SIZE`])
/// at `(wx, wy)`: the centres differ by less than the sum of the half
/// sides on both axes.
pub open spec fn spec_boxes_overlap(px: int, py: int, wx: int, wy: int) -> bool {
    &&& 2 * (if px >= wx {
        px - wx
    } else {
        wx - px
    }) < PLAYER_BOX + TILE_SIZE
    &&& 2 * (if py >= wy {
        py - wy
    } else {
        wy - py
    }) < PLAYER_BOX + TILE_SIZE
}

/// Overlap test between the player at `(px, py)` and a tile at
/// `(wx, wy)`.  See [`spec_boxes_overlap`].
pub fn wall_collision_check(px: i64, py: i64, wx: i64, wy: i64) -> (r: bool)
    requires
        -POS_LIMIT <= px <= POS_LIMIT,
        -POS_LIMIT <= py <= POS_LIMIT,
        -POS_LIMIT <= wx <= POS_LIMIT,
        -POS_LIMIT <= wy <= POS_LIMIT,
    ensures
        r == spec_boxes_overlap(px as int, py as int, wx as int, wy as int),
{
    let dx: i64 = if px >= wx {
        px - wx
    } else {
        wx - px
    };
    let dy: i64 = if py >= wy {
        py - wy
    } else {
        wy - py
    };
    2 * dx < PLAYER_BOX + TILE_SIZE && 2 * dy < PLAYER_BOX + TILE_SIZE
}

/// Whether some encounter-spawner tile overlaps the player at `(px, py)`.
pub open spec fn spec_any_encounter_overlap(tiles: Seq<Tile>, px: int, py: int) -> bool {
    exists|i: int|
        0 <= i < tiles.len() && #[trigger] tiles[i].encounter is Some && spec_boxes_overlap(
            px,
            py,
            tiles[i].x as int,
            tiles[i].y as int,
        )
}

/// The player state, tracker state and transition signal after one frame
/// of the encounter trigger.  While the player has the dwell gate set and
/// overlaps some encounter-spawner tile, the dwell timer accumulates the
/// frame delta; on each completion the player is deactivated and a
/// transition into combat is signalled.  Performing that transition is
/// left to the caller: it is the not-yet-wired extension point of the
/// encounter feature.
pub open spec fn spec_player_encounter(
    p: Player,
    tracker: EncounterTracker,
    overlapping: bool,
    delta_ms: u32,
) -> (Player, EncounterTracker, Option<GameState>) {
    if p.just_moved && overlapping {
        let ticked = spec_tick(tracker.timer, delta_ms);
        if ticked.just_finished {
            (Player { active: false, ..p }, EncounterTracker { timer: ticked }, Some(
                GameState::Combat,
            ))
        } else {
            (p, EncounterTracker { timer: ticked }, None)
        }
    } else {
        (p, tracker, None)
    }
}

/// One frame of the encounter trigger: the player at `(px, py)` dwells on
/// the encounter-spawner tiles of `tiles`.  Returns the game state to
/// transition into when the dwell completes.  See
/// [`spec_player_encounter`] and [`spec_any_encounter_overlap`].
pub fn player_encounter_checking(
    player: &mut Player,
    tracker: &mut EncounterTracker,
    px: i64,
    py: i64,
    tiles: &Vec<Tile>,
    delta_ms: u32,
) -> (r: Option<GameState>)
    requires
        timer_wf(old(tracker).timer),
        -POS_LIMIT <= px <= POS_LIMIT,
        -POS_LIMIT <= py <= POS_LIMIT,
        forall|i: int|
            0 <= i < tiles@.len() ==> -POS_LIMIT <= #[trigger] tiles@[i].x <= POS_LIMIT
                && -POS_LIMIT <= tiles@[i].y <= POS_LIMIT,
    ensures
        (*final(player), *final(tracker), r) == (spec_player_encounter(
            *old(player),
            *old(tracker),
            spec_any_encounter_overlap(tiles@, px as int, py as int),
            delta_ms,
        )),
        timer_wf(final(tracker).timer),
{
    let mut overlapping: bool = false;
    let n: usize = tiles.len();
    let mut i: usize = 0;
    while i < n
        invariant
            i <= n,
            n == tiles@.len(),
            -POS_LIMIT <= px <= POS_LIMIT,
            -POS_LIMIT <= py <= POS_LIMIT,
            forall|j: int|
                0 <= j < tiles@.len() ==> -POS_LIMIT <= #[trigger] tiles@[j].x <= POS_LIMIT
                    && -POS_LIMIT <= tiles@[j].y <= POS_LIMIT,
            overlapping == spec_any_encounter_overlap(tiles@.take(i as int), px as int, py as int),
        decreases n - i,
    {
        let tile: &Tile = &tiles[i];
        let is_spawner: bool = match tile.encounter {
            Some(_) => true,
            None => false,
        };
        if is_spawner && wall_collision_check(px, py, tile.x, tile.y) {
            overlapping = true;
        }
        proof {
            assert(tiles@.take(i as int + 1).drop_last() =~= tiles@.take(i as int));
            assert(tiles@.take(i as int + 1).last() == tiles@[i as int]);
            if overlapping {
                assert(spec_any_encounter_overlap(tiles@.take(i as int + 1), px as int, py as int));
            } else {
                assert forall|j: int| 0 <= j < i + 1 implies !(#[trigger] tiles@.take(
                    i as int + 1,
                )[j].encounter is Some && spec_boxes_overlap(
                    px as int,
                    py as int,
                    tiles@.take(i as int + 1)[j].x as int,
                    tiles@.take(i as int + 1)[j].y as int,
                )) by {
                    if j < i {
                        assert(tiles@.take(i as int)[j] == tiles@.take(i as int + 1)[j]);
                        assert(!spec_any_encounter_overlap(
                            tiles@.take(i as int),
                            px as int,
                            py as int,
                        ));
                    }
                }
            }
        }
        i = i + 1;
    }
    proof {
        assert(tiles@.take(n as int) =~= tiles@);
    }
    if player.just_moved && overlapping {
        tracker.timer.tick(delta_ms);
        if tracker.timer.just_finished() {
            player.active = false;
            Some(GameState::Combat)
        } else {
            None
        }
    } else {
        None
    }
}

/// Where the camera stands this frame: pinned to the player's horizontal
/// position, a fixed [`CAMERA_Y_OFFSET`] above it, with no smoothing.
pub fn camera_follow(player_x: i64, player_y: i64) -> (r: (i64, i64))
    requires
        -POS_LIMIT <= player_y <= POS_LIMIT,
    ensures
        r.0 == player_x,
        r.1 == player_y + CAMERA_Y_OFFSET,
{
    (player_x, player_y + CAMERA_Y_OFFSET)
}

/// The animation clip handle matching an action: both running directions
/// share the running clip, and each other action has its own clip.
pub open spec fn spec_animation_for(action: PlayerAction, animations: Animations) -> u64 {
    match action {
        PlayerAction::RunningRight => animations.running,
        PlayerAction::RunningLeft => animations.running,
        PlayerAction::Jumping => animations.jumping,
        PlayerAction::Idle => animations.idle,
        PlayerAction::Attacking => animations.attacking,
    }
}

/// Select the animation clip for the current action.  Animation selection
/// is a pure function of the action.  See [`spec_animation_for`].
pub fn change_animation(action: PlayerAction, animations: &Animations) -> (r: u64)
    ensures
        r == spec_animation_for(action, *animations),
{
    match action {
        PlayerAction::RunningRight => animations.running,
        PlayerAction::RunningLeft => animations.running,
        PlayerAction::Jumping => animations.jumping,
        PlayerAction::Idle => animations.idle,
        PlayerAction::Attacking => animations.attacking,
    }
}

/// A contiguous frame range of the sprite sheet played as one animation
/// clip, with the duration of each frame in milliseconds.
#[derive(Debug, Clone, Copy, PartialEq, Eq, Structural)]
pub struct AnimationClip {
    pub first_frame: u32,
    pub last_frame: u32,
    pub frame_ms: u32,
}

/// The four clips registered at load time, in the order (running, idle,
/// jumping, attacking): running loops over frames 1–3, idle holds frame 0,
/// jumping holds frame 4, and attacking plays frames 5–8 at a faster
/// cadence.
pub fn animation_clips() -> (r: (AnimationClip, AnimationClip, AnimationClip, AnimationClip))
    ensures
        r.0 == (AnimationClip { first_frame: 1, last_frame: 3, frame_ms: 100 }),
        r.1 == (AnimationClip { first_frame: 0, last_frame: 0, frame_ms: 100 }),
        r.2 == (AnimationClip { first_frame: 4, last_frame: 4, frame_ms: 100 }),
        r.3 == (AnimationClip { first_frame: 5, last_frame: 8, frame_ms: 50 }),
{
    (
        AnimationClip { first_frame: 1, last_frame: 3, frame_ms: 100 },
        AnimationClip { first_frame: 0, last_frame: 0, frame_ms: 100 },
        AnimationClip { first_frame: 4, last_frame: 4, frame_ms: 100 },
        AnimationClip { first_frame: 5, last_frame: 8, frame_ms: 50 },
    )
}

/// Everything the player entity starts with: the player record, its two
/// timers, its velocity and its position.
#[derive(Debug, Clone, Copy)]
pub struct PlayerBundle {
    pub player: Player,
    pub attack_timer: AttackTimer,
    pub encounter_tracker: EncounterTracker,
    pub velocity: Velocity,
    pub x: i64,
    pub y: i64,
}

/// The initial state of the one player entity: active, grounded, facing
/// right and idle, with a fresh one-shot attack timer, a fresh repeating
/// encounter timer, no velocity, and the stage start position.
pub fn spawn_player() -> (r: PlayerBundle)
    ensures
        r.player == (Player {
            speed: PLAYER_SPEED,
            active: true,
            just_moved: false,
            jumping: false,
            facing_right: true,
            player_action: PlayerAction::Idle,
        }),
        r.attack_timer.timer == (GameTimer {
            duration_ms: ATTACK_DURATION_MS,
            elapsed_ms: 0,
            repeating: false,
            just_finished: false,
        }),
        r.encounter_tracker.timer == (GameTimer {
            duration_ms: ENCOUNTER_INTERVAL_MS,
            elapsed_ms: 0,
            repeating: true,
            just_finished: false,
        }),
        r.velocity == (Velocity { x: 0, y: 0 }),
        r.x == PLAYER_START_X,
        r.y == PLAYER_START_Y,
{
    PlayerBundle {
        player: Player {
            speed: PLAYER_SPEED,
            active: true,
            just_moved: false,
            jumping: false,
            facing_right: true,
            player_action: PlayerAction::Idle,
        },
        attack_timer: AttackTimer { timer: GameTimer::from_millis(ATTACK_DURATION_MS, false) },
        encounter_tracker: EncounterTracker {
            timer: GameTimer::from_millis(ENCOUNTER_INTERVAL_MS, true),
        },
        velocity: Velocity { x: 0, y: 0 },
        x: PLAYER_START_X,
        y: PLAYER_START_Y,
    }
}

/// Entering the overworld: the player and all its children become visible
/// and the player becomes active again.
pub fn show_player(player: &mut Player, vis: &mut Visibility, children: &mut Vec<Visibility>)
    ensures
        *final(player) == (Player { active: true, ..*old(player) }),
        final(vis).is_visible,
        final(children)@.len() == old(children)@.len(),
        forall|i: int| 0 <= i < final(children)@.len() ==> final(children)@[i].is_visible,
{
    vis.is_visible = true;
    player.active = true;
    crate::tilemap::set_all_visibility(children, true);
}

/// Leaving the overworld: the player and all its children are hidden; the
/// active flag is left as it is.
pub fn hide_player(vis: &mut Visibility, children: &mut Vec<Visibility>)
    ensures
        !final(vis).is_visible,
        final(children)@.len() == old(children)@.len(),
        forall|i: int| 0 <= i < final(children)@.len() ==> !final(children)@[i].is_visible,
{
    vis.is_visible = false;
    crate::tilemap::set_all_visibility(children, false);
}

/// The player, velocity and attack timer after one whole frame of input
/// processing, applying the per-frame priority of action selection:
///
/// 1. with the player inactive, nothing happens;
/// 2. an attack in progress advances and, on completion, resets the
///    action to `Idle`; movement and jump input are ignored for the whole
///    frame either way;
/// 3. otherwise a fresh attack press starts an attack, again suppressing
///    movement and jump selection this frame;
/// 4. otherwise the movement rules and then the jump rule apply.
pub open spec fn spec_player_frame(
    p: Player,
    v: Velocity,
    t: AttackTimer,
    input: FrameInput,
    delta_ms: u32,
) -> (Player, Velocity, AttackTimer) {
    if !p.active {
        (p, v, t)
    } else if p.player_action == PlayerAction::Attacking || input.attack {
        let m = spec_melee_attack(p, t, v, input.attack, delta_ms);
        (m.0, m.2, m.1)
    } else {
        let moved = spec_player_movement(p, v, input);
        let jumped = spec_player_jump(moved.0, moved.1, input.jump);
        (jumped.0, jumped.1, t)
    }
}

/// Run one whole frame of player input processing in the documented
/// priority order.  See [`spec_player_frame`].
pub fn player_frame(
    player: &mut Player,
    vel: &mut Velocity,
    attack_timer: &mut AttackTimer,
    input: FrameInput,
    delta_ms: u32,
)
    requires
        timer_wf(old(attack_timer).timer),
    ensures
        (*final(player), *final(vel), *final(attack_timer)) == (spec_player_frame(
            *old(player),
            *old(vel),
            *old(attack_timer),
            input,
            delta_ms,
        )),
        timer_wf(final(attack_timer).timer),
{
    if !player.active {
        return ;
    }
    if player.player_action == PlayerAction::Attacking || input.attack {
        melee_attack(player, attack_timer, vel, input.attack, delta_ms);
    } else {
        player_movement(player, vel, input);
        player_jump(player, vel, input.jump);
    }
}

/// Action transitions of an active, grounded, non-attacking player over
/// successive frames: a frame with only the right key held selects
/// `RunningRight`; a following frame with no input selects `Idle`; a
/// following frame with the jump key held starts a jump (`Jumping`, jump
/// flag set); and a ground contact report then clears the jump flag.
pub proof fn lemma_player_action_transitions(
    p: Player,
    v: Velocity,
    t: AttackTimer,
    delta_ms: u32,
)
    requires
        p.active,
        !p.jumping,
        p.player_action != PlayerAction::Attacking,
    ensures
        ({
            let run_input = FrameInput {
                down: false,
                left: false,
                right: true,
                jump: false,
                attack: false,
                fire: false,
            };
            let no_input = FrameInput {
                down: false,
                left: false,
                right: false,
                jump: false,
                attack: false,
                fire: false,
            };
            let jump_input = FrameInput {
                down: false,
                left: false,
                right: false,
                jump: true,
                attack: false,
                fire: false,
            };
            let s1 = spec_player_frame(p, v, t, run_input, delta_ms);
            let s2 = spec_player_frame(s1.0, s1.1, s1.2, no_input, delta_ms);
            let s3 = spec_player_frame(s2.0, s2.1, s2.2, jump_input, delta_ms);
            let landed = spec_cancel_jump(s3.0, true);
            &&& s1.0.player_action == PlayerAction::RunningRight
            &&& !s1.0.jumping
            &&& s2.0.player_action == PlayerAction::Idle
            &&& !s2.0.jumping
            &&& s3.0.player_action == PlayerAction::Jumping
            &&& s3.0.jumping
            &&& !landed.jumping
        }),
{
}

/// Attack precedence.  For an active player: a fresh attack press while
/// not attacking — airborne or not — selects `Attacking` immediately; while
/// the attack timer has not completed, a frame of any input leaves the
/// action at `Attacking`; and on the frame the timer completes, the action
/// reverts to `Idle` whatever movement keys are held.
pub proof fn lemma_attack_precedence(
    p: Player,
    v: Velocity,
    t: AttackTimer,
    input: FrameInput,
    delta_ms: u32,
)
    requires
        p.active,
    ensures
        input.attack && p.player_action != PlayerAction::Attacking ==> spec_player_frame(
            p,
            v,
            t,
            input,
            delta_ms,
        ).0.player_action == PlayerAction::Attacking,
        p.player_action == PlayerAction::Attacking && !spec_tick(
            t.timer,
            delta_ms,
        ).just_finished ==> spec_player_frame(p, v, t, input, delta_ms).0.player_action
            == PlayerAction::Attacking,
        p.player_action == PlayerAction::Attacking && spec_tick(t.timer, delta_ms).just_finished
            ==> spec_player_frame(p, v, t, input, delta_ms).0.player_action == PlayerAction::Idle,
{
}

/// The action/timer invariant: whenever the selected action is
/// `Attacking`, the attack timer has not yet run out.
pub open spec fn attack_action_wf(p: Player, t: AttackTimer) -> bool {
    p.player_action == PlayerAction::Attacking ==> t.timer.elapsed_ms < t.timer.duration_ms
}

/// The initial player state satisfies [`attack_action_wf`], and one whole
/// frame of input processing preserves it: an attack ends (reverting to
/// `Idle`) on exactly the tick that exhausts its timer, so `Attacking`
/// never outlives the timer.
pub proof fn lemma_attack_timer_invariant(
    p: Player,
    v: Velocity,
    t: AttackTimer,
    input: FrameInput,
    delta_ms: u32,
)
    requires
        timer_wf(t.timer),
        attack_action_wf(p, t),
    ensures
        ({
            let s = spec_player_frame(p, v, t, input, delta_ms);
            attack_action_wf(s.0, s.2)
        }),
{
}

/// Bullet motion: each frame of at least one millisecond moves a bullet
/// strictly in its signed-speed direction (at the speeds this library
/// fires bullets with), and a bullet is removed exactly on the frame its
/// lifetime timer reports finished.
pub proof fn lemma_bullet_motion(b: BulletEntity, delta_ms: u32)
    requires
        bullet_frame_wf(b),
        1 <= delta_ms <= 1_000_000,
    ensures
        b.bullet.speed >= 1000 ==> spec_bullet_frame(b, delta_ms).x > b.x,
        b.bullet.speed <= -1000 ==> spec_bullet_frame(b, delta_ms).x < b.x,
        spec_bullet_removed(b) == spec_finished(b.bullet.timer),
{
    let speed = b.bullet.speed as int;
    let delta = delta_ms as int;
    if speed >= 1000 {
        assert(1000 <= speed * delta <= (POS_LIMIT as int) * 1_000_000) by (nonlinear_arith)
            requires
                1000 <= speed <= POS_LIMIT,
                1 <= delta <= 1_000_000,
        ;
        assert(spec_displacement(speed, delta) >= 1);
    }
    if speed <= -1000 {
        assert(1000 <= (-speed) * delta <= (POS_LIMIT as int) * 1_000_000) by (nonlinear_arith)
            requires
                1000 <= -speed <= POS_LIMIT,
                1 <= delta <= 1_000_000,
        ;
        assert(spec_displacement(speed, delta) <= -1);
    }
}

} // verus!
