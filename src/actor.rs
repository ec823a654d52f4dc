use crate::cycle::{next_index, AnimationCycle};
use crate::dust::{fresh_dust, spawn_dust, Dust};
use crate::hair::lemma_div_step;
use crate::geometry::{flip_for, flipped, Facing, Position, Sprite, Velocity};
use crate::timer::{tick_result, FrameTimer};
use vstd::prelude::*;

verus! {

/// Speeds below this (0.1 unit/s) count as standing still on that axis.
pub const MOVE_THRESHOLD: i64 = 100;

/// Horizontal speed while a move key is held.
pub const RUN_SPEED: i64 = 50_000;

/// Vertical speed given by a jump.
pub const JUMP_SPEED: i64 = 300_000;

/// Horizontal speed while dashing.
pub const DASH_SPEED: i64 = 200_000;

/// Sprite-sheet frame shown while standing.
pub const STAND_FRAME: usize = 1;

/// Sprite-sheet frame shown while in the air.
pub const JUMP_FRAME: usize = 3;

/// Time each running picture stays on screen.
pub const RUN_FRAME_INTERVAL_NS: u64 = 100_000_000;

/// Least time between two dust puffs while a dash is held.
pub const DUST_COOLDOWN_NS: u64 = 20_000_000;

/// Which of the character's logical keys are held this frame.
#[derive(Clone, Copy, Debug, PartialEq, Eq, Structural)]
pub struct InputState {
    pub left: bool,
    pub right: bool,
    pub jump: bool,
    pub dash: bool,
}

/// The controllable character.
pub struct Actor {
    /// The handle the world knows the character by.
    pub id: u64,
    pub position: Position,
    pub velocity: Velocity,
    pub facing: Facing,
    pub sprite: Sprite,
    /// Paces the running pictures.
    pub timer: FrameTimer,
    /// The running pictures.
    pub indices: AnimationCycle,
}

impl Actor {
    pub open spec fn wf(&self) -> bool {
        self.timer.wf() && self.indices.wf()
    }
}

/// The running pictures of a fresh character, as sprite-sheet frames.
pub open spec fn run_frames() -> Seq<usize> {
    seq![1usize, 2, 3, 4]
}

/// Makes the character at `player_pos`, standing, facing right, at rest,
/// with its running cycle on its first picture.
pub fn spawn_player(id: u64, player_pos: Position) -> (a: Actor)
    ensures
        a.wf(),
        a.id == id,
        a.position == player_pos,
        a.velocity == (Velocity { x: 0, y: 0 }),
        a.facing == Facing::Right,
        a.sprite == (Sprite { index: STAND_FRAME, flip_x: false }),
        a.timer == FrameTimer::new_spec(RUN_FRAME_INTERVAL_NS),
        a.indices.index == 0,
        a.indices.sprite_indices@ == run_frames(),
{
    let frames: Vec<usize> = vec![1, 2, 3, 4];
    assert(frames@ == run_frames());
    Actor {
        id,
        position: player_pos,
        velocity: Velocity::zero(),
        facing: Facing::Right,
        sprite: Sprite { index: STAND_FRAME, flip_x: false },
        timer: FrameTimer::new(RUN_FRAME_INTERVAL_NS),
        indices: AnimationCycle::new(frames),
    }
}

/// The horizontal speed and facing that the move keys give: left wins over
/// right, and with neither held the character stops and keeps its facing.
pub open spec fn run_result(keys: InputState, vx: i64, facing: Facing) -> (i64, Facing) {
    if keys.left {
        ((-RUN_SPEED) as i64, Facing::Left)
    } else if keys.right {
        (RUN_SPEED, Facing::Right)
    } else {
        (0, facing)
    }
}

/// Sets the horizontal speed and facing from the move keys.
pub fn player_run(keys: &InputState, actor: &mut Actor)
    ensures
        (final(actor).velocity.x, final(actor).facing) == run_result(
            *keys,
            old(actor).velocity.x,
            old(actor).facing,
        ),
        final(actor).velocity.y == old(actor).velocity.y,
        final(actor).id == old(actor).id,
        final(actor).position == old(actor).position,
        final(actor).sprite == old(actor).sprite,
        final(actor).timer == old(actor).timer,
        final(actor).indices == old(actor).indices,
{
    if keys.left {
        actor.velocity.x = -RUN_SPEED;
        actor.facing = Facing::Left;
    } else if keys.right {
        actor.velocity.x = RUN_SPEED;
        actor.facing = Facing::Right;
    } else {
        actor.velocity.x = 0;
    }
}

/// Whether a speed counts as still on its axis.
pub open spec fn is_still(v: i64) -> bool {
    -MOVE_THRESHOLD < v < MOVE_THRESHOLD
}

/// Whether a speed counts as moving on its axis.
pub open spec fn is_moving(v: i64) -> bool {
    v > MOVE_THRESHOLD || v < -MOVE_THRESHOLD
}

/// Starts a jump when the jump key is held and the character is not already
/// moving vertically: the velocity becomes straight up.
pub fn player_jump(keys: &InputState, actor: &mut Actor)
    ensures
        final(actor).velocity == (if keys.jump && is_still(old(actor).velocity.y) {
            Velocity { x: 0, y: JUMP_SPEED }
        } else {
            old(actor).velocity
        }),
        final(actor).id == old(actor).id,
        final(actor).position == old(actor).position,
        final(actor).facing == old(actor).facing,
        final(actor).sprite == old(actor).sprite,
        final(actor).timer == old(actor).timer,
        final(actor).indices == old(actor).indices,
{
    if keys.jump && -MOVE_THRESHOLD < actor.velocity.y && actor.velocity.y < MOVE_THRESHOLD {
        actor.velocity = Velocity { x: 0, y: JUMP_SPEED };
    }
}

/// Time left before the next dust puff of a dash may appear.
#[derive(Clone, Copy, Debug, PartialEq, Eq, Structural)]
pub struct DashThrottle {
    pub cooldown_ns: u64,
}

impl DashThrottle {
    /// A throttle that lets the first dashing frame make a puff at once.
    pub fn new() -> (t: DashThrottle)
        ensures
            t.cooldown_ns == 0,
    {
        DashThrottle { cooldown_ns: 0 }
    }
}

/// One dashing frame of the throttle: a running countdown first drops by the
/// time passed (not below zero); once it is at zero a puff is made and the
/// countdown starts again. Returns the new countdown and whether a puff is made.
pub open spec fn throttle_step(cooldown_ns: nat, delta_ns: nat) -> (nat, bool) {
    let c = if cooldown_ns > 0 {
        if cooldown_ns > delta_ns {
            (cooldown_ns - delta_ns) as nat
        } else {
            0
        }
    } else {
        0
    };
    if c == 0 {
        (DUST_COOLDOWN_NS as nat, true)
    } else {
        (c, false)
    }
}

/// `frames` dashing frames in a row, each `delta_ns` long, from a countdown
/// of `cooldown_ns`: the countdown left and the number of puffs made.
pub open spec fn throttle_run(cooldown_ns: nat, delta_ns: nat, frames: nat) -> (nat, nat)
    decreases frames,
{
    if frames == 0 {
        (cooldown_ns, 0)
    } else {
        let before = throttle_run(cooldown_ns, delta_ns, (frames - 1) as nat);
        let step = throttle_step(before.0, delta_ns);
        (step.0, before.1 + if step.1 {
            1nat
        } else {
            0nat
        })
    }
}

/// Where a held dash stands after its first `t + 1` frames, when each frame
/// is a whole fraction `delta_ns` of the cooldown.
proof fn lemma_throttle_state(delta_ns: nat, m: nat, t: nat)
    requires
        delta_ns > 0,
        m > 0,
        m * delta_ns == DUST_COOLDOWN_NS,
    ensures
        throttle_run(0, delta_ns, t + 1) == (
            (DUST_COOLDOWN_NS - (t % m) * delta_ns) as nat,
            t / m + 1,
        ),
        (t % m) * delta_ns < DUST_COOLDOWN_NS,
    decreases t,
{
    let c = DUST_COOLDOWN_NS as nat;
    if t == 0 {
        assert(throttle_run(0, delta_ns, 0) == (0nat, 0nat));
        assert(0nat % m == 0 && 0nat / m == 0) by (nonlinear_arith)
            requires
                m > 0,
        ;
    } else {
        let p = (t - 1) as nat;
        lemma_throttle_state(delta_ns, m, p);
        lemma_div_step(p, m);
        let r = p % m;
        vstd::arithmetic::div_mod::lemma_mod_bound(p as int, m as int);
        if r + 1 < m {
            assert((r + 1) * delta_ns < c) by (nonlinear_arith)
                requires
                    r + 1 < m,
                    m * delta_ns == c,
                    delta_ns > 0,
            ;
            assert(r * delta_ns + delta_ns == (r + 1) * delta_ns) by (nonlinear_arith);
        } else {
            assert(r * delta_ns + delta_ns == c) by (nonlinear_arith)
                requires
                    r + 1 == m,
                    m * delta_ns == c,
            ;
        }
        assert(0 * delta_ns == 0);
    }
}

/// Holding the dash for `frames + 1` frames of `delta_ns` each, where
/// `delta_ns` divides the cooldown evenly, starting from a rested throttle,
/// makes one puff at once and one more per whole cooldown in the
/// `frames * delta_ns` that follow.
pub proof fn lemma_dust_throttle_count(delta_ns: nat, frames: nat)
    requires
        delta_ns > 0,
        DUST_COOLDOWN_NS as nat % delta_ns == 0,
    ensures
        throttle_run(0, delta_ns, frames + 1).1 == (frames * delta_ns) / (DUST_COOLDOWN_NS as nat)
            + 1,
{
    let c = DUST_COOLDOWN_NS as nat;
    let m = c / delta_ns;
    vstd::arithmetic::div_mod::lemma_fundamental_div_mod(c as int, delta_ns as int);
    assert(m * delta_ns == c) by (nonlinear_arith)
        requires
            c == delta_ns * m + 0,
    ;
    assert(m > 0) by (nonlinear_arith)
        requires
            m * delta_ns == c,
            c > 0,
    ;
    lemma_throttle_state(delta_ns, m, frames);
    let q = frames / m;
    let r = frames % m;
    vstd::arithmetic::div_mod::lemma_fundamental_div_mod(frames as int, m as int);
    vstd::arithmetic::div_mod::lemma_mod_bound(frames as int, m as int);
    assert(frames * delta_ns == q * c + r * delta_ns && r * delta_ns < c) by (nonlinear_arith)
        requires
            frames == m * q + r,
            r < m,
            m * delta_ns == c,
            delta_ns > 0,
    ;
    vstd::arithmetic::div_mod::lemma_fundamental_div_mod_converse(
        (frames * delta_ns) as int,
        c as int,
        q as int,
        (r * delta_ns) as int,
    );
}

/// The dash velocity for a facing.
pub open spec fn dash_velocity(facing: Facing) -> Velocity {
    match facing {
        Facing::Left => Velocity { x: (-DASH_SPEED) as i64, y: 0 },
        Facing::Right => Velocity { x: DASH_SPEED, y: 0 },
    }
}

/// While the dash key is held, drives the character horizontally at dash
/// speed the way it faces and, as the throttle allows, returns a new dust puff
/// at its position. With the key up nothing changes.
pub fn player_dash(
    keys: &InputState,
    actor: &mut Actor,
    throttle: &mut DashThrottle,
    delta_ns: u64,
) -> (dust: Option<Dust>)
    ensures
        keys.dash ==> final(actor).velocity == dash_velocity(old(actor).facing),
        !keys.dash ==> final(actor).velocity == old(actor).velocity,
        keys.dash ==> (final(throttle).cooldown_ns as nat, (dust is Some)) == throttle_step(
            old(throttle).cooldown_ns as nat,
            delta_ns as nat,
        ),
        !keys.dash ==> *final(throttle) == *old(throttle) && (dust is None),
        (dust is Some) ==> dust->Some_0 == fresh_dust(old(actor).position),
        final(actor).id == old(actor).id,
        final(actor).position == old(actor).position,
        final(actor).facing == old(actor).facing,
        final(actor).sprite == old(actor).sprite,
        final(actor).timer == old(actor).timer,
        final(actor).indices == old(actor).indices,
{
    if !keys.dash {
        return None;
    }
    match actor.facing {
        Facing::Left => {
            actor.velocity = Velocity { x: -DASH_SPEED, y: 0 };
        },
        Facing::Right => {
            actor.velocity = Velocity { x: DASH_SPEED, y: 0 };
        },
    }
    if throttle.cooldown_ns > 0 {
        throttle.cooldown_ns = throttle.cooldown_ns.saturating_sub(delta_ns);
    }
    if throttle.cooldown_ns == 0 {
        throttle.cooldown_ns = DUST_COOLDOWN_NS;
        Some(spawn_dust(actor.position))
    } else {
        None
    }
}

// The three animation steps below are independent checks, not one state
// machine: when more than one applies in a frame, the one run last decides
// the sprite. Running is gated on the move keys, not on velocity.

/// The sprite a frame of running leaves: with a move key held and the
/// running timer run out, the next running picture, mirrored as the facing
/// asks; otherwise the sprite as it was.
pub fn animate_run(keys: &InputState, actor: &mut Actor, delta_ns: u64)
    requires
        old(actor).wf(),
        old(actor).timer.can_tick(delta_ns),
    ensures
        final(actor).wf(),
        !(keys.left || keys.right) ==> final(actor).timer == old(actor).timer
            && final(actor).indices == old(actor).indices && final(actor).sprite == old(
            actor
        ).sprite,
        (keys.left || keys.right) ==> {
            let t = tick_result(
                old(actor).timer.interval_ns as nat,
                old(actor).timer.elapsed_ns as nat,
                delta_ns as nat,
            );
            &&& final(actor).timer.interval_ns == old(actor).timer.interval_ns
            &&& final(actor).timer.elapsed_ns == t.0
            &&& final(actor).timer.finished_this_tick == t.1
            &&& final(actor).indices.sprite_indices@ == old(actor).indices.sprite_indices@
            &&& if t.1 > 0 {
                &&& final(actor).indices.index == next_index(
                    old(actor).indices.sprite_indices@.len(),
                    old(actor).indices.index as nat,
                )
                &&& final(actor).sprite == (Sprite {
                    index: final(actor).indices.frame(),
                    flip_x: flipped(old(actor).facing),
                })
            } else {
                &&& final(actor).indices == old(actor).indices
                &&& final(actor).sprite == old(actor).sprite
            }
        },
        final(actor).id == old(actor).id,
        final(actor).position == old(actor).position,
        final(actor).velocity == old(actor).velocity,
        final(actor).facing == old(actor).facing,
{
    if keys.left || keys.right {
        actor.timer.tick(delta_ns);
        if actor.timer.just_finished() {
            let frame = actor.indices.advance();
            actor.sprite = Sprite { index: frame, flip_x: flip_for(actor.facing) };
        }
    }
}

/// While the character moves vertically, shows the jumping picture mirrored
/// as the facing asks; otherwise leaves the sprite as it was.
pub fn animate_jump(actor: &mut Actor)
    ensures
        final(actor).sprite == (if is_moving(old(actor).velocity.y) {
            Sprite { index: JUMP_FRAME, flip_x: flipped(old(actor).facing) }
        } else {
            old(actor).sprite
        }),
        final(actor).id == old(actor).id,
        final(actor).position == old(actor).position,
        final(actor).velocity == old(actor).velocity,
        final(actor).facing == old(actor).facing,
        final(actor).timer == old(actor).timer,
        final(actor).indices == old(actor).indices,
{
    if actor.velocity.y > MOVE_THRESHOLD || actor.velocity.y < -MOVE_THRESHOLD {
        actor.sprite = Sprite { index: JUMP_FRAME, flip_x: flip_for(actor.facing) };
    }
}

/// While the character is still on both axes, shows the standing picture
/// mirrored as the facing asks; otherwise leaves the sprite as it was.
pub fn animate_stand(actor: &mut Actor)
    ensures
        final(actor).sprite == (if is_still(old(actor).velocity.x) && is_still(
            old(actor).velocity.y,
        ) {
            Sprite { index: STAND_FRAME, flip_x: flipped(old(actor).facing) }
        } else {
            old(actor).sprite
        }),
        final(actor).id == old(actor).id,
        final(actor).position == old(actor).position,
        final(actor).velocity == old(actor).velocity,
        final(actor).facing == old(actor).facing,
        final(actor).timer == old(actor).timer,
        final(actor).indices == old(actor).indices,
{
    if -MOVE_THRESHOLD < actor.velocity.x && actor.velocity.x < MOVE_THRESHOLD
        && -MOVE_THRESHOLD < actor.velocity.y && actor.velocity.y < MOVE_THRESHOLD {
        actor.sprite = Sprite { index: STAND_FRAME, flip_x: flip_for(actor.facing) };
    }
}

} // verus!
