//! The player entity and its per-frame motion model.
//!
//! Each frame the player turns the held input vector into velocity: a speed
//! boost counter decays, horizontal acceleration with a direction-change
//! kick and a per-frame speed cap, an optional jump, linear deceleration
//! when no horizontal input is held, gravity with a fall-speed clamp, and a
//! cosmetic animation phase.  The player's screen position never changes
//! during play; the world moves instead.

use vstd::prelude::*;
use crate::geometry::{Rect, RectV};
use crate::units::{
    ACCELERATION, ALPHA_STEP, BOOSTED_MAX_SPEED, CHANGE_DIRECTION_SPEED, DECELERATION,
    HALF_TURN, MAX_FALL_SPEED, MAX_SPEED, MAX_SPEEDUP_COUNT, ROTATION_FACTOR, TILE_SIZE, UP_SPEED,
    in_coord_range, spec_shift,
};

verus! {

/// The held input vector: each component is -1, 0 or 1.  `x` points right,
/// `y` up (a positive `y` asks for a jump).
#[derive(Clone, Copy, PartialEq, Eq, Structural, Debug)]
pub struct Input {
    pub x: i64,
    pub y: i64,
}

impl Input {
    pub open spec fn wf(self) -> bool {
        &&& -1 <= self.x <= 1
        &&& -1 <= self.y <= 1
    }

    /// The neutral input vector.
    pub fn zero() -> (r: Input)
        ensures
            r.x == 0,
            r.y == 0,
    {
        Input { x: 0, y: 0 }
    }
}

/// The player: a tile-sized square at a fixed screen position, with a
/// velocity, a jump flag, and two cosmetic angles.
#[derive(Clone, Copy, PartialEq, Eq, Structural, Debug)]
pub struct Player {
    pub x: i64,
    pub y: i64,
    pub move_x: i64,
    pub move_y: i64,
    pub jumping: bool,
    pub alpha: i64,
    pub rotation: i64,
    pub speed_up_counter: i64,
}

/// The mathematical value of a player.
pub ghost struct PlayerV {
    pub x: int,
    pub y: int,
    pub move_x: int,
    pub move_y: int,
    pub jumping: bool,
    pub alpha: int,
    pub rotation: int,
    pub speed_up_counter: int,
}

impl View for Player {
    type V = PlayerV;

    open spec fn view(&self) -> PlayerV {
        PlayerV {
            x: self.x as int,
            y: self.y as int,
            move_x: self.move_x as int,
            move_y: self.move_y as int,
            jumping: self.jumping,
            alpha: self.alpha as int,
            rotation: self.rotation as int,
            speed_up_counter: self.speed_up_counter as int,
        }
    }
}

/// One decay step of the speed-boost counter: a running counter (positive)
/// counts up each frame and falls back to zero once it passes the window
/// length; an idle counter (zero) stays idle.
pub open spec fn counter_step(c: int) -> int {
    if c > 0 {
        if c + 1 > MAX_SPEEDUP_COUNT as int {
            0
        } else {
            c + 1
        }
    } else {
        c
    }
}

/// The horizontal speed cap in force for a given boost counter.
pub open spec fn max_speed_for(c: int) -> int {
    if c > 0 {
        BOOSTED_MAX_SPEED as int
    } else {
        MAX_SPEED as int
    }
}

/// One frame of horizontal acceleration.  A held direction accelerates that
/// way, with an extra direction-change kick when the current motion opposes
/// it, and is capped at `max` on the held side.  Without horizontal input
/// the speed decays linearly toward zero and snaps to exactly zero once it
/// falls below one deceleration step.
pub open spec fn accel_step(vx: int, ix: int, max: int) -> int {
    if ix < 0 {
        let kicked = if vx > 0 {
            vx - ACCELERATION as int * CHANGE_DIRECTION_SPEED as int
        } else {
            vx
        };
        let moved = kicked - ACCELERATION as int;
        if moved < -max {
            -max
        } else {
            moved
        }
    } else if ix > 0 {
        let kicked = if vx < 0 {
            vx + ACCELERATION as int * CHANGE_DIRECTION_SPEED as int
        } else {
            vx
        };
        let moved = kicked + ACCELERATION as int;
        if moved > max {
            max
        } else {
            moved
        }
    } else {
        if -(DECELERATION as int) < vx < DECELERATION as int {
            0
        } else if vx > 0 {
            vx - DECELERATION as int
        } else {
            vx + DECELERATION as int
        }
    }
}

/// The vertical speed after the jump check: a grounded player (jump flag
/// clear) with upward input is raised to at least the jump speed; an
/// already higher upward speed is kept.
pub open spec fn jump_vy(vy: int, jumping: bool, iy: int) -> int {
    if !jumping && iy > 0 {
        if vy < UP_SPEED as int {
            UP_SPEED as int
        } else {
            vy
        }
    } else {
        vy
    }
}

/// One frame of gravity: the vertical speed drops by one deceleration step
/// and is clamped at the maximal fall speed.
pub open spec fn gravity_step(vy: int) -> int {
    let v = vy - DECELERATION as int;
    if v < MAX_FALL_SPEED as int {
        MAX_FALL_SPEED as int
    } else {
        v
    }
}

/// One step of the cosmetic animation phase, wrapped at half a turn.
pub open spec fn alpha_step(a: int) -> int {
    let a2 = a + ALPHA_STEP as int;
    if a2 > HALF_TURN as int {
        a2 - HALF_TURN as int
    } else {
        a2
    }
}

/// The rolling-rotation change for a horizontal speed: the speed in units
/// per frame, over half a tile, scaled by the rotation factor.  The scale
/// of hundredths cancels into the divisor of 1600.
pub open spec fn rotation_delta(vx: int) -> int {
    if vx >= 0 {
        (vx * ROTATION_FACTOR as int) / 1600
    } else {
        -(((-vx) * ROTATION_FACTOR as int) / 1600)
    }
}

/// The player after one full input step: boost decay, horizontal
/// acceleration under the cap the decayed counter selects, jump, gravity,
/// and the animation phase.  The jump flag always leaves set; only landing
/// on a platform clears it.
pub open spec fn player_step(p: PlayerV, ix: int, iy: int) -> PlayerV {
    let c = counter_step(p.speed_up_counter);
    PlayerV {
        x: p.x,
        y: p.y,
        move_x: accel_step(p.move_x, ix, max_speed_for(c)),
        move_y: gravity_step(jump_vy(p.move_y, p.jumping, iy)),
        jumping: true,
        alpha: alpha_step(p.alpha),
        rotation: p.rotation,
        speed_up_counter: c,
    }
}

/// The player after the post-collision visual step: the rotation rolls
/// against the final horizontal speed, everything else is kept.
pub open spec fn rotate_step(p: PlayerV) -> PlayerV {
    PlayerV { rotation: spec_shift(p.rotation, -rotation_delta(p.move_x)), ..p }
}

impl PlayerV {
    /// The tile-sized square the player occupies.
    pub open spec fn rect(self) -> RectV {
        RectV { x: self.x, y: self.y, w: TILE_SIZE as int, h: TILE_SIZE as int }
    }

    /// Position and rotation within the coordinate bound, speeds within the
    /// caps the motion model enforces, phase within its wrap range, counter
    /// within the boost window.
    pub open spec fn wf(self) -> bool {
        &&& in_coord_range(self.x)
        &&& in_coord_range(self.y)
        &&& -(BOOSTED_MAX_SPEED as int) <= self.move_x <= BOOSTED_MAX_SPEED as int
        &&& MAX_FALL_SPEED as int <= self.move_y <= UP_SPEED as int
        &&& 0 <= self.alpha <= HALF_TURN as int
        &&& in_coord_range(self.rotation)
        &&& 0 <= self.speed_up_counter <= MAX_SPEEDUP_COUNT as int + 1
    }
}

/// The player after `n` frames of the motion step with no input held.
pub open spec fn coast(p: PlayerV, n: nat) -> PlayerV
    decreases n,
{
    if n == 0 {
        p
    } else {
        coast(player_step(p, 0, 0), (n - 1) as nat)
    }
}

/// The boost counter after `n` further frames of decay.
pub open spec fn counter_iter(c: int, n: nat) -> int
    decreases n,
{
    if n == 0 {
        c
    } else {
        counter_step(counter_iter(c, (n - 1) as nat))
    }
}

/// Law: the motion step preserves well-formedness, whatever input is held.
pub proof fn lemma_step_preserves_wf(p: PlayerV, ix: int, iy: int)
    requires
        p.wf(),
    ensures
        player_step(p, ix, iy).wf(),
{
}

/// Law: with a nonzero horizontal input held, one motion step never leaves
/// the horizontal speed beyond the cap in force, base or boosted.
pub proof fn lemma_speed_capped_under_input(p: PlayerV, ix: int, iy: int)
    requires
        p.wf(),
        ix != 0,
    ensures
        -max_speed_for(player_step(p, ix, iy).speed_up_counter) <= player_step(p, ix, iy).move_x
            <= max_speed_for(player_step(p, ix, iy).speed_up_counter),
{
}

/// Law: after gravity the vertical speed never lies below the fall clamp.
pub proof fn lemma_fall_speed_clamped(p: PlayerV, ix: int, iy: int)
    ensures
        player_step(p, ix, iy).move_y >= MAX_FALL_SPEED as int,
{
}

/// Law: without horizontal input, one motion step moves the horizontal
/// speed toward zero and never past it: no oscillation, no overshoot.
pub proof fn lemma_coasting_step_toward_zero(p: PlayerV, iy: int)
    ensures
        p.move_x >= 0 ==> 0 <= player_step(p, 0, iy).move_x <= p.move_x,
        p.move_x <= 0 ==> p.move_x <= player_step(p, 0, iy).move_x <= 0,
{
}

/// Law: a horizontal speed of exactly zero stays zero while no horizontal
/// input is held.
pub proof fn lemma_coasting_stays_zero(p: PlayerV, iy: int)
    requires
        p.move_x == 0,
    ensures
        player_step(p, 0, iy).move_x == 0,
{
}

/// Law: held at zero input, the horizontal speed reaches exactly zero
/// within one frame per deceleration step of its magnitude.
pub proof fn lemma_coasting_converges(p: PlayerV, n: nat)
    requires
        p.wf(),
        (if p.move_x >= 0 {
            p.move_x
        } else {
            -p.move_x
        }) <= n * DECELERATION as int,
    ensures
        coast(p, n).move_x == 0,
    decreases n,
{
    if n > 0 {
        let q = player_step(p, 0, 0);
        lemma_step_preserves_wf(p, 0, 0);
        assert(n * DECELERATION as int - DECELERATION as int == (n - 1) * DECELERATION as int);
        lemma_coasting_converges(q, (n - 1) as nat);
    }
}

/// Law: a boost window set running at one counts up through each following
/// frame and is back to exactly zero on its 360th following frame — the
/// 361st frame of the window, counting the frame that set it.  The step of
/// that last frame already selects the base speed cap, so the boosted cap
/// is never in force on it.  (`player_step` advances the counter by
/// `counter_step` once per frame and caps the speed by `max_speed_for` of
/// the advanced counter.)
pub proof fn lemma_boost_window(n: nat)
    requires
        n <= MAX_SPEEDUP_COUNT as int,
    ensures
        n < MAX_SPEEDUP_COUNT as int ==> counter_iter(1, n) == n + 1,
        n == MAX_SPEEDUP_COUNT as int ==> counter_iter(1, n) == 0,
        n == MAX_SPEEDUP_COUNT as int ==> max_speed_for(counter_iter(1, n)) == MAX_SPEED as int,
    decreases n,
{
    if n > 0 {
        lemma_boost_window((n - 1) as nat);
    }
}

impl Player {
    /// A player at rest at the given position, with the animation phase at
    /// its starting value of one radian.
    pub fn new(x: i64, y: i64) -> (p: Player)
        requires
            in_coord_range(x as int),
            in_coord_range(y as int),
        ensures
            p@ == (PlayerV {
                x: x as int,
                y: y as int,
                move_x: 0,
                move_y: 0,
                jumping: false,
                alpha: 100,
                rotation: 0,
                speed_up_counter: 0,
            }),
            p@.wf(),
    {
        Player {
            x,
            y,
            move_x: 0,
            move_y: 0,
            jumping: false,
            alpha: 100,
            rotation: 0,
            speed_up_counter: 0,
        }
    }

    /// The tile-sized square the player occupies.
    pub fn rect(&self) -> (r: Rect)
        ensures
            r@ == self@.rect(),
    {
        Rect { x: self.x, y: self.y, w: TILE_SIZE, h: TILE_SIZE }
    }

    /// Applies one frame of the input-driven motion model.
    ///
    /// The horizontal speed never leaves the cap in force, the vertical
    /// speed never falls below the fall clamp, and the jump flag leaves
    /// set: only a landing resolved by vertical collision clears it.
    pub fn update_from_input(&mut self, input_acceleration: Input)
        requires
            old(self)@.wf(),
            input_acceleration.wf(),
        ensures
            final(self)@ == player_step(
                old(self)@,
                input_acceleration.x as int,
                input_acceleration.y as int,
            ),
            final(self)@.wf(),
            input_acceleration.x != 0 ==> -max_speed_for(final(self)@.speed_up_counter)
                <= final(self)@.move_x <= max_speed_for(final(self)@.speed_up_counter),
            final(self)@.move_y >= MAX_FALL_SPEED as int,
    {
        let mut move_left_or_right = false;

        if self.speed_up_counter > 0 {
            self.speed_up_counter = self.speed_up_counter + 1;
            if self.speed_up_counter > MAX_SPEEDUP_COUNT {
                self.speed_up_counter = 0;
            }
        }

        let current_max_speed = if self.speed_up_counter > 0 {
            BOOSTED_MAX_SPEED
        } else {
            MAX_SPEED
        };

        if input_acceleration.x < 0 {
            if self.move_x > 0 {
                self.move_x = self.move_x - ACCELERATION * CHANGE_DIRECTION_SPEED;
            }
            self.move_x = self.move_x - ACCELERATION;
            if self.move_x < -current_max_speed {
                self.move_x = -current_max_speed;
            }
            move_left_or_right = true;
        } else if input_acceleration.x > 0 {
            if self.move_x < 0 {
                self.move_x = self.move_x + ACCELERATION * CHANGE_DIRECTION_SPEED;
            }
            self.move_x = self.move_x + ACCELERATION;
            if self.move_x > current_max_speed {
                self.move_x = current_max_speed;
            }
            move_left_or_right = true;
        }

        if !self.jumping && input_acceleration.y > 0 {
            if self.move_y < UP_SPEED {
                self.move_y = UP_SPEED;
            }
            self.jumping = true;
        }

        if !move_left_or_right {
            if -DECELERATION < self.move_x && self.move_x < DECELERATION {
                self.move_x = 0;
            } else if self.move_x > 0 {
                self.move_x = self.move_x - DECELERATION;
            } else {
                self.move_x = self.move_x + DECELERATION;
            }
        }

        self.move_y = self.move_y - DECELERATION;
        if self.move_y < MAX_FALL_SPEED {
            self.move_y = MAX_FALL_SPEED;
        }
        self.jumping = true;

        self.alpha = self.alpha + ALPHA_STEP;
        if self.alpha > HALF_TURN {
            self.alpha = self.alpha - HALF_TURN;
        }
    }

    /// Applies the once-per-frame visual "rolling ball" tilt against the
    /// horizontal speed that survived collision resolution.
    pub fn update_after_collision(&mut self)
        requires
            old(self)@.wf(),
        ensures
            final(self)@ == rotate_step(old(self)@),
            final(self)@.wf(),
    {
        let magnitude = if self.move_x >= 0 {
            self.move_x
        } else {
            -self.move_x
        };
        proof {
            assert(0 <= magnitude as int <= BOOSTED_MAX_SPEED as int);
        }
        // The literal 55 is ROTATION_FACTOR, written out so the product
        // stays linear for the overflow check.
        let scaled = magnitude as u64 * 55;
        let tilt = (scaled / 1600) as i64;
        if self.move_x >= 0 {
            self.rotation = crate::units::shift_saturating(self.rotation, -tilt);
        } else {
            self.rotation = crate::units::shift_saturating(self.rotation, tilt);
        }
    }
}

} // verus!
