//! The player: pose, velocity and grounded flag, integrated each tick from
//! movement intent and gravity, with floor collision and horizontal
//! clamping.
//!
//! The jump impulse and gravity constants are this module's documented
//! choice: a jump sets the vertical velocity to `JUMP_SPEED` upward, gravity
//! adds `GRAVITY` per millisecond while airborne, and falling speed is
//! capped at `TERMINAL_SPEED`. The bedrock cap at the world's top also
//! bounds upward motion: the vertical position is clamped at zero.

use vstd::prelude::*;

verus! {

/// Horizontal speed while a movement intent is held: 200 units per second,
/// stored in milli-units per second.
pub const PLAYER_SPEED: i64 = 200_000;

/// Velocity gained per millisecond of falling, in milli-units per second;
/// equivalently 500 units per second squared.
pub const GRAVITY: i64 = 500;

/// Upward velocity of a jump impulse, in milli-units per second.
pub const JUMP_SPEED: i64 = 250_000;

/// Largest downward velocity, in milli-units per second.
pub const TERMINAL_SPEED: i64 = 500_000;

/// The player's width in micro-units: one world unit.
pub const PLAYER_WIDTH: i64 = 1_000_000;

/// Largest coordinate the world model accepts, in micro-units (2^50).
pub const MAX_COORD: i64 = 0x4_0000_0000_0000;

/// Largest accepted time step, in milliseconds (2^32), so that integration
/// stays representable.
pub const MAX_DT: i64 = 0x1_0000_0000;

/// A 2D point or vector in the fixed-point world coordinates.
#[derive(Copy, Clone, PartialEq, Eq, Structural, Debug)]
pub struct Vec2 {
    pub x: i64,
    pub y: i64,
}

/// The player's pose. `grounded` means the player rests on the floor plane
/// with zero vertical velocity.
#[derive(Copy, Clone, PartialEq, Eq, Structural, Debug)]
pub struct Player {
    pub position: Vec2,
    pub velocity: Vec2,
    pub grounded: bool,
}

/// The horizontal velocity an intent stands for: intent fully overrides the
/// previous horizontal velocity, with no acceleration or friction.
pub open spec fn vel_x_after(intent: int) -> int {
    intent * PLAYER_SPEED
}

/// Vertical velocity after the jump and gravity step: a grounded player who
/// jumps gets the upward impulse, a grounded player otherwise keeps its
/// velocity, and an airborne player gains gravity, capped at terminal
/// speed.
pub open spec fn vel_y_mid(p: Player, dt: int, jump: bool) -> int {
    if p.grounded && jump {
        -JUMP_SPEED as int
    } else if p.grounded {
        p.velocity.y as int
    } else {
        let risen = p.velocity.y + GRAVITY * dt;
        if risen > TERMINAL_SPEED {
            TERMINAL_SPEED as int
        } else {
            risen
        }
    }
}

/// Horizontal position after Euler integration, before clamping.
pub open spec fn pos_x_raw(p: Player, dt: int, intent: int) -> int {
    p.position.x + vel_x_after(intent) * dt
}

/// Vertical position after Euler integration, before collision.
pub open spec fn pos_y_raw(p: Player, dt: int, jump: bool) -> int {
    p.position.y + vel_y_mid(p, dt, jump) * dt
}

/// Horizontal position after the clamp to the world's width.
pub open spec fn pos_x_after(p: Player, dt: int, intent: int, world_width: int) -> int {
    let x = pos_x_raw(p, dt, intent);
    if x < 0 {
        0
    } else if x > world_width - PLAYER_WIDTH {
        world_width - PLAYER_WIDTH
    } else {
        x
    }
}

/// Vertical position after collision: snapped up to the floor plane, and
/// held below the bedrock cap at zero.
pub open spec fn pos_y_after(p: Player, dt: int, jump: bool, floor_y: int) -> int {
    let y = pos_y_raw(p, dt, jump);
    if y > floor_y {
        floor_y
    } else if y < 0 {
        0
    } else {
        y
    }
}

/// Vertical velocity after collision: zeroed by hitting the floor or the
/// cap, otherwise the integrated velocity.
pub open spec fn vel_y_after(p: Player, dt: int, jump: bool, floor_y: int) -> int {
    let y = pos_y_raw(p, dt, jump);
    if y > floor_y || y < 0 {
        0
    } else {
        vel_y_mid(p, dt, jump)
    }
}

/// Grounded flag after collision: set by landing on the floor, cleared by a
/// jump, otherwise unchanged.
pub open spec fn grounded_after(p: Player, dt: int, jump: bool, floor_y: int) -> bool {
    if pos_y_raw(p, dt, jump) > floor_y {
        true
    } else {
        p.grounded && !jump
    }
}

impl Player {
    /// Well-formedness: the pose lies in the representable world square and
    /// the velocity within the speeds the integrator can produce.
    pub open spec fn wf(self) -> bool {
        &&& 0 <= self.position.x <= MAX_COORD
        &&& 0 <= self.position.y <= MAX_COORD
        &&& -PLAYER_SPEED <= self.velocity.x <= PLAYER_SPEED
        &&& -JUMP_SPEED <= self.velocity.y <= TERMINAL_SPEED
    }

    /// A player spawned at rest on the given point, grounded.
    pub fn new(x: i64, y: i64) -> (player: Player)
        requires
            0 <= x <= MAX_COORD,
            0 <= y <= MAX_COORD,
        ensures
            player.position == (Vec2 { x, y }),
            player.velocity == (Vec2 { x: 0, y: 0 }),
            player.grounded,
            player.wf(),
    {
        Player { position: Vec2 { x, y }, velocity: Vec2 { x: 0, y: 0 }, grounded: true }
    }

    /// One simulation tick: horizontal velocity from intent, jump and
    /// gravity, Euler integration, floor and cap collision, horizontal
    /// clamp. A `dt` of zero is a no-op; a negative `dt` or an intent
    /// outside [-1, 1] is a precondition violation, not silently clamped.
    pub fn update(
        &mut self,
        dt: i64,
        horizontal_intent: i64,
        jump_requested: bool,
        world_width: i64,
        floor_y: i64,
    )
        requires
            old(self).wf(),
            0 <= dt <= MAX_DT,
            -1 <= horizontal_intent <= 1,
            PLAYER_WIDTH <= world_width <= MAX_COORD,
            0 <= floor_y <= MAX_COORD,
        ensures
            final(self).velocity.x == vel_x_after(horizontal_intent as int),
            final(self).velocity.y == vel_y_after(
                *old(self),
                dt as int,
                jump_requested,
                floor_y as int,
            ),
            final(self).position.x == pos_x_after(
                *old(self),
                dt as int,
                horizontal_intent as int,
                world_width as int,
            ),
            final(self).position.y == pos_y_after(
                *old(self),
                dt as int,
                jump_requested,
                floor_y as int,
            ),
            final(self).grounded == grounded_after(
                *old(self),
                dt as int,
                jump_requested,
                floor_y as int,
            ),
            0 <= final(self).position.x <= world_width - PLAYER_WIDTH,
            0 <= final(self).position.y <= floor_y,
            final(self).wf(),
    {
        proof {
            assert(-PLAYER_SPEED <= horizontal_intent * PLAYER_SPEED <= PLAYER_SPEED)
                by (nonlinear_arith)
                requires
                    -1 <= horizontal_intent <= 1,
            ;
        }
        self.velocity.x = horizontal_intent * PLAYER_SPEED;
        if self.grounded && jump_requested {
            self.grounded = false;
            self.velocity.y = -JUMP_SPEED;
        } else if !self.grounded {
            let risen = self.velocity.y + GRAVITY * dt;
            self.velocity.y = if risen > TERMINAL_SPEED {
                TERMINAL_SPEED
            } else {
                risen
            };
        }
        proof {
            assert(-PLAYER_SPEED * MAX_DT <= self.velocity.x * dt <= PLAYER_SPEED * MAX_DT)
                by (nonlinear_arith)
                requires
                    -PLAYER_SPEED <= self.velocity.x <= PLAYER_SPEED,
                    0 <= dt <= MAX_DT,
            ;
            assert(-TERMINAL_SPEED * MAX_DT <= self.velocity.y * dt <= TERMINAL_SPEED * MAX_DT)
                by (nonlinear_arith)
                requires
                    -TERMINAL_SPEED <= self.velocity.y <= TERMINAL_SPEED,
                    0 <= dt <= MAX_DT,
            ;
        }
        self.position.x = self.position.x + self.velocity.x * dt;
        self.position.y = self.position.y + self.velocity.y * dt;
        if self.position.y > floor_y {
            self.position.y = floor_y;
            self.velocity.y = 0;
            self.grounded = true;
        } else if self.position.y < 0 {
            self.position.y = 0;
            self.velocity.y = 0;
        }
        if self.position.x < 0 {
            self.position.x = 0;
        } else if self.position.x > world_width - PLAYER_WIDTH {
            self.position.x = world_width - PLAYER_WIDTH;
        }
    }
}

/// Law: a player resting exactly on the floor, with zero velocity, no
/// horizontal intent and no jump request, is a fixed point of the
/// integrator — any number of consecutive ticks leaves the whole pose and
/// the grounded flag unchanged.
pub proof fn lemma_resting_fixed_point(p: Player, dt: int, world_width: int, floor_y: int)
    requires
        p.wf(),
        0 <= dt <= MAX_DT,
        PLAYER_WIDTH <= world_width <= MAX_COORD,
        0 <= floor_y <= MAX_COORD,
        p.grounded,
        p.position.y == floor_y,
        p.velocity.y == 0,
        0 <= p.position.x <= world_width - PLAYER_WIDTH,
    ensures
        vel_x_after(0) == 0,
        vel_y_after(p, dt, false, floor_y) == 0,
        pos_x_after(p, dt, 0, world_width) == p.position.x,
        pos_y_after(p, dt, false, floor_y) == floor_y,
        grounded_after(p, dt, false, floor_y),
{
    assert(vel_y_mid(p, dt, false) == 0);
    assert(vel_y_mid(p, dt, false) * dt == 0) by (nonlinear_arith)
        requires
            vel_y_mid(p, dt, false) == 0,
    ;
    assert(vel_x_after(0) * dt == 0) by (nonlinear_arith)
        requires
            vel_x_after(0) == 0,
    ;
}

} // verus!
