//! The composition root: one grid and one player, advanced together once
//! per simulation tick, answering the host's draw queries.

use vstd::prelude::*;
use crate::grid::{GridError, TileGrid, TileRecord, MAX_DIM, MAX_TILE_SIZE, SCROLL_MIN};
use crate::grid::{grid_rows, rolls_needed, visible_records};
use crate::player::{Player, Vec2};
use crate::player::{
    grounded_after, pos_x_after, pos_y_after, vel_x_after, vel_y_after, MAX_COORD, MAX_DT,
    PLAYER_WIDTH,
};
use crate::rng::RollSource;

verus! {

/// Largest scroll intent a tick accepts, in micro-units (2^48); far beyond
/// any grid, it only keeps the offset arithmetic representable.
pub const MAX_SCROLL_STEP: i64 = 0x1_0000_0000_0000;

/// The scroll offset a tick leaves: a positive intent scrolls up, clamped
/// at the top anchor; a negative intent scrolls down, skipped only if it
/// would leave the representable range; zero intent leaves it alone.
pub open spec fn scrolled_offset(off: int, intent: int) -> int {
    if intent > 0 {
        if off + intent > 0 {
            0
        } else {
            off + intent
        }
    } else if intent < 0 && off + intent >= SCROLL_MIN {
        off + intent
    } else {
        off
    }
}

/// The world: exactly one grid and one player, plus the world bounds the
/// integrator collides against. The floor plane lies at the bottom edge of
/// the grid and the width spans all its columns.
pub struct World {
    pub grid: TileGrid,
    pub player: Player,
    pub world_width: i64,
    pub floor_y: i64,
}

impl World {
    /// Well-formedness of both owned components and of the bounds.
    pub open spec fn wf(self) -> bool {
        &&& self.grid.wf()
        &&& self.player.wf()
        &&& PLAYER_WIDTH <= self.world_width <= MAX_COORD
        &&& 0 <= self.floor_y <= MAX_COORD
    }

    /// Build a world: generate the grid from `source` and spawn the player
    /// grounded on the floor plane, horizontally at the middle column.
    /// Zero dimensions are rejected, exactly as in grid generation.
    pub fn new<S: RollSource>(
        width: usize,
        height: usize,
        tile_size: i64,
        source: &mut S,
    ) -> (result: Result<World, GridError>)
        requires
            width <= MAX_DIM,
            height <= MAX_DIM,
            0 < tile_size <= MAX_TILE_SIZE,
            PLAYER_WIDTH <= (width as int) * tile_size,
            old(source).stream().len() >= rolls_needed(width as int, height as int),
        ensures
            result is Err <==> width == 0 || height == 0,
            result matches Err(e) ==> e == GridError::InvalidDimensions,
            result matches Ok(world) ==> {
                &&& world.wf()
                &&& world.grid.tiles() == grid_rows(
                    width as int,
                    height as int,
                    old(source).stream(),
                )
                &&& world.grid.height() == height
                &&& world.grid.width() == width
                &&& world.grid.tile_size == tile_size
                &&& world.grid.scroll_offset == 0
                &&& world.world_width == (width as int) * tile_size
                &&& world.floor_y == (height as int) * tile_size
                &&& world.player.position.x == ((width / 2) as int) * tile_size
                &&& world.player.position.y == world.floor_y
                &&& world.player.velocity == (Vec2 { x: 0, y: 0 })
                &&& world.player.grounded
            },
            final(source).stream() == old(source).stream().skip(
                rolls_needed(width as int, height as int),
            ),
    {
        proof {
            assert(0 <= (width as int) * tile_size <= 0x4000_0000_0000) by (nonlinear_arith)
                requires
                    0 <= width <= 65536,
                    0 < tile_size <= 0x4000_0000,
            ;
            assert(0 <= (height as int) * tile_size <= 0x4000_0000_0000) by (nonlinear_arith)
                requires
                    0 <= height <= 65536,
                    0 < tile_size <= 0x4000_0000,
            ;
            assert(0 <= ((width / 2) as int) * tile_size <= (width as int) * tile_size)
                by (nonlinear_arith)
                requires
                    0 <= width,
                    0 < tile_size,
                    0 <= (width / 2) as int <= width as int,
            ;
        }
        let grid = match TileGrid::generate(width, height, tile_size, source) {
            Ok(grid) => grid,
            Err(e) => {
                return Err(e);
            },
        };
        let world_width = (width as i64) * tile_size;
        let floor_y = (height as i64) * tile_size;
        let spawn_x = ((width / 2) as i64) * tile_size;
        let player = Player::new(spawn_x, floor_y);
        Ok(World { grid, player, world_width, floor_y })
    }

    /// One simulation tick: integrate the player against this world's
    /// bounds, apply any scroll intent to the grid, and hand back a
    /// snapshot for drawing — the player pose and every visible tile.
    pub fn tick(
        &mut self,
        dt: i64,
        horizontal_intent: i64,
        jump_requested: bool,
        scroll_intent: i64,
    ) -> (snapshot: (Player, Vec<TileRecord>))
        requires
            old(self).wf(),
            0 <= dt <= MAX_DT,
            -1 <= horizontal_intent <= 1,
            -MAX_SCROLL_STEP <= scroll_intent <= MAX_SCROLL_STEP,
        ensures
            final(self).wf(),
            final(self).player.velocity.x == vel_x_after(horizontal_intent as int),
            final(self).player.velocity.y == vel_y_after(
                old(self).player,
                dt as int,
                jump_requested,
                old(self).floor_y as int,
            ),
            final(self).player.position.x == pos_x_after(
                old(self).player,
                dt as int,
                horizontal_intent as int,
                old(self).world_width as int,
            ),
            final(self).player.position.y == pos_y_after(
                old(self).player,
                dt as int,
                jump_requested,
                old(self).floor_y as int,
            ),
            final(self).player.grounded == grounded_after(
                old(self).player,
                dt as int,
                jump_requested,
                old(self).floor_y as int,
            ),
            final(self).grid.rows == old(self).grid.rows,
            final(self).grid.tile_size == old(self).grid.tile_size,
            final(self).grid.scroll_offset == scrolled_offset(
                old(self).grid.scroll_offset as int,
                scroll_intent as int,
            ),
            final(self).world_width == old(self).world_width,
            final(self).floor_y == old(self).floor_y,
            snapshot.0 == final(self).player,
            snapshot.1@ == visible_records(final(self).grid),
    {
        self.player.update(dt, horizontal_intent, jump_requested, self.world_width, self.floor_y);
        if scroll_intent > 0 {
            self.grid.scroll_up(scroll_intent);
        } else if scroll_intent < 0 {
            let step = -scroll_intent;
            if self.grid.scroll_offset - step >= SCROLL_MIN {
                self.grid.scroll_down(step);
            }
        }
        let records = self.grid.visible_tiles();
        (self.player, records)
    }
}

} // verus!
