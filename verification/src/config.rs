//! The simulation's configuration: arena bounds, wall thickness, entity
//! half-extents, speeds, paddings, formation gaps and counts, and the
//! interior movement bounds computed from them.

use vstd::prelude::*;

use crate::geom::Vec2i;
use crate::LAYOUT_LIMIT;
use crate::SIZE_LIMIT;
use crate::SPEED_LIMIT;

verus! {

/// A configuration the layout cannot place: the usable width or height
/// left for the enemy grid is non-positive. Fatal at setup.
#[derive(Clone, Copy, PartialEq, Eq, Structural, Debug)]
pub enum ConfigError {
    GridWidthNonPositive,
    GridHeightNonPositive,
}

/// Everything the simulation is parameterized over. Coordinates are in
/// integer world units; `_half` fields are rectangle half-extents.
#[derive(Clone, Copy, Debug)]
pub struct Config {
    /// x coordinate of the left wall's center.
    pub left_wall: i64,
    /// x coordinate of the right wall's center.
    pub right_wall: i64,
    /// y coordinate of the bottom wall's center.
    pub bottom_wall: i64,
    /// y coordinate of the top wall's center.
    pub top_wall: i64,
    /// Half the thickness of every wall.
    pub wall_half: i64,
    /// Player rectangle half-extents.
    pub player_half: Vec2i,
    /// Enemy rectangle half-extents.
    pub enemy_half: Vec2i,
    /// Projectile rectangle half-extents.
    pub projectile_half: Vec2i,
    /// Horizontal player speed while a move key is held.
    pub player_speed: i64,
    /// Horizontal speed of the enemy formation.
    pub enemy_speed: i64,
    /// Vertical speed of every projectile.
    pub projectile_speed: i64,
    /// How close the player may get to a wall.
    pub player_padding: i64,
    /// How close an enemy may get to a wall.
    pub enemy_padding: i64,
    /// Gap between the bottom wall's center and the player's center.
    pub gap_player_floor: i64,
    /// Clearance kept between the enemy grid and the top wall.
    pub gap_enemies_ceiling: i64,
    /// Side margins used when checking that the grid has room.
    pub gap_enemies_sides: i64,
    /// Clearance kept between the player and the lowest enemy row.
    pub gap_player_enemies: i64,
    /// Horizontal gap between adjacent enemies.
    pub hgap: i64,
    /// Vertical gap between adjacent enemy rows.
    pub vgap: i64,
    /// Number of enemy rows.
    pub rows: usize,
    /// Number of enemy columns.
    pub cols: usize,
    /// Lives the player starts with.
    pub initial_lives: u64,
    /// Time between volleys of enemy fire, in the same units as `dt`.
    pub enemy_fire_period: u64,
}

/// A configuration the simulation accepts: an arena with positive extent,
/// positive bounded sizes, speeds and gaps, at least one enemy row and
/// column, and interior movement bounds in the right order.
pub open spec fn wf_config(c: Config) -> bool {
    &&& -LAYOUT_LIMIT <= c.left_wall < c.right_wall <= LAYOUT_LIMIT
    &&& -LAYOUT_LIMIT <= c.bottom_wall < c.top_wall <= LAYOUT_LIMIT
    &&& 0 < c.wall_half <= SIZE_LIMIT
    &&& 0 < c.player_half.x <= LAYOUT_LIMIT && 0 < c.player_half.y <= LAYOUT_LIMIT
    &&& 0 < c.enemy_half.x <= LAYOUT_LIMIT && 0 < c.enemy_half.y <= LAYOUT_LIMIT
    &&& 0 < c.projectile_half.x <= LAYOUT_LIMIT && 0 < c.projectile_half.y <= LAYOUT_LIMIT
    &&& c.wall_half + (c.top_wall - c.bottom_wall) / 2 <= SIZE_LIMIT
    &&& c.wall_half + (c.right_wall - c.left_wall) / 2 <= SIZE_LIMIT
    &&& 0 < c.player_speed <= SPEED_LIMIT
    &&& 0 < c.enemy_speed <= SPEED_LIMIT
    &&& 0 < c.projectile_speed <= SPEED_LIMIT
    &&& 0 <= c.player_padding <= LAYOUT_LIMIT
    &&& 0 <= c.enemy_padding <= LAYOUT_LIMIT
    &&& 0 <= c.gap_player_floor <= LAYOUT_LIMIT
    &&& 0 <= c.gap_enemies_ceiling <= LAYOUT_LIMIT
    &&& 0 <= c.gap_enemies_sides <= LAYOUT_LIMIT
    &&& 0 <= c.gap_player_enemies <= LAYOUT_LIMIT
    &&& 0 <= c.hgap <= LAYOUT_LIMIT
    &&& 0 <= c.vgap <= LAYOUT_LIMIT
    &&& 1 <= c.rows <= 1024
    &&& 1 <= c.cols <= 1024
    &&& 1 <= c.initial_lives
    &&& 1 <= c.enemy_fire_period <= i64::MAX as u64
    &&& player_left_bound(c) <= player_right_bound(c)
    &&& enemy_left_bound(c) <= enemy_right_bound(c)
}

/// Leftmost x the player's center may take: the left wall's inner face
/// plus the player's half-width plus its padding.
pub open spec fn player_left_bound(c: Config) -> int {
    c.left_wall + c.wall_half + c.player_half.x + c.player_padding
}

/// Rightmost x the player's center may take.
pub open spec fn player_right_bound(c: Config) -> int {
    c.right_wall - c.wall_half - c.player_half.x - c.player_padding
}

/// Leftmost x an enemy's center may reach before the formation turns.
pub open spec fn enemy_left_bound(c: Config) -> int {
    c.left_wall + c.wall_half + c.enemy_half.x + c.enemy_padding
}

/// Rightmost x an enemy's center may reach before the formation turns.
pub open spec fn enemy_right_bound(c: Config) -> int {
    c.right_wall - c.wall_half - c.enemy_half.x - c.enemy_padding
}

impl Config {
    /// Interior x interval the player is clamped into.
    pub fn player_bounds(&self) -> (r: (i64, i64))
        requires
            wf_config(*self),
        ensures
            r.0 == player_left_bound(*self),
            r.1 == player_right_bound(*self),
    {
        (
            self.left_wall + self.wall_half + self.player_half.x + self.player_padding,
            self.right_wall - self.wall_half - self.player_half.x - self.player_padding,
        )
    }

    /// Interior x interval whose edges make the enemy formation turn.
    pub fn enemy_bounds(&self) -> (r: (i64, i64))
        requires
            wf_config(*self),
        ensures
            r.0 == enemy_left_bound(*self),
            r.1 == enemy_right_bound(*self),
    {
        (
            self.left_wall + self.wall_half + self.enemy_half.x + self.enemy_padding,
            self.right_wall - self.wall_half - self.enemy_half.x - self.enemy_padding,
        )
    }
}

} // verus!
