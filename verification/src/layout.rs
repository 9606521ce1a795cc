//! Formation and boundary layout: wall rectangles flush with the arena
//! edges and overlapping the corners by half the wall thickness, the
//! player's start position, and the row-major enemy grid centered
//! horizontally between the walls. Pure placement arithmetic; it fails at
//! setup when the room left for the enemy grid is non-positive.

use vstd::prelude::*;

use crate::config::wf_config;
use crate::config::Config;
use crate::config::ConfigError;
use crate::geom::half_floor;
use crate::geom::Vec2i;
use crate::motion::lemma_mul_bound;
use crate::store::is_live_role;
use crate::store::one_player;
use crate::store::pos_bounded;
use crate::store::store_wf;
use crate::store::wf_entity;
use crate::store::Entity;
use crate::store::Role;
use crate::store::Store;
use crate::LAYOUT_LIMIT;

verus! {

/// Which of the four arena walls.
#[derive(Clone, Copy, PartialEq, Eq, Structural, Debug)]
pub enum WallLocation {
    Left,
    Right,
    Bottom,
    Top,
}

/// Horizontal center of the arena, rounded towards negative infinity.
pub open spec fn arena_mid_x(c: Config) -> int {
    (c.left_wall + c.right_wall) / 2
}

/// Vertical center of the arena, rounded towards negative infinity.
pub open spec fn arena_mid_y(c: Config) -> int {
    (c.bottom_wall + c.top_wall) / 2
}

/// Center of a wall: side walls sit on the arena's x edges at mid height,
/// floor and ceiling on its y edges at mid width.
pub open spec fn wall_center(c: Config, loc: WallLocation) -> Vec2i {
    match loc {
        WallLocation::Left => Vec2i { x: c.left_wall, y: arena_mid_y(c) as i64 },
        WallLocation::Right => Vec2i { x: c.right_wall, y: arena_mid_y(c) as i64 },
        WallLocation::Bottom => Vec2i { x: arena_mid_x(c) as i64, y: c.bottom_wall },
        WallLocation::Top => Vec2i { x: arena_mid_x(c) as i64, y: c.top_wall },
    }
}

/// Half-extents of a wall: half the wall thickness across, half the arena
/// extent plus half the wall thickness along, so adjacent walls overlap at
/// the corners by half the thickness.
pub open spec fn wall_half_size(c: Config, loc: WallLocation) -> Vec2i {
    match loc {
        WallLocation::Left | WallLocation::Right => Vec2i {
            x: c.wall_half,
            y: ((c.top_wall - c.bottom_wall) / 2 + c.wall_half) as i64,
        },
        WallLocation::Bottom | WallLocation::Top => Vec2i {
            x: ((c.right_wall - c.left_wall) / 2 + c.wall_half) as i64,
            y: c.wall_half,
        },
    }
}

/// A wall entity: a motionless collider at its configured rectangle.
pub open spec fn wall_entity(c: Config, loc: WallLocation) -> Entity {
    Entity {
        role: Role::Wall,
        pos: wall_center(c, loc),
        size: wall_half_size(c, loc),
        vel: None,
        collider: true,
        lives: None,
    }
}

/// Vertical center of the player: the configured gap above the bottom
/// wall's center.
pub open spec fn player_y(c: Config) -> int {
    c.bottom_wall + c.gap_player_floor
}

/// The player entity at session start: mid arena horizontally, carrying
/// the configured initial lives.
pub open spec fn player_entity(c: Config) -> Entity {
    Entity {
        role: Role::Player,
        pos: Vec2i { x: arena_mid_x(c) as i64, y: player_y(c) as i64 },
        size: c.player_half,
        vel: None,
        collider: true,
        lives: Some(c.initial_lives),
    }
}

/// Horizontal distance between the centers of adjacent enemies.
pub open spec fn pitch_x(c: Config) -> int {
    2 * c.enemy_half.x + c.hgap
}

/// Vertical distance between the centers of adjacent enemy rows.
pub open spec fn pitch_y(c: Config) -> int {
    2 * c.enemy_half.y + c.vgap
}

/// Horizontal center of the grid's first column: the grid of `cols`
/// columns is centered on the arena's middle.
pub open spec fn grid_first_x(c: Config) -> int {
    (c.left_wall + c.right_wall - (c.cols - 1) * pitch_x(c)) / 2
}

/// Vertical center of the grid's lowest row: the configured clearance
/// above the player plus the enemy half-height.
pub open spec fn grid_first_y(c: Config) -> int {
    player_y(c) + c.gap_player_enemies + c.enemy_half.y
}

/// Center of the enemy spawned at the given row and column.
pub open spec fn enemy_center(c: Config, row: int, col: int) -> Vec2i {
    Vec2i {
        x: (grid_first_x(c) + col * pitch_x(c)) as i64,
        y: (grid_first_y(c) + row * pitch_y(c)) as i64,
    }
}

/// The enemy entity spawned at the given row and column, moving towards
/// the left at the configured formation speed.
pub open spec fn enemy_entity(c: Config, row: int, col: int) -> Entity {
    Entity {
        role: Role::Enemy,
        pos: enemy_center(c, row, col),
        size: c.enemy_half,
        vel: Some(Vec2i { x: (-c.enemy_speed) as i64, y: 0 }),
        collider: true,
        lives: None,
    }
}

/// Width left for the enemy grid between the configured side margins.
pub open spec fn grid_usable_width(c: Config) -> int {
    (c.right_wall - c.left_wall) - 2 * c.gap_enemies_sides
}

/// Height left for the enemy grid between its lowest row's edge and the
/// configured ceiling clearance.
pub open spec fn grid_usable_height(c: Config) -> int {
    c.top_wall - (player_y(c) + c.gap_player_enemies) - c.gap_enemies_ceiling
}

/// The entity initially in slot `i`: the player first, then the four
/// walls, then the enemy grid row-major.
pub open spec fn initial_entity(c: Config, i: int) -> Entity {
    if i == 0 {
        player_entity(c)
    } else if i == 1 {
        wall_entity(c, WallLocation::Left)
    } else if i == 2 {
        wall_entity(c, WallLocation::Right)
    } else if i == 3 {
        wall_entity(c, WallLocation::Bottom)
    } else if i == 4 {
        wall_entity(c, WallLocation::Top)
    } else {
        enemy_entity(c, (i - 5) / c.cols as int, (i - 5) % c.cols as int)
    }
}

/// The store view right after setup: every slot live, the player, the four
/// walls, and `rows * cols` enemies.
pub open spec fn initial_view(c: Config) -> Seq<Option<Entity>> {
    Seq::new((5 + c.rows * c.cols) as nat, |i: int| Some(initial_entity(c, i)))
}

/// The freshly laid-out store is well formed: every entity's components
/// are consistent, the player is unique, and every coordinate is well
/// within the bound a tick accepts.
pub proof fn lemma_initial_view_props(c: Config)
    requires
        wf_config(c),
    ensures
        store_wf(initial_view(c)),
        one_player(initial_view(c)),
        pos_bounded(initial_view(c), crate::TICK_POS_LIMIT as int),
{
    let v = initial_view(c);
    let b = crate::TICK_POS_LIMIT as int;
    assert forall|i: int| 0 <= i < v.len() && v[i] is Some implies wf_entity(v[i]->0) && {
        let p = v[i]->0.pos;
        -b <= p.x <= b && -b <= p.y <= b
    } by {
        let e = initial_entity(c, i);
        assert(v[i] == Some(e));
        if i >= 5 {
            let k = i - 5;
            let row = k / c.cols as int;
            let col = k % c.cols as int;
            vstd::arithmetic::div_mod::lemma_mod_bound(k, c.cols as int);
            vstd::arithmetic::div_mod::lemma_div_pos_is_pos(k, c.cols as int);
            assert(k < c.rows * c.cols);
            assert(row < c.rows) by (nonlinear_arith)
                requires
                    row == k / c.cols as int,
                    0 <= k < c.rows * c.cols,
                    1 <= c.cols,
                    1 <= c.rows,
            ;
            assert(0 < pitch_x(c) <= 4 * LAYOUT_LIMIT);
            assert(0 < pitch_y(c) <= 4 * LAYOUT_LIMIT);
            assert(-0x8000_0000 <= col * pitch_x(c) <= 0x8000_0000) by (nonlinear_arith)
                requires
                    0 <= col <= 1024,
                    0 < pitch_x(c) <= 0x20_0000,
            ;
            assert(-0x8000_0000 <= row * pitch_y(c) <= 0x8000_0000) by (nonlinear_arith)
                requires
                    0 <= row <= 1024,
                    0 < pitch_y(c) <= 0x20_0000,
            ;
            assert(-0x8000_0000 <= (c.cols - 1) * pitch_x(c) <= 0x8000_0000) by (nonlinear_arith)
                requires
                    1 <= c.cols <= 1024,
                    0 < pitch_x(c) <= 0x20_0000,
            ;
            assert(e == enemy_entity(c, row, col));
        }
    }
    assert forall|i: int, j: int|
        is_live_role(v, i, Role::Player) && is_live_role(v, j, Role::Player) implies i == j by {
        assert(v[i]->0 == initial_entity(c, i));
        assert(v[j]->0 == initial_entity(c, j));
        assert(i == 0);
        assert(j == 0);
    }
}

/// Enemies never overlap on spawn: any two distinct enemies of the fresh
/// grid are at least a full pitch apart on some axis, which exceeds the
/// sum of their half-extents.
pub proof fn lemma_initial_enemies_disjoint(c: Config, i: int, j: int)
    requires
        wf_config(c),
        5 <= i < initial_view(c).len(),
        5 <= j < initial_view(c).len(),
        i != j,
    ensures
        !crate::geom::rects_overlap(
            initial_entity(c, i).pos,
            initial_entity(c, i).size,
            initial_entity(c, j).pos,
            initial_entity(c, j).size,
        ),
{
    let cols = c.cols as int;
    let ri = (i - 5) / cols;
    let ci = (i - 5) % cols;
    let rj = (j - 5) / cols;
    let cj = (j - 5) % cols;
    vstd::arithmetic::div_mod::lemma_fundamental_div_mod(i - 5, cols);
    vstd::arithmetic::div_mod::lemma_fundamental_div_mod(j - 5, cols);
    vstd::arithmetic::div_mod::lemma_mod_bound(i - 5, cols);
    vstd::arithmetic::div_mod::lemma_mod_bound(j - 5, cols);
    vstd::arithmetic::div_mod::lemma_div_pos_is_pos(i - 5, cols);
    vstd::arithmetic::div_mod::lemma_div_pos_is_pos(j - 5, cols);
    assert(i < 5 + c.rows * c.cols);
    assert(ri < c.rows) by (nonlinear_arith)
        requires
            ri == (i - 5) / cols,
            0 <= i - 5 < c.rows * cols,
            1 <= cols,
            1 <= c.rows,
    ;
    assert(rj < c.rows) by (nonlinear_arith)
        requires
            rj == (j - 5) / cols,
            0 <= j - 5 < c.rows * cols,
            1 <= cols,
            1 <= c.rows,
    ;
    assert(ri != rj || ci != cj);
    let px = pitch_x(c);
    let py = pitch_y(c);
    assert(0 < px <= 4 * LAYOUT_LIMIT && 0 < py <= 4 * LAYOUT_LIMIT);
    assert(-0x8000_0000 <= ci * px <= 0x8000_0000 && -0x8000_0000 <= cj * px <= 0x8000_0000
        && -0x8000_0000 <= ri * py <= 0x8000_0000 && -0x8000_0000 <= rj * py <= 0x8000_0000)
        by (nonlinear_arith)
        requires
            0 <= ci <= 1024,
            0 <= cj <= 1024,
            0 <= ri <= 1024,
            0 <= rj <= 1024,
            0 < px <= 0x20_0000,
            0 < py <= 0x20_0000,
    ;
    assert(-0x8000_0000 <= (cols - 1) * px <= 0x8000_0000) by (nonlinear_arith)
        requires
            1 <= cols <= 1024,
            0 < px <= 0x20_0000,
    ;
    let a = initial_entity(c, i);
    let b = initial_entity(c, j);
    assert(a == enemy_entity(c, ri, ci));
    assert(b == enemy_entity(c, rj, cj));
    if ci != cj {
        assert(ci * px - cj * px == (ci - cj) * px && (ci - cj >= 1 ==> (ci - cj) * px >= px) && (
        ci - cj <= -1 ==> (ci - cj) * px <= -px)) by (nonlinear_arith)
            requires
                0 < px,
        ;
        assert(a.pos.x - b.pos.x >= px || b.pos.x - a.pos.x >= px);
        assert(a.size.x + b.size.x == 2 * c.enemy_half.x <= px);
    } else {
        assert(ri * py - rj * py == (ri - rj) * py && (ri - rj >= 1 ==> (ri - rj) * py >= py) && (
        ri - rj <= -1 ==> (ri - rj) * py <= -py)) by (nonlinear_arith)
            requires
                0 < py,
        ;
        assert(a.pos.y - b.pos.y >= py || b.pos.y - a.pos.y >= py);
        assert(a.size.y + b.size.y == 2 * c.enemy_half.y <= py);
    }
}

/// Center of a wall, computed from the configuration.
pub fn wall_position(cfg: &Config, loc: WallLocation) -> (r: Vec2i)
    requires
        wf_config(*cfg),
    ensures
        r == wall_center(*cfg, loc),
{
    let mid_x = half_floor(cfg.left_wall + cfg.right_wall);
    let mid_y = half_floor(cfg.bottom_wall + cfg.top_wall);
    match loc {
        WallLocation::Left => Vec2i { x: cfg.left_wall, y: mid_y },
        WallLocation::Right => Vec2i { x: cfg.right_wall, y: mid_y },
        WallLocation::Bottom => Vec2i { x: mid_x, y: cfg.bottom_wall },
        WallLocation::Top => Vec2i { x: mid_x, y: cfg.top_wall },
    }
}

/// Half-extents of a wall, computed from the configuration.
pub fn wall_size(cfg: &Config, loc: WallLocation) -> (r: Vec2i)
    requires
        wf_config(*cfg),
    ensures
        r == wall_half_size(*cfg, loc),
{
    match loc {
        WallLocation::Left | WallLocation::Right => Vec2i {
            x: cfg.wall_half,
            y: half_floor(cfg.top_wall - cfg.bottom_wall) + cfg.wall_half,
        },
        WallLocation::Bottom | WallLocation::Top => Vec2i {
            x: half_floor(cfg.right_wall - cfg.left_wall) + cfg.wall_half,
            y: cfg.wall_half,
        },
    }
}

/// Build the initial store: the player, the four walls, and the row-major
/// enemy grid. Fails, spawning nothing, when the usable width or height
/// for the enemy grid is non-positive.
pub fn initial_store(cfg: &Config) -> (r: Result<Store, ConfigError>)
    requires
        wf_config(*cfg),
    ensures
        r is Err <==> (grid_usable_width(*cfg) <= 0 || grid_usable_height(*cfg) <= 0),
        r == Err::<Store, ConfigError>(ConfigError::GridWidthNonPositive) <==> grid_usable_width(
            *cfg,
        ) <= 0,
        r == Err::<Store, ConfigError>(ConfigError::GridHeightNonPositive) <==> (grid_usable_width(
            *cfg,
        ) > 0 && grid_usable_height(*cfg) <= 0),
        r matches Ok(s) ==> s@ == initial_view(*cfg),
{
    let usable_width = (cfg.right_wall - cfg.left_wall) - 2 * cfg.gap_enemies_sides;
    if usable_width <= 0 {
        return Err(ConfigError::GridWidthNonPositive);
    }
    let py = cfg.bottom_wall + cfg.gap_player_floor;
    let usable_height = cfg.top_wall - (py + cfg.gap_player_enemies) - cfg.gap_enemies_ceiling;
    if usable_height <= 0 {
        return Err(ConfigError::GridHeightNonPositive);
    }
    let mut store = Store::new();
    let mid_x = half_floor(cfg.left_wall + cfg.right_wall);
    store.spawn(
        Entity {
            role: Role::Player,
            pos: Vec2i { x: mid_x, y: py },
            size: cfg.player_half,
            vel: None,
            collider: true,
            lives: Some(cfg.initial_lives),
        },
    );
    store.spawn(wall_entity_exec(cfg, WallLocation::Left));
    store.spawn(wall_entity_exec(cfg, WallLocation::Right));
    store.spawn(wall_entity_exec(cfg, WallLocation::Bottom));
    store.spawn(wall_entity_exec(cfg, WallLocation::Top));
    proof {
        assert(store@ =~= Seq::new(5, |i: int| Some(initial_entity(*cfg, i))));
    }
    let px = pitch_x_exec(cfg);
    let pyy = pitch_y_exec(cfg);
    proof {
        lemma_mul_bound(px as int, (cfg.cols - 1) as int, 4 * LAYOUT_LIMIT as int, 1024);
    }
    let first_x = half_floor(cfg.left_wall + cfg.right_wall - (cfg.cols as i64 - 1) * px);
    let first_y = py + cfg.gap_player_enemies + cfg.enemy_half.y;
    let rows = cfg.rows;
    let cols = cfg.cols;
    let mut row: usize = 0;
    while row < rows
        invariant
            0 <= row <= rows,
            store@.len() == 5 + row * cols,
            forall|j: int| 0 <= j < store@.len() ==> store@[j] == Some(
                #[trigger] initial_entity(*cfg, j),
            ),
        decreases rows - row,
    {
        let mut col: usize = 0;
        while col < cols
            invariant
                0 <= row < rows,
                0 <= col <= cols,
                store@.len() == 5 + row * cols + col,
                forall|j: int| 0 <= j < store@.len() ==> store@[j] == Some(
                    #[trigger] initial_entity(*cfg, j),
                ),
            decreases cols - col,
        {
            proof {
                lemma_mul_bound(px as int, col as int, 4 * LAYOUT_LIMIT as int, 1024);
                lemma_mul_bound(pyy as int, row as int, 4 * LAYOUT_LIMIT as int, 1024);
                lemma_mul_bound(cols as int, row as int, 1024, 1024);
                assert(-0x8000_0000 <= (row as int) * (pyy as int) <= 0x8000_0000)
                    by (nonlinear_arith)
                    requires
                        0 <= row <= 1024,
                        0 < pyy <= 0x20_0000,
                ;
            }
            let ex = first_x + (col as i64) * px;
            let ey = first_y + (row as i64) * pyy;
            let ghost k = (5 + row * cols + col) as int;
            proof {
                vstd::arithmetic::div_mod::lemma_fundamental_div_mod_converse(
                    k - 5,
                    cols as int,
                    row as int,
                    col as int,
                );
                assert(initial_entity(*cfg, k) == enemy_entity(*cfg, row as int, col as int));
            }
            store.spawn(
                Entity {
                    role: Role::Enemy,
                    pos: Vec2i { x: ex, y: ey },
                    size: cfg.enemy_half,
                    vel: Some(Vec2i { x: -cfg.enemy_speed, y: 0 }),
                    collider: true,
                    lives: None,
                },
            );
            col += 1;
        }
        proof {
            assert(row * cols + cols == (row + 1) * cols) by (nonlinear_arith);
        }
        row += 1;
    }
    proof {
        assert(store@ =~= initial_view(*cfg));
    }
    Ok(store)
}

/// Horizontal pitch of the enemy grid.
fn pitch_x_exec(cfg: &Config) -> (r: i64)
    requires
        wf_config(*cfg),
    ensures
        r == pitch_x(*cfg),
        0 < r <= 4 * LAYOUT_LIMIT,
{
    2 * cfg.enemy_half.x + cfg.hgap
}

/// Vertical pitch of the enemy grid.
fn pitch_y_exec(cfg: &Config) -> (r: i64)
    requires
        wf_config(*cfg),
    ensures
        r == pitch_y(*cfg),
        0 < r <= 4 * LAYOUT_LIMIT,
{
    2 * cfg.enemy_half.y + cfg.vgap
}

/// A wall entity, computed from the configuration.
pub fn wall_entity_exec(cfg: &Config, loc: WallLocation) -> (r: Entity)
    requires
        wf_config(*cfg),
    ensures
        r == wall_entity(*cfg, loc),
{
    Entity {
        role: Role::Wall,
        pos: wall_position(cfg, loc),
        size: wall_size(cfg, loc),
        vel: None,
        collider: true,
        lives: None,
    }
}

} // verus!
