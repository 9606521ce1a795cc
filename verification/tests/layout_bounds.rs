use invaders_core::config::Config;
use invaders_core::config::ConfigError;
use invaders_core::geom::Vec2i;
use invaders_core::motion::move_enemies;
use invaders_core::store::Entity;
use invaders_core::store::Role;
use invaders_core::store::Store;
use invaders_core::world::SessionState;
use invaders_core::world::World;

fn arena_config() -> Config {
    Config {
        left_wall: -450,
        right_wall: 450,
        bottom_wall: -400,
        top_wall: 400,
        wall_half: 5,
        player_half: Vec2i { x: 50, y: 12 },
        enemy_half: Vec2i { x: 25, y: 12 },
        projectile_half: Vec2i { x: 12, y: 12 },
        player_speed: 400,
        enemy_speed: 50,
        projectile_speed: 400,
        player_padding: 10,
        enemy_padding: 10,
        gap_player_floor: 60,
        gap_enemies_ceiling: 30,
        gap_enemies_sides: 100,
        gap_player_enemies: 450,
        hgap: 50,
        vgap: 25,
        rows: 4,
        cols: 6,
        initial_lives: 3,
        enemy_fire_period: 120,
    }
}

fn enemy_at(x: i64, y: i64) -> Entity {
    Entity {
        role: Role::Enemy,
        pos: Vec2i { x, y },
        size: Vec2i { x: 25, y: 12 },
        vel: Some(Vec2i { x: -50, y: 0 }),
        collider: true,
        lives: None,
    }
}

#[test]
fn interior_bound_from_walls_and_padding() {
    // right wall 450, half thickness 5, enemy half-width 25, padding 10:
    // the formation turns at 450 - 5 - 25 - 10 = 410.
    let cfg = arena_config();
    let (lb, rb) = cfg.enemy_bounds();
    assert_eq!(lb, -410);
    assert_eq!(rb, 410);
}

#[test]
fn enemy_past_bound_turns_whole_formation() {
    let cfg = arena_config();
    let mut store = Store::new();
    let far = store.spawn(enemy_at(412, 100));
    let near = store.spawn(enemy_at(0, 100));
    move_enemies(&mut store, &cfg);
    // One enemy at or past the bound flips every enemy's x velocity.
    assert_eq!(store.get(far).unwrap().vel.unwrap(), Vec2i { x: 50, y: 0 });
    assert_eq!(store.get(near).unwrap().vel.unwrap(), Vec2i { x: 50, y: 0 });
}

#[test]
fn no_enemy_at_bound_means_no_turn() {
    let cfg = arena_config();
    let mut store = Store::new();
    let a = store.spawn(enemy_at(-409, 100));
    let b = store.spawn(enemy_at(200, 100));
    move_enemies(&mut store, &cfg);
    assert_eq!(store.get(a).unwrap().vel.unwrap(), Vec2i { x: -50, y: 0 });
    assert_eq!(store.get(b).unwrap().vel.unwrap(), Vec2i { x: -50, y: 0 });
}

#[test]
fn setup_places_player_walls_and_grid() {
    let w = World::new(arena_config()).unwrap();
    assert_eq!(w.score(), 0);
    assert_eq!(w.session(), SessionState::Running);
    assert_eq!(w.lives(), Some(3));
    // player + 4 walls + 4 * 6 enemies
    assert_eq!(w.entity_count(), 29);
    let pairs = w.live_entities();
    assert_eq!(pairs.len(), 29);
    // The player sits mid-arena, the configured gap above the bottom wall.
    let player = pairs[0].1;
    assert_eq!(player.role, Role::Player);
    assert_eq!(player.pos, Vec2i { x: 0, y: -340 });
    assert_eq!(player.lives, Some(3));
    // The left wall hugs the arena edge and overlaps the corners.
    let left_wall = pairs[1].1;
    assert_eq!(left_wall.role, Role::Wall);
    assert_eq!(left_wall.pos, Vec2i { x: -450, y: 0 });
    assert_eq!(left_wall.size, Vec2i { x: 5, y: 405 });
    // The bottom wall spans the width plus half a thickness each side.
    let bottom_wall = pairs[3].1;
    assert_eq!(bottom_wall.pos, Vec2i { x: 0, y: -400 });
    assert_eq!(bottom_wall.size, Vec2i { x: 455, y: 5 });
    // The grid is row-major from the lower-left, centered horizontally:
    // six columns, 100 apart, from -250 to 250, first row at y = 122.
    let first_enemy = pairs[5].1;
    assert_eq!(first_enemy.role, Role::Enemy);
    assert_eq!(first_enemy.pos, Vec2i { x: -250, y: 122 });
    assert_eq!(first_enemy.vel, Some(Vec2i { x: -50, y: 0 }));
    let last_of_first_row = pairs[10].1;
    assert_eq!(last_of_first_row.pos, Vec2i { x: 250, y: 122 });
    let second_row = pairs[11].1;
    assert_eq!(second_row.pos, Vec2i { x: -250, y: 171 });
}

#[test]
fn setup_rejects_grid_too_wide() {
    let mut cfg = arena_config();
    cfg.gap_enemies_sides = 450;
    match World::new(cfg) {
        Err(e) => assert_eq!(e, ConfigError::GridWidthNonPositive),
        Ok(_) => panic!("expected a configuration error"),
    }
}

#[test]
fn setup_rejects_grid_too_tall() {
    let mut cfg = arena_config();
    cfg.gap_player_enemies = 800;
    match World::new(cfg) {
        Err(e) => assert_eq!(e, ConfigError::GridHeightNonPositive),
        Ok(_) => panic!("expected a configuration error"),
    }
}
