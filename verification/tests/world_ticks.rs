use invaders_core::collision::CollisionOutcome;
use invaders_core::config::Config;
use invaders_core::geom::Vec2i;
use invaders_core::motion::apply_velocity;
use invaders_core::store::Entity;
use invaders_core::store::Role;
use invaders_core::store::Store;
use invaders_core::weapons::RepeatTimer;
use invaders_core::world::InputState;
use invaders_core::world::SessionState;
use invaders_core::world::World;

fn arena_config() -> Config {
    Config {
        left_wall: -450,
        right_wall: 450,
        bottom_wall: -400,
        top_wall: 400,
        wall_half: 5,
        player_half: Vec2i { x: 50, y: 12 },
        enemy_half: Vec2i { x: 25, y: 12 },
        projectile_half: Vec2i { x: 12, y: 12 },
        player_speed: 400,
        enemy_speed: 50,
        projectile_speed: 400,
        player_padding: 10,
        enemy_padding: 10,
        gap_player_floor: 60,
        gap_enemies_ceiling: 30,
        gap_enemies_sides: 100,
        gap_player_enemies: 450,
        hgap: 50,
        vgap: 25,
        rows: 4,
        cols: 6,
        initial_lives: 3,
        enemy_fire_period: 120,
    }
}

fn idle() -> InputState {
    InputState { fire_down: false, left_held: false, right_held: false }
}

#[test]
fn integration_moves_by_velocity_times_dt() {
    let mut store = Store::new();
    let id = store.spawn(Entity {
        role: Role::EnemyProjectile,
        pos: Vec2i { x: 100, y: 200 },
        size: Vec2i { x: 12, y: 12 },
        vel: Some(Vec2i { x: 3, y: -4 }),
        collider: false,
        lives: None,
    });
    let still = store.spawn(Entity {
        role: Role::Wall,
        pos: Vec2i { x: 7, y: 8 },
        size: Vec2i { x: 5, y: 5 },
        vel: None,
        collider: true,
        lives: None,
    });
    apply_velocity(&mut store, 2);
    assert_eq!(store.get(id).unwrap().pos, Vec2i { x: 106, y: 192 });
    // An entity without a velocity does not move.
    assert_eq!(store.get(still).unwrap().pos, Vec2i { x: 7, y: 8 });
}

#[test]
fn idle_tick_moves_the_formation_left() {
    let mut w = World::new(arena_config()).unwrap();
    let events = w.tick(idle(), 1);
    assert!(events.is_empty());
    assert_eq!(w.score(), 0);
    assert_eq!(w.session(), SessionState::Running);
    let pairs = w.live_entities();
    // The first enemy started at -250 and moves at 50 per time unit.
    assert_eq!(pairs[5].1.pos, Vec2i { x: -300, y: 122 });
    // The player has no velocity and no input: it stays put.
    assert_eq!(pairs[0].1.pos, Vec2i { x: 0, y: -340 });
}

#[test]
fn player_motion_is_clamped_to_the_arena() {
    let mut w = World::new(arena_config()).unwrap();
    let right = InputState { fire_down: false, left_held: false, right_held: true };
    // One step of 400 from x = 0 would reach 400; the bound is
    // 450 - 5 - 50 - 10 = 385.
    w.tick(right, 1);
    assert_eq!(w.live_entities()[0].1.pos.x, 385);
    w.tick(right, 1);
    assert_eq!(w.live_entities()[0].1.pos.x, 385);
    let left = InputState { fire_down: false, left_held: true, right_held: false };
    w.tick(left, 1);
    assert_eq!(w.live_entities()[0].1.pos.x, -15);
    w.tick(left, 1);
    assert_eq!(w.live_entities()[0].1.pos.x, -385);
}

#[test]
fn formation_reverses_after_reaching_the_bound() {
    let mut w = World::new(arena_config()).unwrap();
    // The leftmost column starts at -250 moving left at 50 per unit; the
    // interior bound is -410.
    let mut lefts: Vec<i64> = Vec::new();
    for _ in 0..8 {
        w.tick(idle(), 1);
        lefts.push(w.live_entities()[5].1.pos.x);
    }
    // The formation drifts left until a tick's integration puts the
    // column at or past the bound; that same tick flips every velocity,
    // and the next tick moves the formation right.
    assert_eq!(lefts[0], -300);
    assert_eq!(lefts[1], -350);
    assert_eq!(lefts[2], -400);
    assert_eq!(lefts[3], -450);
    assert_eq!(lefts[4], -400);
    assert_eq!(lefts[5], -350);
    let vels: Vec<Option<Vec2i>> =
        w.live_entities().iter().map(|(_, e)| e.vel).filter(|v| v.is_some()).collect();
    for v in vels {
        assert_eq!(v.unwrap().x, 50);
    }
}

#[test]
fn killing_hit_ends_the_session() {
    let mut store = Store::new();
    store.spawn(Entity {
        role: Role::Player,
        pos: Vec2i { x: 0, y: -340 },
        size: Vec2i { x: 50, y: 12 },
        vel: None,
        collider: true,
        lives: Some(1),
    });
    // An enemy shot one unit above the player, falling onto it this tick.
    store.spawn(Entity {
        role: Role::EnemyProjectile,
        pos: Vec2i { x: 0, y: -339 },
        size: Vec2i { x: 12, y: 12 },
        vel: Some(Vec2i { x: 0, y: -1 }),
        collider: false,
        lives: None,
    });
    let mut w = World {
        store,
        cfg: arena_config(),
        score: 0,
        session: SessionState::Running,
        fire_was_down: false,
        enemy_timer: RepeatTimer { period: 120, elapsed: 0 },
    };
    let events = w.tick(idle(), 1);
    assert_eq!(events, vec![CollisionOutcome::PlayerDestroyed]);
    assert_eq!(w.session(), SessionState::GameOver);
    // The player entity is gone; its lives never observably reached zero.
    assert_eq!(w.lives(), None);
    assert_eq!(w.score(), 0);
    // The session state is terminal: further ticks keep it.
    w.tick(idle(), 1);
    assert_eq!(w.session(), SessionState::GameOver);
}

#[test]
fn fire_held_over_ticks_spawns_one_projectile() {
    let mut w = World::new(arena_config()).unwrap();
    let fire = InputState { fire_down: true, left_held: false, right_held: false };
    w.tick(fire, 1);
    w.tick(fire, 1);
    w.tick(fire, 1);
    let shots = w
        .live_entities()
        .iter()
        .filter(|(_, e)| e.role == Role::PlayerProjectile)
        .count();
    assert_eq!(shots, 1);
    // Release and press again: a second projectile.
    w.tick(idle(), 1);
    w.tick(fire, 1);
    let shots = w
        .live_entities()
        .iter()
        .filter(|(_, e)| e.role == Role::PlayerProjectile)
        .count();
    assert_eq!(shots, 2);
}
