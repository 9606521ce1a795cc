use invaders_core::config::Config;
use invaders_core::geom::Vec2i;
use invaders_core::store::Entity;
use invaders_core::store::Role;
use invaders_core::store::Store;
use invaders_core::weapons::enemy_can_fire_at;
use invaders_core::weapons::shoot_enemy_projectile;
use invaders_core::weapons::shoot_player_projectile;
use invaders_core::weapons::RepeatTimer;

fn arena_config() -> Config {
    Config {
        left_wall: -450,
        right_wall: 450,
        bottom_wall: -400,
        top_wall: 400,
        wall_half: 5,
        player_half: Vec2i { x: 50, y: 12 },
        enemy_half: Vec2i { x: 25, y: 12 },
        projectile_half: Vec2i { x: 12, y: 12 },
        player_speed: 400,
        enemy_speed: 50,
        projectile_speed: 400,
        player_padding: 10,
        enemy_padding: 10,
        gap_player_floor: 60,
        gap_enemies_ceiling: 30,
        gap_enemies_sides: 100,
        gap_player_enemies: 450,
        hgap: 50,
        vgap: 25,
        rows: 4,
        cols: 6,
        initial_lives: 3,
        enemy_fire_period: 120,
    }
}

fn enemy_at(x: i64, y: i64) -> Entity {
    Entity {
        role: Role::Enemy,
        pos: Vec2i { x, y },
        size: Vec2i { x: 25, y: 12 },
        vel: Some(Vec2i { x: -50, y: 0 }),
        collider: true,
        lives: None,
    }
}

fn player_at(x: i64, y: i64) -> Entity {
    Entity {
        role: Role::Player,
        pos: Vec2i { x, y },
        size: Vec2i { x: 50, y: 12 },
        vel: None,
        collider: true,
        lives: Some(3),
    }
}

fn count_role(store: &Store, role: Role) -> usize {
    store.live_pairs().iter().filter(|(_, e)| e.role == role).count()
}

#[test]
fn timer_reports_each_elapsed_interval() {
    let mut t = RepeatTimer::new(3);
    assert!(!t.advance(1));
    assert!(!t.advance(1));
    assert!(t.advance(1));
    assert_eq!(t.elapsed, 0);
    assert!(!t.advance(2));
    assert!(t.advance(2));
    assert_eq!(t.elapsed, 1);
}

#[test]
fn held_fire_signal_spawns_exactly_once() {
    let cfg = arena_config();
    let mut store = Store::new();
    store.spawn(player_at(0, -340));
    let mut was_down = false;
    // Press: the edge fires one projectile.
    shoot_player_projectile(&mut store, &cfg, true, &mut was_down);
    assert_eq!(count_role(&store, Role::PlayerProjectile), 1);
    // Held on later ticks: no further projectile.
    shoot_player_projectile(&mut store, &cfg, true, &mut was_down);
    shoot_player_projectile(&mut store, &cfg, true, &mut was_down);
    assert_eq!(count_role(&store, Role::PlayerProjectile), 1);
    // Release, then press again: exactly one more.
    shoot_player_projectile(&mut store, &cfg, false, &mut was_down);
    assert_eq!(count_role(&store, Role::PlayerProjectile), 1);
    shoot_player_projectile(&mut store, &cfg, true, &mut was_down);
    assert_eq!(count_role(&store, Role::PlayerProjectile), 2);
}

#[test]
fn player_projectile_starts_above_player_and_flies_up() {
    let cfg = arena_config();
    let mut store = Store::new();
    store.spawn(player_at(17, -340));
    let mut was_down = false;
    shoot_player_projectile(&mut store, &cfg, true, &mut was_down);
    let (_, shot) = store
        .live_pairs()
        .into_iter()
        .find(|(_, e)| e.role == Role::PlayerProjectile)
        .unwrap();
    assert_eq!(shot.pos, Vec2i { x: 17, y: -328 });
    assert_eq!(shot.vel, Some(Vec2i { x: 0, y: 400 }));
    assert!(!shot.collider);
}

#[test]
fn only_lowest_enemy_of_column_may_fire() {
    let mut store = Store::new();
    let low = store.spawn(enemy_at(40, 100));
    let high = store.spawn(enemy_at(40, 200));
    let lone = store.spawn(enemy_at(-100, 200));
    assert!(enemy_can_fire_at(&store, low.idx));
    assert!(!enemy_can_fire_at(&store, high.idx));
    // A lone enemy in its column is always eligible.
    assert!(enemy_can_fire_at(&store, lone.idx));
}

#[test]
fn volley_spawns_one_shot_per_eligible_enemy() {
    let cfg = arena_config();
    let mut store = Store::new();
    store.spawn(enemy_at(40, 100));
    store.spawn(enemy_at(40, 200));
    store.spawn(enemy_at(-100, 200));
    let mut timer = RepeatTimer::new(2);
    // First tick: interval not yet over, nothing fires.
    shoot_enemy_projectile(&mut store, &cfg, &mut timer, 1);
    assert_eq!(count_role(&store, Role::EnemyProjectile), 0);
    // Second tick: the two frontmost enemies fire simultaneously.
    shoot_enemy_projectile(&mut store, &cfg, &mut timer, 1);
    assert_eq!(count_role(&store, Role::EnemyProjectile), 2);
    let shots: Vec<Entity> = store
        .live_pairs()
        .into_iter()
        .map(|(_, e)| e)
        .filter(|e| e.role == Role::EnemyProjectile)
        .collect();
    // Spawned at the enemy's center lowered by its half-height, flying down.
    assert_eq!(shots[0].pos, Vec2i { x: 40, y: 88 });
    assert_eq!(shots[1].pos, Vec2i { x: -100, y: 188 });
    assert_eq!(shots[0].vel, Some(Vec2i { x: 0, y: -400 }));
}
