use invaders_core::collision::check_for_collisions;
use invaders_core::collision::CollisionOutcome;
use invaders_core::geom::Vec2i;
use invaders_core::store::Entity;
use invaders_core::store::Role;
use invaders_core::store::Store;

fn enemy_at(x: i64, y: i64) -> Entity {
    Entity {
        role: Role::Enemy,
        pos: Vec2i { x, y },
        size: Vec2i { x: 25, y: 12 },
        vel: Some(Vec2i { x: -50, y: 0 }),
        collider: true,
        lives: None,
    }
}

fn wall_at(x: i64, y: i64) -> Entity {
    Entity {
        role: Role::Wall,
        pos: Vec2i { x, y },
        size: Vec2i { x: 5, y: 405 },
        vel: None,
        collider: true,
        lives: None,
    }
}

fn player_with_lives(lives: u64) -> Entity {
    Entity {
        role: Role::Player,
        pos: Vec2i { x: 0, y: -340 },
        size: Vec2i { x: 50, y: 12 },
        vel: None,
        collider: true,
        lives: Some(lives),
    }
}

fn projectile_at(x: i64, y: i64, role: Role) -> Entity {
    Entity {
        role,
        pos: Vec2i { x, y },
        size: Vec2i { x: 12, y: 12 },
        vel: Some(Vec2i { x: 0, y: 400 }),
        collider: false,
        lives: None,
    }
}

#[test]
fn projectile_on_enemy_scores_and_removes_both() {
    let mut store = Store::new();
    let e = store.spawn(enemy_at(0, 100));
    let p = store.spawn(projectile_at(5, 95, Role::PlayerProjectile));
    let (score, over, events) = check_for_collisions(&mut store, 7, false);
    assert_eq!(score, 8);
    assert!(!over);
    assert_eq!(events, vec![CollisionOutcome::EnemyDestroyed]);
    assert!(store.get(e).is_none());
    assert!(store.get(p).is_none());
}

#[test]
fn projectile_on_wall_removes_only_the_projectile() {
    let mut store = Store::new();
    let w = store.spawn(wall_at(-450, 0));
    let p = store.spawn(projectile_at(-448, 10, Role::PlayerProjectile));
    let (score, over, events) = check_for_collisions(&mut store, 3, false);
    assert_eq!(score, 3);
    assert!(!over);
    assert_eq!(events, vec![CollisionOutcome::WallAbsorbed]);
    assert!(store.get(w).is_some());
    assert!(store.get(p).is_none());
}

#[test]
fn projectile_on_player_with_spare_lives_costs_one_life() {
    let mut store = Store::new();
    let pl = store.spawn(player_with_lives(3));
    let p = store.spawn(projectile_at(0, -339, Role::EnemyProjectile));
    let (score, over, events) = check_for_collisions(&mut store, 0, false);
    assert_eq!(score, 0);
    assert!(!over);
    assert_eq!(events, vec![CollisionOutcome::PlayerDamaged]);
    assert_eq!(store.get(pl).unwrap().lives, Some(2));
    assert!(store.get(p).is_none());
}

#[test]
fn projectile_on_last_life_destroys_player_and_ends_session() {
    let mut store = Store::new();
    let pl = store.spawn(player_with_lives(1));
    let p = store.spawn(projectile_at(0, -339, Role::EnemyProjectile));
    let (score, over, events) = check_for_collisions(&mut store, 5, false);
    assert_eq!(score, 5);
    assert!(over);
    assert_eq!(events, vec![CollisionOutcome::PlayerDestroyed]);
    // The player entity is removed outright: its lives never read zero.
    assert!(store.get(pl).is_none());
    assert!(store.get(p).is_none());
}

#[test]
fn non_overlapping_pairs_resolve_nothing() {
    let mut store = Store::new();
    let e = store.spawn(enemy_at(0, 100));
    let p = store.spawn(projectile_at(300, 300, Role::PlayerProjectile));
    let (score, over, events) = check_for_collisions(&mut store, 2, false);
    assert_eq!(score, 2);
    assert!(!over);
    assert!(events.is_empty());
    assert!(store.get(e).is_some());
    assert!(store.get(p).is_some());
}

#[test]
fn consumed_projectile_hits_nothing_further() {
    // Two enemies both overlap the projectile; the first match consumes
    // it, so exactly one enemy is destroyed and one point scored.
    let mut store = Store::new();
    let a = store.spawn(enemy_at(0, 100));
    let b = store.spawn(enemy_at(10, 100));
    let p = store.spawn(projectile_at(5, 100, Role::PlayerProjectile));
    let (score, _, events) = check_for_collisions(&mut store, 0, false);
    assert_eq!(score, 1);
    assert_eq!(events, vec![CollisionOutcome::EnemyDestroyed]);
    assert!(store.get(p).is_none());
    assert!(store.get(a).is_none());
    assert!(store.get(b).is_some());
}
