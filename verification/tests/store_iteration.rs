use invaders_core::geom::Vec2i;
use invaders_core::store::Entity;
use invaders_core::store::Role;
use invaders_core::store::Store;

fn enemy_at(x: i64, y: i64) -> Entity {
    Entity {
        role: Role::Enemy,
        pos: Vec2i { x, y },
        size: Vec2i { x: 25, y: 12 },
        vel: Some(Vec2i { x: -50, y: 0 }),
        collider: true,
        lives: None,
    }
}

#[test]
fn spawn_then_get_returns_the_entity() {
    let mut store = Store::new();
    let id = store.spawn(enemy_at(3, 4));
    let e = store.get(id).unwrap();
    assert_eq!(e.pos, Vec2i { x: 3, y: 4 });
    assert_eq!(e.role, Role::Enemy);
    assert_eq!(store.len(), 1);
}

#[test]
fn destroy_clears_the_slot() {
    let mut store = Store::new();
    let id = store.spawn(enemy_at(0, 0));
    store.destroy(id);
    assert!(store.get(id).is_none());
    // The slot count does not shrink: handles are never reused.
    assert_eq!(store.len(), 1);
}

#[test]
fn destroyed_handle_never_iterated_again() {
    let mut store = Store::new();
    let a = store.spawn(enemy_at(0, 0));
    let b = store.spawn(enemy_at(10, 0));
    let c = store.spawn(enemy_at(20, 0));
    store.destroy(b);
    let pairs = store.live_pairs();
    assert_eq!(pairs.len(), 2);
    assert!(pairs.iter().all(|(id, _)| *id != b));
    assert!(pairs.iter().any(|(id, _)| *id == a));
    assert!(pairs.iter().any(|(id, _)| *id == c));
    // Under any filter the selection can only shrink, so the dead handle
    // stays gone; here, a filter on position.
    let filtered: Vec<_> = store
        .live_pairs()
        .into_iter()
        .filter(|(_, e)| e.pos.x >= 0)
        .collect();
    assert!(filtered.iter().all(|(id, _)| *id != b));
}

#[test]
fn destroyed_handle_stays_dead_after_later_spawns() {
    let mut store = Store::new();
    let a = store.spawn(enemy_at(0, 0));
    store.destroy(a);
    let d = store.spawn(enemy_at(5, 5));
    assert_ne!(a, d);
    assert!(store.get(a).is_none());
    let pairs = store.live_pairs();
    assert_eq!(pairs.len(), 1);
    assert!(pairs.iter().all(|(id, _)| *id != a));
}
