//! The weapon system: player projectiles on an edge-triggered fire signal,
//! enemy projectiles on a repeating interval timer gated by a per-column
//! clear-line-of-fire rule.

use vstd::prelude::*;

use crate::config::wf_config;
use crate::config::Config;
use crate::geom::Vec2i;
use crate::store::is_live_role;
use crate::store::one_player;
use crate::store::pos_bounded;
use crate::store::store_wf;
use crate::store::wf_entity;
use crate::store::Entity;
use crate::store::Role;
use crate::store::Store;
use crate::DT_LIMIT;
use crate::STAGE_POS_LIMIT;

verus! {

/// A repeating interval timer advanced by each tick's timestep; it reports
/// whether the interval just elapsed and then starts over.
#[derive(Clone, Copy, Debug)]
pub struct RepeatTimer {
    pub period: u64,
    pub elapsed: u64,
}

/// A timer whose accumulated time has not yet wrapped past its positive
/// period.
pub open spec fn wf_timer(t: RepeatTimer) -> bool {
    1 <= t.period <= i64::MAX as u64 && t.elapsed < t.period
}

impl RepeatTimer {
    /// A fresh repeating timer with the given positive period.
    pub fn new(period: u64) -> (t: RepeatTimer)
        requires
            1 <= period <= i64::MAX as u64,
        ensures
            t.period == period,
            t.elapsed == 0,
            wf_timer(t),
    {
        RepeatTimer { period, elapsed: 0 }
    }

    /// Advance by `dt` and report whether the interval just finished; on a
    /// finish the remainder is carried into the next interval.
    pub fn advance(&mut self, dt: u64) -> (fired: bool)
        requires
            wf_timer(*old(self)),
            dt <= i64::MAX as u64,
        ensures
            final(self).period == old(self).period,
            fired == (old(self).elapsed + dt >= old(self).period),
            final(self).elapsed == (old(self).elapsed + dt) as int % old(self).period as int,
            wf_timer(*final(self)),
    {
        let e = self.elapsed + dt;
        if e >= self.period {
            self.elapsed = e % self.period;
            true
        } else {
            proof {
                vstd::arithmetic::div_mod::lemma_small_mod(e as nat, self.period as nat);
            }
            self.elapsed = e;
            false
        }
    }
}

/// The fire signal is edge-triggered: it fires only on the tick where the
/// signal turns on, not while it is merely held.
pub open spec fn fire_edge(fire_down: bool, was_down: bool) -> bool {
    fire_down && !was_down
}

/// Some live entity of the view has the given role.
pub open spec fn has_role(v: Seq<Option<Entity>>, role: Role) -> bool {
    exists|i: int| is_live_role(v, i, role)
}

/// The live player entity of a view holding at most one.
pub open spec fn the_player(v: Seq<Option<Entity>>) -> Entity {
    v[choose|i: int| is_live_role(v, i, Role::Player)]->0
}

/// The projectile a player entity fires: spawned at the player's center
/// raised by its half-height, travelling straight up.
pub open spec fn player_shot(p: Entity, c: Config) -> Entity {
    Entity {
        role: Role::PlayerProjectile,
        pos: Vec2i { x: p.pos.x, y: (p.pos.y + p.size.y) as i64 },
        size: c.projectile_half,
        vel: Some(Vec2i { x: 0, y: c.projectile_speed }),
        collider: false,
        lives: None,
    }
}

/// The view after the player weapon runs: one projectile appended when the
/// fire signal just turned on and a player is live; otherwise unchanged.
pub open spec fn after_player_fire(
    v: Seq<Option<Entity>>,
    c: Config,
    fire_down: bool,
    was_down: bool,
) -> Seq<Option<Entity>> {
    if fire_edge(fire_down, was_down) && has_role(v, Role::Player) {
        v.push(Some(player_shot(the_player(v), c)))
    } else {
        v
    }
}

/// The player weapon stage preserves well-formedness, the unique player,
/// and bounded positions, and appends at most one slot.
pub proof fn lemma_after_player_fire_props(
    v: Seq<Option<Entity>>,
    c: Config,
    fire_down: bool,
    was_down: bool,
    b: int,
)
    requires
        wf_config(c),
        store_wf(v),
        one_player(v),
        pos_bounded(v, b),
        crate::SIZE_LIMIT <= b,
        b + crate::SIZE_LIMIT <= crate::STAGE_POS_LIMIT,
    ensures
        ({
            let w = after_player_fire(v, c, fire_down, was_down);
            &&& v.len() <= w.len() <= v.len() + 1
            &&& store_wf(w)
            &&& one_player(w)
            &&& pos_bounded(w, b + crate::SIZE_LIMIT)
        }),
{
    crate::store::lemma_pos_bounded_widen(v, b, b + crate::SIZE_LIMIT);
    if fire_edge(fire_down, was_down) && has_role(v, Role::Player) {
        let i = choose|i: int| is_live_role(v, i, Role::Player);
        assert(is_live_role(v, i, Role::Player));
        let p = v[i]->0;
        assert(wf_entity(p));
        crate::store::lemma_push_props(v, player_shot(p, c), b + crate::SIZE_LIMIT);
    }
}

/// Every projectile of an enemy volley is well formed, sits within one
/// half-extent of its enemy's position, and the volley holds at most one
/// shot per slot.
pub proof fn lemma_enemy_shots_props(v: Seq<Option<Entity>>, c: Config, i: int, b: int)
    requires
        wf_config(c),
        store_wf(v),
        pos_bounded(v, b),
        crate::SIZE_LIMIT <= b,
        b + crate::SIZE_LIMIT <= crate::STAGE_POS_LIMIT,
    ensures
        enemy_shots(v, c, i).len() <= if 0 <= i <= v.len() {
            v.len() - i
        } else {
            0
        },
        forall|k: int|
            0 <= k < enemy_shots(v, c, i).len() ==> {
                let e = #[trigger] enemy_shots(v, c, i)[k];
                &&& wf_entity(e)
                &&& !(e.role is Player)
                &&& -(b + crate::SIZE_LIMIT) <= e.pos.x <= b + crate::SIZE_LIMIT
                &&& -(b + crate::SIZE_LIMIT) <= e.pos.y <= b + crate::SIZE_LIMIT
            },
    decreases v.len() - i,
{
    if i < 0 || i >= v.len() {
    } else {
        lemma_enemy_shots_props(v, c, i + 1, b);
        if enemy_can_fire(v, i) {
            assert(wf_entity(v[i]->0));
        }
    }
}

/// The enemy weapon stage preserves well-formedness, the unique player,
/// and bounded positions, and at most doubles the number of slots.
pub proof fn lemma_append_shots_props(v: Seq<Option<Entity>>, c: Config, b: int)
    requires
        wf_config(c),
        store_wf(v),
        one_player(v),
        pos_bounded(v, b),
        crate::SIZE_LIMIT <= b,
        b + crate::SIZE_LIMIT <= crate::STAGE_POS_LIMIT,
    ensures
        ({
            let w = v + enemy_shots(v, c, 0).map_values(|e: Entity| Some(e));
            &&& w.len() <= 2 * v.len()
            &&& store_wf(w)
            &&& one_player(w)
            &&& pos_bounded(w, b + crate::SIZE_LIMIT)
        }),
{
    lemma_enemy_shots_props(v, c, 0, b);
    let ss = enemy_shots(v, c, 0).map_values(|e: Entity| Some(e));
    let w = v + ss;
    let bb = b + crate::SIZE_LIMIT;
    assert forall|i: int| 0 <= i < w.len() && w[i] is Some implies wf_entity(w[i]->0) && {
        let p = w[i]->0.pos;
        -bb <= p.x <= bb && -bb <= p.y <= bb
    } by {
        if i < v.len() {
            assert(w[i] == v[i]);
        } else {
            assert(w[i] == ss[i - v.len()]);
            assert(w[i]->0 == enemy_shots(v, c, 0)[i - v.len()]);
        }
    }
    assert forall|i: int, j: int|
        is_live_role(w, i, Role::Player) && is_live_role(w, j, Role::Player) implies i == j by {
        if i >= v.len() {
            assert(w[i]->0 == enemy_shots(v, c, 0)[i - v.len()]);
        }
        if j >= v.len() {
            assert(w[j]->0 == enemy_shots(v, c, 0)[j - v.len()]);
        }
        assert(is_live_role(v, i, Role::Player));
        assert(is_live_role(v, j, Role::Player));
    }
}

/// Spawn one player projectile when the fire signal transitions into its
/// active state. Rapid release-and-repress fires once per press; holding
/// the signal does not fire again. `fire_was_down` carries the previous
/// tick's signal and is updated to this tick's.
pub fn shoot_player_projectile(
    store: &mut Store,
    cfg: &Config,
    fire_down: bool,
    fire_was_down: &mut bool,
)
    requires
        wf_config(*cfg),
        store_wf(old(store)@),
        one_player(old(store)@),
        pos_bounded(old(store)@, STAGE_POS_LIMIT as int),
    ensures
        *final(fire_was_down) == fire_down,
        final(store)@ == after_player_fire(old(store)@, *cfg, fire_down, *old(fire_was_down)),
{
    let fire = fire_down && !*fire_was_down;
    *fire_was_down = fire_down;
    if !fire {
        return ;
    }
    let n = store.len();
    let mut i: usize = 0;
    while i < n
        invariant
            0 <= i <= n,
            n == store@.len(),
            store@ == old(store)@,
            forall|j: int| 0 <= j < i ==> !is_live_role(store@, j, Role::Player),
        decreases n - i,
    {
        match store.get_at(i) {
            Some(e) => {
                if matches!(e.role, Role::Player) {
                    proof {
                        assert(is_live_role(store@, i as int, Role::Player));
                        assert(the_player(store@) == e);
                    }
                    store.spawn(
                        Entity {
                            role: Role::PlayerProjectile,
                            pos: Vec2i { x: e.pos.x, y: e.pos.y + e.size.y },
                            size: cfg.projectile_half,
                            vel: Some(Vec2i { x: 0, y: cfg.projectile_speed }),
                            collider: false,
                            lives: None,
                        },
                    );
                    return ;
                }
            },
            None => (),
        }
        i += 1;
    }
    proof {
        assert(!has_role(store@, Role::Player));
    }
}

/// Another live enemy stands directly below enemy `i`: same horizontal
/// center, strictly smaller vertical center.
pub open spec fn blocked_below(v: Seq<Option<Entity>>, i: int) -> bool {
    exists|j: int|
        #[trigger] is_live_role(v, j, Role::Enemy) && j != i && v[j]->0.pos.x == v[i]->0.pos.x
            && v[j]->0.pos.y < v[i]->0.pos.y
}

/// As `blocked_below`, considering blockers among the first `n` slots only.
pub open spec fn blocked_below_upto(v: Seq<Option<Entity>>, i: int, n: int) -> bool {
    exists|j: int|
        j < n && #[trigger] is_live_role(v, j, Role::Enemy) && j != i && v[j]->0.pos.x
            == v[i]->0.pos.x && v[j]->0.pos.y < v[i]->0.pos.y
}

/// Enemy `i` may fire: it is the frontmost (lowest) live enemy of its
/// column. A lone enemy in its column is always eligible. Columns are
/// matched by exact equality of horizontal centers.
pub open spec fn enemy_can_fire(v: Seq<Option<Entity>>, i: int) -> bool {
    is_live_role(v, i, Role::Enemy) && !blocked_below(v, i)
}

/// Whether the live enemy in slot `i` may fire: no other live enemy shares
/// its horizontal center with a strictly smaller vertical center.
pub fn enemy_can_fire_at(store: &Store, i: usize) -> (r: bool)
    ensures
        r == enemy_can_fire(store@, i as int),
{
    let n = store.len();
    let e = match store.get_at(i) {
        Some(e) => e,
        None => {
            return false;
        },
    };
    if !matches!(e.role, Role::Enemy) {
        return false;
    }
    proof {
        assert(is_live_role(store@, i as int, Role::Enemy));
    }
    let mut j: usize = 0;
    let mut blocked = false;
    while j < n
        invariant
            0 <= j <= n,
            n == store@.len(),
            i < n,
            store@[i as int] == Some(e),
            blocked == blocked_below_upto(store@, i as int, j as int),
        decreases n - j,
    {
        if j != i {
            match store.get_at(j) {
                Some(b) => {
                    if matches!(b.role, Role::Enemy) && b.pos.x == e.pos.x && b.pos.y < e.pos.y {
                        proof {
                            assert(is_live_role(store@, j as int, Role::Enemy));
                        }
                        blocked = true;
                    }
                },
                None => (),
            }
        }
        j += 1;
    }
    proof {
        assert(blocked == blocked_below(store@, i as int));
    }
    !blocked
}

/// The projectile an enemy entity fires: spawned at the enemy's center
/// lowered by its half-height, travelling straight down.
pub open spec fn enemy_shot(e: Entity, c: Config) -> Entity {
    Entity {
        role: Role::EnemyProjectile,
        pos: Vec2i { x: e.pos.x, y: (e.pos.y - e.size.y) as i64 },
        size: c.projectile_half,
        vel: Some(Vec2i { x: 0, y: (-c.projectile_speed) as i64 }),
        collider: false,
        lives: None,
    }
}

/// The projectiles fired by the eligible enemies in slots `i` and up, in
/// slot order: one per enemy with a clear line of fire.
pub open spec fn enemy_shots(v: Seq<Option<Entity>>, c: Config, i: int) -> Seq<Entity>
    decreases v.len() - i,
{
    if i < 0 || i >= v.len() {
        Seq::empty()
    } else if enemy_can_fire(v, i) {
        seq![enemy_shot(v[i]->0, c)] + enemy_shots(v, c, i + 1)
    } else {
        enemy_shots(v, c, i + 1)
    }
}

/// Advance the enemy fire timer by `dt`; when the interval elapses, every
/// enemy with a clear line of fire — no other enemy of its column strictly
/// below it — fires one projectile, all simultaneously, in slot order.
pub fn shoot_enemy_projectile(store: &mut Store, cfg: &Config, timer: &mut RepeatTimer, dt: i64)
    requires
        wf_config(*cfg),
        wf_timer(*old(timer)),
        0 < dt <= DT_LIMIT,
        store_wf(old(store)@),
        pos_bounded(old(store)@, STAGE_POS_LIMIT as int),
    ensures
        final(timer).period == old(timer).period,
        final(timer).elapsed == (old(timer).elapsed + dt) as int % old(timer).period as int,
        wf_timer(*final(timer)),
        final(store)@ == if old(timer).elapsed + dt >= old(timer).period {
            old(store)@ + enemy_shots(old(store)@, *cfg, 0).map_values(|e: Entity| Some(e))
        } else {
            old(store)@
        },
{
    let fired = timer.advance(dt as u64);
    if !fired {
        return ;
    }
    let ghost v = store@;
    let n = store.len();
    let mut shots: Vec<Entity> = Vec::new();
    let mut i: usize = 0;
    while i < n
        invariant
            0 <= i <= n,
            n == store@.len(),
            store@ == v,
            shots@ + enemy_shots(v, *cfg, i as int) == enemy_shots(v, *cfg, 0),
        decreases n - i,
    {
        let ghost prev = shots@;
        if enemy_can_fire_at(store, i) {
            match store.get_at(i) {
                Some(e) => {
                    shots.push(
                        Entity {
                            role: Role::EnemyProjectile,
                            pos: Vec2i { x: e.pos.x, y: e.pos.y - e.size.y },
                            size: cfg.projectile_half,
                            vel: Some(Vec2i { x: 0, y: -cfg.projectile_speed }),
                            collider: false,
                            lives: None,
                        },
                    );
                    proof {
                        assert(enemy_shots(v, *cfg, i as int) == seq![enemy_shot(e, *cfg)]
                            + enemy_shots(v, *cfg, i + 1));
                        assert(shots@ + enemy_shots(v, *cfg, i + 1) =~= prev + enemy_shots(
                            v,
                            *cfg,
                            i as int,
                        ));
                    }
                },
                None => {
                    proof {
                        assert(false);
                    }
                },
            }
        } else {
            proof {
                assert(enemy_shots(v, *cfg, i as int) == enemy_shots(v, *cfg, i + 1));
            }
        }
        i += 1;
    }
    proof {
        assert(enemy_shots(v, *cfg, n as int) == Seq::<Entity>::empty());
        assert(shots@ =~= enemy_shots(v, *cfg, 0));
    }
    let m = shots.len();
    let mut k: usize = 0;
    while k < m
        invariant
            0 <= k <= m,
            m == shots@.len(),
            shots@ == enemy_shots(v, *cfg, 0),
            store@ == v + shots@.subrange(0, k as int).map_values(|e: Entity| Some(e)),
        decreases m - k,
    {
        let ghost before = store@;
        let e = shots[k];
        store.spawn(e);
        proof {
            assert(shots@.subrange(0, k + 1) =~= shots@.subrange(0, k as int).push(e));
            assert(store@ =~= v + shots@.subrange(0, k + 1).map_values(
                |x: Entity| Some(x),
            ));
        }
        k += 1;
    }
    proof {
        assert(shots@.subrange(0, m as int) =~= shots@);
        assert(store@ =~= v + enemy_shots(v, *cfg, 0).map_values(|e: Entity| Some(e)));
    }
}

} // verus!
