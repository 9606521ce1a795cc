//! The simulation's stated laws, each proved once and for all over the
//! specification functions that the executable contracts use: integration
//! determinism, lockstep formation turns, the player staying in bounds
//! over any inputs, edge-triggered fire, column fire eligibility, the
//! consequences of a resolved hit, and dead handles never surfacing again.

use vstd::prelude::*;

use crate::collision::is_live_projectile;
use crate::collision::pair_hits;
use crate::collision::resolve_all;
use crate::collision::resolve_from;
use crate::collision::resolve_pair;
use crate::collision::CollisionOutcome;
use crate::collision::RState;
use crate::config::player_left_bound;
use crate::config::player_right_bound;
use crate::config::Config;
use crate::motion::enemy_at_bound;
use crate::motion::flip_view;
use crate::motion::integrate_entity;
use crate::motion::integrate_view;
use crate::motion::lemma_mul_bound;
use crate::store::is_live_role;
use crate::store::live_list;
use crate::store::pos_bounded;
use crate::store::store_wf;
use crate::store::wf_entity;
use crate::store::Entity;
use crate::store::EntityId;
use crate::store::Role;
use crate::weapons::after_player_fire;
use crate::weapons::blocked_below;
use crate::weapons::enemy_can_fire;
use crate::weapons::has_role;
use crate::weapons::player_shot;
use crate::weapons::the_player;
use crate::world::tick_result;
use crate::world::wf_world;
use crate::world::InputState;
use crate::world::World;
use crate::DT_LIMIT;
use crate::SPEED_LIMIT;
use crate::STAGE_POS_LIMIT;
use crate::TICK_POS_LIMIT;

verus! {

/// Integration determinism: one timestep moves every entity holding both
/// a position and a velocity by exactly `velocity * dt`, and touches
/// nothing else about any entity.
pub proof fn lemma_integration_exact(v: Seq<Option<Entity>>, dt: int)
    requires
        store_wf(v),
        pos_bounded(v, STAGE_POS_LIMIT as int),
        0 < dt <= DT_LIMIT,
    ensures
        integrate_view(v, dt).len() == v.len(),
        forall|i: int|
            0 <= i < v.len() && v[i] is Some && v[i]->0.vel is Some ==> {
                let e = v[i]->0;
                let w = #[trigger] integrate_view(v, dt)[i]->0;
                &&& w.pos.x == e.pos.x + e.vel->0.x * dt
                &&& w.pos.y == e.pos.y + e.vel->0.y * dt
                &&& w.size == e.size
                &&& w.vel == e.vel
                &&& w.role == e.role
                &&& w.lives == e.lives
            },
        forall|i: int|
            0 <= i < v.len() && v[i] is Some && v[i]->0.vel is None ==> #[trigger] integrate_view(
                v,
                dt,
            )[i] == v[i],
{
    assert forall|i: int|
        0 <= i < v.len() && v[i] is Some && v[i]->0.vel is Some implies {
        let e = v[i]->0;
        let w = #[trigger] integrate_view(v, dt)[i]->0;
        &&& w.pos.x == e.pos.x + e.vel->0.x * dt
        &&& w.pos.y == e.pos.y + e.vel->0.y * dt
        &&& w.size == e.size
        &&& w.vel == e.vel
        &&& w.role == e.role
        &&& w.lives == e.lives
    } by {
        let e = v[i]->0;
        assert(wf_entity(e));
        lemma_mul_bound(e.vel->0.x as int, dt, SPEED_LIMIT as int, DT_LIMIT as int);
        lemma_mul_bound(e.vel->0.y as int, dt, SPEED_LIMIT as int, DT_LIMIT as int);
        assert(integrate_view(v, dt)[i]->0 == integrate_entity(e, dt));
    }
}

/// Lockstep formation turns: when no enemy is at either interior bound
/// nothing flips; when at least one is at or past a bound, every enemy's
/// horizontal velocity flips sign that tick, and no entity's position,
/// extents or role changes.
pub proof fn lemma_formation_turn(v: Seq<Option<Entity>>, c: Config)
    requires
        store_wf(v),
    ensures
        ({
            let w = if enemy_at_bound(v, c) {
                flip_view(v)
            } else {
                v
            };
            &&& !enemy_at_bound(v, c) ==> w == v
            &&& w.len() == v.len()
            &&& enemy_at_bound(v, c) ==> forall|i: int|
                is_live_role(v, i, Role::Enemy) ==> (#[trigger] w[i])->0.vel->0.x == -v[i]->0.vel->0.x
            &&& forall|i: int|
                0 <= i < v.len() && v[i] is Some ==> {
                    let a = v[i]->0;
                    let b = (#[trigger] w[i])->0;
                    w[i] is Some && b.pos == a.pos && b.size == a.size && b.role == a.role
                        && b.lives == a.lives
                }
        }),
{
    if enemy_at_bound(v, c) {
        let w = flip_view(v);
        assert forall|i: int| is_live_role(v, i, Role::Enemy) implies (#[trigger] w[i])->0.vel->0.x
            == -v[i]->0.vel->0.x by {
            assert(wf_entity(v[i]->0));
            assert(w[i]->0 == crate::motion::flip_enemy(v[i]->0));
        }
        assert forall|i: int| 0 <= i < v.len() && v[i] is Some implies {
            let a = v[i]->0;
            let b = (#[trigger] w[i])->0;
            w[i] is Some && b.pos == a.pos && b.size == a.size && b.role == a.role && b.lives
                == a.lives
        } by {
            assert(w[i]->0 == crate::motion::flip_enemy(v[i]->0));
        }
    }
}

/// Edge-triggered fire: a fire signal that just turned on spawns exactly
/// one player projectile; holding it across further ticks spawns nothing
/// more; releasing spawns nothing; pressing again after a release spawns
/// exactly one more.
pub proof fn lemma_fire_edge_once(v: Seq<Option<Entity>>, c: Config)
    requires
        has_role(v, Role::Player),
    ensures
        ({
            // Press on the first tick, hold on the second.
            let v1 = after_player_fire(v, c, true, false);
            let v2 = after_player_fire(v1, c, true, true);
            // Release on the third, press again on the fourth.
            let v3 = after_player_fire(v2, c, false, true);
            let v4 = after_player_fire(v3, c, true, false);
            &&& v1 == v.push(Some(player_shot(the_player(v), c)))
            &&& v1.len() == v.len() + 1
            &&& v2 == v1
            &&& v3 == v2
            &&& has_role(v3, Role::Player) ==> v4.len() == v3.len() + 1
        }),
{
}

/// A lone enemy in its column is always eligible to fire.
pub proof fn lemma_lone_enemy_fires(v: Seq<Option<Entity>>, i: int)
    requires
        is_live_role(v, i, Role::Enemy),
        forall|j: int|
            is_live_role(v, j, Role::Enemy) && j != i ==> (#[trigger] v[j])->0.pos.x
                != v[i]->0.pos.x,
    ensures
        enemy_can_fire(v, i),
{
    assert(!blocked_below(v, i));
}

/// Only the frontmost enemy of a column may fire: an enemy with another
/// live enemy directly below it (same horizontal center, strictly lower)
/// is never eligible.
pub proof fn lemma_blocked_enemy_holds_fire(v: Seq<Option<Entity>>, lower: int, upper: int)
    requires
        is_live_role(v, lower, Role::Enemy),
        is_live_role(v, upper, Role::Enemy),
        lower != upper,
        v[lower]->0.pos.x == v[upper]->0.pos.x,
        v[lower]->0.pos.y < v[upper]->0.pos.y,
    ensures
        !enemy_can_fire(v, upper),
{
    assert(blocked_below(v, upper));
}

/// What a resolution pass may do between two states: slots only empty or
/// keep their entity with position, extents, velocity, role and collider
/// marker untouched and lives at most what they were; the score never
/// goes down; the session-over flag is never lowered.
pub open spec fn resolve_frame(a: RState, b: RState) -> bool {
    &&& b.0.len() == a.0.len()
    &&& forall|k: int|
        0 <= k < b.0.len() && (#[trigger] b.0[k]) is Some ==> a.0[k] is Some && {
            let x = a.0[k]->0;
            let y = b.0[k]->0;
            &&& y.pos == x.pos
            &&& y.size == x.size
            &&& y.vel == x.vel
            &&& y.role == x.role
            &&& y.collider == x.collider
            &&& (y.lives is Some <==> x.lives is Some)
            &&& (y.lives is Some && 1 <= x.lives->0 ==> 1 <= y.lives->0 <= x.lives->0)
        }
    &&& a.1 <= b.1
    &&& (a.3 ==> b.3)
}

/// The frame relation is reflexive and transitive.
pub proof fn lemma_frame_trans(a: RState, b: RState, c: RState)
    requires
        resolve_frame(a, b),
        resolve_frame(b, c),
    ensures
        resolve_frame(a, c),
{
    assert forall|k: int|
        0 <= k < c.0.len() && (#[trigger] c.0[k]) is Some implies a.0[k] is Some && {
        let x = a.0[k]->0;
        let y = c.0[k]->0;
        &&& y.pos == x.pos
        &&& y.size == x.size
        &&& y.vel == x.vel
        &&& y.role == x.role
        &&& y.collider == x.collider
        &&& (y.lives is Some <==> x.lives is Some)
        &&& (y.lives is Some && 1 <= x.lives->0 ==> 1 <= y.lives->0 <= x.lives->0)
    } by {
        assert(b.0[k] is Some);
    }
}

/// Resolving one pair respects the frame relation and keeps the view
/// well formed.
pub proof fn lemma_resolve_pair_frame(s: RState, ci: int, pi: int)
    requires
        store_wf(s.0),
    ensures
        resolve_frame(s, resolve_pair(s, ci, pi)),
        store_wf(resolve_pair(s, ci, pi).0),
{
    if pair_hits(s.0, ci, pi) {
        assert(wf_entity(s.0[ci]->0));
    }
    let r = resolve_pair(s, ci, pi);
    assert forall|k: int|
        0 <= k < r.0.len() && (#[trigger] r.0[k]) is Some implies s.0[k] is Some && {
        let x = s.0[k]->0;
        let y = r.0[k]->0;
        &&& y.pos == x.pos
        &&& y.size == x.size
        &&& y.vel == x.vel
        &&& y.role == x.role
        &&& y.collider == x.collider
        &&& (y.lives is Some <==> x.lives is Some)
        &&& (y.lives is Some && 1 <= x.lives->0 ==> 1 <= y.lives->0 <= x.lives->0)
    } by {}
}

/// A whole resolution pass respects the frame relation: whatever survives
/// it kept its position, extents, velocity, role and collider marker, and
/// lost no life it still shows; the score is monotone up, lives monotone
/// down, and a session once over stays over.
pub proof fn lemma_resolve_from_frame(s: RState, ci: int, pi: int)
    requires
        store_wf(s.0),
    ensures
        resolve_frame(s, resolve_from(s, ci, pi)),
        store_wf(resolve_from(s, ci, pi).0),
    decreases s.0.len() - ci, s.0.len() - pi,
{
    if ci < 0 || ci >= s.0.len() {
        assert(resolve_frame(s, s));
    } else if pi < 0 || pi >= s.0.len() {
        lemma_resolve_from_frame(s, ci + 1, 0);
    } else {
        let m = resolve_pair(s, ci, pi);
        lemma_resolve_pair_frame(s, ci, pi);
        lemma_resolve_from_frame(m, ci, pi + 1);
        lemma_frame_trans(s, m, resolve_from(m, ci, pi + 1));
    }
}

/// The player never leaves the arena: after any whole tick, from any well
/// formed world and any input signals, a live player's center lies within
/// `[player_left_bound, player_right_bound]`.
pub proof fn lemma_player_in_bounds_after_tick(w: World, input: InputState, dt: int)
    requires
        wf_world(w),
        0 < dt <= DT_LIMIT,
        pos_bounded(w.store@, TICK_POS_LIMIT as int),
    ensures
        forall|k: int|
            is_live_role(#[trigger] tick_result(w, input, dt).0, k, Role::Player)
                ==> player_left_bound(w.cfg) <= tick_result(w, input, dt).0[k]->0.pos.x
                <= player_right_bound(w.cfg),
{
    let c = w.cfg;
    let b0 = TICK_POS_LIMIT as int;
    let b1 = b0 + crate::SIZE_LIMIT as int;
    let b2 = b1 + crate::SIZE_LIMIT as int;
    let b3 = b2 + SPEED_LIMIT as int * DT_LIMIT as int;
    let volley = w.enemy_timer.elapsed + dt >= w.enemy_timer.period;
    let v0 = w.store@;
    let v1 = after_player_fire(v0, c, input.fire_down, w.fire_was_down);
    let v2 = crate::world::tick_after_weapons(v0, c, input.fire_down, w.fire_was_down, volley);
    let v3 = integrate_view(v2, dt);
    let v4 = if enemy_at_bound(v3, c) {
        flip_view(v3)
    } else {
        v3
    };
    let dir = crate::motion::move_dir(input.left_held, input.right_held);
    let v5 = crate::motion::move_player_view(v4, c, dir, dt);
    crate::weapons::lemma_after_player_fire_props(v0, c, input.fire_down, w.fire_was_down, b0);
    crate::weapons::lemma_append_shots_props(v1, c, b1);
    if !volley {
        crate::store::lemma_pos_bounded_widen(v1, b1, b2);
    }
    crate::motion::lemma_integrate_props(v2, dt, b2);
    crate::motion::lemma_flip_props(v3, b3);
    crate::motion::lemma_move_player_props(v4, c, dir, dt, b3);
    let s5: RState = (v5, w.score as int, Seq::empty(), w.session is GameOver);
    let res = resolve_from(s5, 0, 0);
    lemma_resolve_from_frame(s5, 0, 0);
    assert forall|k: int|
        is_live_role(#[trigger] tick_result(w, input, dt).0, k, Role::Player) implies
        player_left_bound(c) <= tick_result(w, input, dt).0[k]->0.pos.x <= player_right_bound(
        c,
    ) by {
        assert(tick_result(w, input, dt) == res);
        assert(res.0[k] is Some);
        assert(v5[k] is Some && v5[k]->0.pos == res.0[k]->0.pos && v5[k]->0.role
            == res.0[k]->0.role);
        assert(v4[k] is Some);
        let e = v4[k]->0;
        assert(e.role is Player);
        assert(v5[k]->0 == crate::motion::moved_player(e, c, dir, dt));
    }
}

/// Resolution over a state with no live projectile changes nothing.
pub proof fn lemma_resolve_no_projectiles(s: RState, ci: int, pi: int)
    requires
        forall|k: int| !is_live_projectile(s.0, k),
    ensures
        resolve_from(s, ci, pi) == s,
    decreases s.0.len() - ci, s.0.len() - pi,
{
    if ci < 0 || ci >= s.0.len() {
    } else if pi < 0 || pi >= s.0.len() {
        lemma_resolve_no_projectiles(s, ci + 1, 0);
    } else {
        assert(!pair_hits(s.0, ci, pi));
        assert(resolve_pair(s, ci, pi) == s);
        lemma_resolve_no_projectiles(s, ci, pi + 1);
    }
}

/// With a single live projectile that overlaps a single collider, the
/// pass from any point at or before that pair resolves exactly that pair.
proof fn lemma_resolve_single_walk(s: RState, ci: int, pi: int, c0: int, p0: int)
    requires
        store_wf(s.0),
        is_live_projectile(s.0, p0),
        forall|k: int| k != p0 ==> !is_live_projectile(s.0, k),
        pair_hits(s.0, c0, p0),
        forall|a: int| a != c0 ==> !pair_hits(s.0, a, p0),
        0 <= ci <= c0 < s.0.len(),
        0 <= pi <= s.0.len(),
        ci == c0 ==> pi <= p0,
        0 <= p0 < s.0.len(),
    ensures
        resolve_from(s, ci, pi) == resolve_from(resolve_pair(s, c0, p0), c0, p0 + 1),
    decreases s.0.len() - ci, s.0.len() - pi,
{
    if ci == c0 && pi == p0 {
    } else if pi >= s.0.len() {
        lemma_resolve_single_walk(s, ci + 1, 0, c0, p0);
    } else {
        assert(!pair_hits(s.0, ci, pi));
        assert(resolve_pair(s, ci, pi) == s);
        lemma_resolve_single_walk(s, ci, pi + 1, c0, p0);
    }
}

/// With a single live projectile overlapping a single collider, the whole
/// pass is exactly the resolution of that one pair.
pub proof fn lemma_resolve_single_hit(s: RState, c0: int, p0: int)
    requires
        store_wf(s.0),
        is_live_projectile(s.0, p0),
        forall|k: int| k != p0 ==> !is_live_projectile(s.0, k),
        pair_hits(s.0, c0, p0),
        forall|a: int| a != c0 ==> !pair_hits(s.0, a, p0),
    ensures
        resolve_from(s, 0, 0) == resolve_pair(s, c0, p0),
{
    assert(wf_entity(s.0[c0]->0));
    assert(c0 != p0);
    let s1 = resolve_pair(s, c0, p0);
    assert forall|k: int| !is_live_projectile(s1.0, k) by {
        if 0 <= k < s1.0.len() {
            if k == p0 {
                assert(s1.0[k] is None);
            } else if k == c0 {
                if s1.0[k] is Some {
                    assert(s1.0[k]->0.role == s.0[c0]->0.role);
                    assert(s.0[c0]->0.collider);
                    assert(!crate::collision::is_projectile_role(s.0[c0]->0.role));
                }
            } else {
                assert(s1.0[k] == s.0[k]);
                assert(!is_live_projectile(s.0, k));
            }
        }
    }
    lemma_resolve_single_walk(s, 0, 0, c0, p0);
    lemma_resolve_no_projectiles(s1, c0, p0 + 1);
}

/// A projectile overlapping an enemy, with no other projectile live and
/// no other collider overlapping it: the same tick removes both and
/// scores exactly one point, emitting one enemy-destroyed event.
pub proof fn lemma_projectile_hits_enemy(
    v: Seq<Option<Entity>>,
    score: int,
    over: bool,
    c0: int,
    p0: int,
)
    requires
        store_wf(v),
        is_live_projectile(v, p0),
        forall|k: int| k != p0 ==> !is_live_projectile(v, k),
        pair_hits(v, c0, p0),
        forall|a: int| a != c0 ==> !pair_hits(v, a, p0),
        v[c0]->0.role is Enemy,
    ensures
        resolve_all(v, score, over) == (
            v.update(p0, None).update(c0, None),
            score + 1,
            seq![CollisionOutcome::EnemyDestroyed],
            over,
        ),
{
    let s: RState = (v, score, Seq::empty(), over);
    lemma_resolve_single_hit(s, c0, p0);
    assert(Seq::empty().push(CollisionOutcome::EnemyDestroyed) =~= seq![
        CollisionOutcome::EnemyDestroyed,
    ]);
}

/// A projectile overlapping a wall, with no other projectile live and no
/// other collider overlapping it: only the projectile is removed; score,
/// session and every other entity are untouched.
pub proof fn lemma_projectile_hits_wall(
    v: Seq<Option<Entity>>,
    score: int,
    over: bool,
    c0: int,
    p0: int,
)
    requires
        store_wf(v),
        is_live_projectile(v, p0),
        forall|k: int| k != p0 ==> !is_live_projectile(v, k),
        pair_hits(v, c0, p0),
        forall|a: int| a != c0 ==> !pair_hits(v, a, p0),
        v[c0]->0.role is Wall,
    ensures
        resolve_all(v, score, over) == (
            v.update(p0, None),
            score,
            seq![CollisionOutcome::WallAbsorbed],
            over,
        ),
{
    let s: RState = (v, score, Seq::empty(), over);
    lemma_resolve_single_hit(s, c0, p0);
    assert(Seq::empty().push(CollisionOutcome::WallAbsorbed) =~= seq![
        CollisionOutcome::WallAbsorbed,
    ]);
}

/// A projectile overlapping the player on its last life, with no other
/// projectile live and no other collider overlapping it: the player
/// entity is removed — its lives never observably reach zero — the
/// session-over flag is raised, and a player-destroyed event is emitted.
pub proof fn lemma_projectile_hits_player_last_life(
    v: Seq<Option<Entity>>,
    score: int,
    over: bool,
    c0: int,
    p0: int,
)
    requires
        store_wf(v),
        is_live_projectile(v, p0),
        forall|k: int| k != p0 ==> !is_live_projectile(v, k),
        pair_hits(v, c0, p0),
        forall|a: int| a != c0 ==> !pair_hits(v, a, p0),
        v[c0]->0.role is Player,
        v[c0]->0.lives == Some(1u64),
    ensures
        resolve_all(v, score, over) == (
            v.update(p0, None).update(c0, None),
            score,
            seq![CollisionOutcome::PlayerDestroyed],
            true,
        ),
{
    let s: RState = (v, score, Seq::empty(), over);
    lemma_resolve_single_hit(s, c0, p0);
    assert(Seq::empty().push(CollisionOutcome::PlayerDestroyed) =~= seq![
        CollisionOutcome::PlayerDestroyed,
    ]);
}

/// A projectile overlapping the player with more than one life left, in
/// the same single-hit setting: the player persists with exactly one life
/// fewer, the session keeps running, and a player-damaged event is
/// emitted.
pub proof fn lemma_projectile_hits_player_spare_life(
    v: Seq<Option<Entity>>,
    score: int,
    over: bool,
    c0: int,
    p0: int,
)
    requires
        store_wf(v),
        is_live_projectile(v, p0),
        forall|k: int| k != p0 ==> !is_live_projectile(v, k),
        pair_hits(v, c0, p0),
        forall|a: int| a != c0 ==> !pair_hits(v, a, p0),
        v[c0]->0.role is Player,
        v[c0]->0.lives->0 >= 2,
    ensures
        resolve_all(v, score, over) == (
            v.update(p0, None).update(
                c0,
                Some(
                    Entity {
                        lives: Some((v[c0]->0.lives->0 - 1) as u64),
                        ..v[c0]->0
                    },
                ),
            ),
            score,
            seq![CollisionOutcome::PlayerDamaged],
            over,
        ),
{
    let s: RState = (v, score, Seq::empty(), over);
    lemma_resolve_single_hit(s, c0, p0);
    assert(Seq::empty().push(CollisionOutcome::PlayerDamaged) =~= seq![
        CollisionOutcome::PlayerDamaged,
    ]);
}

/// A destroyed handle can come back under no filter: iterating the live
/// pairs of a view whose slot for `id` is cleared never yields `id`, so
/// neither does any filtered selection of those pairs.
pub proof fn lemma_dead_handle_not_listed(v: Seq<Option<Entity>>, id: EntityId, i: int)
    requires
        v.len() <= usize::MAX,
        id.idx < v.len(),
        v[id.idx as int] is None,
    ensures
        forall|e: Entity| !live_list(v, i).contains((id, e)),
    decreases v.len() - i,
{
    if i < 0 || i >= v.len() {
    } else {
        lemma_dead_handle_not_listed(v, id, i + 1);
        assert forall|e: Entity| !live_list(v, i).contains((id, e)) by {
            let l = live_list(v, i);
            if l.contains((id, e)) {
                let k = choose|k: int| 0 <= k < l.len() && l[k] == (id, e);
                match v[i] {
                    Some(h) => {
                        assert(l == seq![(EntityId { idx: i as usize }, h)] + live_list(v, i + 1));
                        if k == 0 {
                            assert(l[0] == (EntityId { idx: i as usize }, h));
                            assert(id == EntityId { idx: i as usize });
                            assert(v[id.idx as int] is Some);
                        } else {
                            assert(live_list(v, i + 1)[k - 1] == (id, e));
                            assert(live_list(v, i + 1).contains((id, e)));
                        }
                    },
                    None => {
                        assert(l == live_list(v, i + 1));
                        assert(live_list(v, i + 1).contains((id, e)));
                    },
                }
            }
        }
    }
}

/// Destroying an entity then iterating the store never yields its handle
/// again: the round trip stated over the store's own contracts, whose
/// `destroy` clears the slot and never reuses it.
pub proof fn lemma_destroy_then_iterate(v: Seq<Option<Entity>>, id: EntityId)
    requires
        v.len() <= usize::MAX,
        id.idx < v.len(),
    ensures
        forall|e: Entity|
            !live_list(v.update(id.idx as int, None), 0).contains((id, e)),
{
    lemma_dead_handle_not_listed(v.update(id.idx as int, None), id, 0);
}

} // verus!
