//! The movement integrator: fixed-timestep position integration for every
//! entity with a velocity, the formation-wide turn when any enemy reaches a
//! side bound, and clamping of the player into the arena.

use vstd::prelude::*;

use crate::config::enemy_left_bound;
use crate::config::enemy_right_bound;
use crate::config::player_left_bound;
use crate::config::player_right_bound;
use crate::config::wf_config;
use crate::config::Config;
use crate::geom::clamp_i64;
use crate::geom::clamp_spec;
use crate::geom::Vec2i;
use crate::store::is_live_role;
use crate::store::one_player;
use crate::store::pos_bounded;
use crate::store::store_wf;
use crate::store::wf_entity;
use crate::store::Entity;
use crate::store::Role;
use crate::store::Store;
use crate::DT_LIMIT;
use crate::SPEED_LIMIT;
use crate::STAGE_POS_LIMIT;

verus! {

/// A product of two factors bounded in magnitude is bounded by the product
/// of the bounds.
pub proof fn lemma_mul_bound(v: int, t: int, vb: int, tb: int)
    requires
        -vb <= v <= vb,
        0 <= t <= tb,
    ensures
        -vb * tb <= v * t <= vb * tb,
        v >= 0 ==> v * t >= 0,
{
    assert(-vb * tb <= v * t <= vb * tb && (v >= 0 ==> v * t >= 0)) by (nonlinear_arith)
        requires
            -vb <= v <= vb,
            0 <= t <= tb,
    ;
}

/// `e` advanced by its velocity over a timestep of `dt`: for an entity
/// holding both components, `position' = position + velocity * dt`;
/// an entity without a velocity does not move.
pub open spec fn integrate_entity(e: Entity, dt: int) -> Entity {
    match e.vel {
        Some(v) => Entity {
            pos: Vec2i { x: (e.pos.x + v.x * dt) as i64, y: (e.pos.y + v.y * dt) as i64 },
            ..e
        },
        None => e,
    }
}

/// The whole view advanced by one timestep.
pub open spec fn integrate_view(v: Seq<Option<Entity>>, dt: int) -> Seq<Option<Entity>> {
    v.map_values(
        |oe: Option<Entity>|
            match oe {
                Some(e) => Some(integrate_entity(e, dt)),
                None => None,
            },
    )
}

/// Advance every entity holding both a position and a velocity by
/// `velocity * dt`. Called once per fixed tick with a constant `dt`, so the
/// simulation is deterministic whatever the presentation frame rate.
pub fn apply_velocity(store: &mut Store, dt: i64)
    requires
        0 < dt <= DT_LIMIT,
        store_wf(old(store)@),
        pos_bounded(old(store)@, STAGE_POS_LIMIT as int),
    ensures
        final(store)@ == integrate_view(old(store)@, dt as int),
{
    let n = store.len();
    let mut i: usize = 0;
    while i < n
        invariant
            0 <= i <= n,
            n == old(store)@.len(),
            store@.len() == n,
            forall|j: int| 0 <= j < i ==> store@[j] == #[trigger] integrate_view(
                old(store)@,
                dt as int,
            )[j],
            forall|j: int| i <= j < n ==> store@[j] == old(store)@[j],
        decreases n - i,
    {
        match store.get_at(i) {
            Some(e) => {
                match e.vel {
                    Some(v) => {
                        proof {
                            lemma_mul_bound(v.x as int, dt as int, SPEED_LIMIT as int,
                                DT_LIMIT as int);
                            lemma_mul_bound(v.y as int, dt as int, SPEED_LIMIT as int,
                                DT_LIMIT as int);
                        }
                        let nx = e.pos.x + v.x * dt;
                        let ny = e.pos.y + v.y * dt;
                        store.set_at(i, Entity { pos: Vec2i { x: nx, y: ny }, ..e });
                    },
                    None => (),
                }
            },
            None => (),
        }
        i += 1;
    }
    proof {
        assert(store@ =~= integrate_view(old(store)@, dt as int));
    }
}

/// Integration preserves well-formedness, the unique player, and the
/// length of the view, and moves each position by at most one largest
/// step.
pub proof fn lemma_integrate_props(v: Seq<Option<Entity>>, dt: int, b: int)
    requires
        store_wf(v),
        pos_bounded(v, b),
        0 < dt <= DT_LIMIT,
        0 <= b <= STAGE_POS_LIMIT,
    ensures
        integrate_view(v, dt).len() == v.len(),
        store_wf(integrate_view(v, dt)),
        one_player(v) ==> one_player(integrate_view(v, dt)),
        pos_bounded(integrate_view(v, dt), b + SPEED_LIMIT * DT_LIMIT),
{
    let w = integrate_view(v, dt);
    let bb = b + SPEED_LIMIT * DT_LIMIT;
    assert forall|i: int| 0 <= i < w.len() && w[i] is Some implies wf_entity(w[i]->0) && {
        let p = w[i]->0.pos;
        -bb <= p.x <= bb && -bb <= p.y <= bb
    } by {
        assert(v[i] is Some);
        let e = v[i]->0;
        assert(wf_entity(e));
        match e.vel {
            Some(vel) => {
                lemma_mul_bound(vel.x as int, dt, SPEED_LIMIT as int, DT_LIMIT as int);
                lemma_mul_bound(vel.y as int, dt, SPEED_LIMIT as int, DT_LIMIT as int);
                assert(w[i]->0 == integrate_entity(e, dt));
            },
            None => {
                assert(w[i]->0 == e);
            },
        }
    }
    if one_player(v) {
        assert forall|i: int, j: int|
            is_live_role(w, i, Role::Player) && is_live_role(w, j, Role::Player) implies i
            == j by {
            assert(is_live_role(v, i, Role::Player));
            assert(is_live_role(v, j, Role::Player));
        }
    }
}

/// Flipping the formation's direction preserves well-formedness, the
/// unique player, positions, and the length of the view.
pub proof fn lemma_flip_props(v: Seq<Option<Entity>>, b: int)
    requires
        store_wf(v),
        pos_bounded(v, b),
    ensures
        flip_view(v).len() == v.len(),
        store_wf(flip_view(v)),
        one_player(v) ==> one_player(flip_view(v)),
        pos_bounded(flip_view(v), b),
{
    let w = flip_view(v);
    assert forall|i: int| 0 <= i < w.len() && w[i] is Some implies wf_entity(w[i]->0) && {
        let p = w[i]->0.pos;
        -b <= p.x <= b && -b <= p.y <= b
    } by {
        assert(v[i] is Some);
        assert(wf_entity(v[i]->0));
        assert(w[i]->0 == flip_enemy(v[i]->0));
    }
    if one_player(v) {
        assert forall|i: int, j: int|
            is_live_role(w, i, Role::Player) && is_live_role(w, j, Role::Player) implies i
            == j by {
            assert(is_live_role(v, i, Role::Player));
            assert(is_live_role(v, j, Role::Player));
        }
    }
}

/// Moving and clamping the player preserves well-formedness, the unique
/// player, and the length of the view, and keeps positions bounded by the
/// larger of the old bound and the clamp interval's magnitude.
pub proof fn lemma_move_player_props(v: Seq<Option<Entity>>, c: Config, dir: int, dt: int, b: int)
    requires
        wf_config(c),
        store_wf(v),
        pos_bounded(v, b),
        8 * crate::LAYOUT_LIMIT <= b <= STAGE_POS_LIMIT,
        -1 <= dir <= 1,
        0 < dt <= DT_LIMIT,
    ensures
        move_player_view(v, c, dir, dt).len() == v.len(),
        store_wf(move_player_view(v, c, dir, dt)),
        one_player(v) ==> one_player(move_player_view(v, c, dir, dt)),
        pos_bounded(move_player_view(v, c, dir, dt), b),
{
    let w = move_player_view(v, c, dir, dt);
    assert forall|i: int| 0 <= i < w.len() && w[i] is Some implies wf_entity(w[i]->0) && {
        let p = w[i]->0.pos;
        -b <= p.x <= b && -b <= p.y <= b
    } by {
        assert(v[i] is Some);
        let e = v[i]->0;
        assert(wf_entity(e));
        if e.role is Player {
            lemma_mul_bound(c.player_speed as int, dt, SPEED_LIMIT as int, DT_LIMIT as int);
            lemma_mul_bound(dir, c.player_speed * dt, 1, SPEED_LIMIT as int * DT_LIMIT as int);
            assert(w[i]->0 == moved_player(e, c, dir, dt));
        } else {
            assert(w[i]->0 == e);
        }
    }
    if one_player(v) {
        assert forall|i: int, j: int|
            is_live_role(w, i, Role::Player) && is_live_role(w, j, Role::Player) implies i
            == j by {
            assert(is_live_role(v, i, Role::Player));
            assert(is_live_role(v, j, Role::Player));
        }
    }
}

/// Some live enemy's center has reached or passed the configured left or
/// right interior bound.
pub open spec fn enemy_at_bound(v: Seq<Option<Entity>>, c: Config) -> bool {
    exists|i: int|
        #[trigger] is_live_role(v, i, Role::Enemy) && (v[i]->0.pos.x <= enemy_left_bound(c)
            || v[i]->0.pos.x >= enemy_right_bound(c))
}

/// As `enemy_at_bound`, over the first `n` slots only.
pub open spec fn enemy_at_bound_upto(v: Seq<Option<Entity>>, c: Config, n: int) -> bool {
    exists|i: int|
        i < n && #[trigger] is_live_role(v, i, Role::Enemy) && (v[i]->0.pos.x <= enemy_left_bound(c)
            || v[i]->0.pos.x >= enemy_right_bound(c))
}

/// `e` with the sign of its horizontal velocity flipped, if it is an enemy;
/// any other entity is unchanged.
pub open spec fn flip_enemy(e: Entity) -> Entity {
    if e.role is Enemy && e.vel is Some {
        Entity { vel: Some(Vec2i { x: (-e.vel->0.x) as i64, y: e.vel->0.y }), ..e }
    } else {
        e
    }
}

/// The whole view with every enemy's horizontal velocity flipped.
pub open spec fn flip_view(v: Seq<Option<Entity>>) -> Seq<Option<Entity>> {
    v.map_values(
        |oe: Option<Entity>|
            match oe {
                Some(e) => Some(flip_enemy(e)),
                None => None,
            },
    )
}

/// Turn the enemy formation when it reaches a side: if any live enemy is at
/// or past either interior bound, flip the horizontal velocity of every
/// enemy, in lockstep; if none is, change nothing. The check is
/// "any triggers all": no enemy turns alone.
pub fn move_enemies(store: &mut Store, cfg: &Config)
    requires
        wf_config(*cfg),
        store_wf(old(store)@),
    ensures
        final(store)@ == if enemy_at_bound(old(store)@, *cfg) {
            flip_view(old(store)@)
        } else {
            old(store)@
        },
{
    let (left_bound, right_bound) = cfg.enemy_bounds();
    let n = store.len();
    let mut reverse = false;
    let mut i: usize = 0;
    while i < n
        invariant
            0 <= i <= n,
            n == store@.len(),
            reverse == enemy_at_bound_upto(store@, *cfg, i as int),
        decreases n - i,
    {
        match store.get_at(i) {
            Some(e) => {
                if matches!(e.role, Role::Enemy) && (e.pos.x <= left_bound || e.pos.x
                    >= right_bound) {
                    proof {
                        assert(is_live_role(store@, i as int, Role::Enemy));
                    }
                    reverse = true;
                }
            },
            None => (),
        }
        i += 1;
    }
    proof {
        assert(reverse == enemy_at_bound(store@, *cfg));
    }
    if !reverse {
        return ;
    }
    let mut i: usize = 0;
    while i < n
        invariant
            0 <= i <= n,
            n == old(store)@.len(),
            store@.len() == n,
            store_wf(old(store)@),
            forall|j: int| 0 <= j < i ==> store@[j] == #[trigger] flip_view(old(store)@)[j],
            forall|j: int| i <= j < n ==> store@[j] == old(store)@[j],
        decreases n - i,
    {
        match store.get_at(i) {
            Some(e) => {
                match e.vel {
                    Some(v) => {
                        if matches!(e.role, Role::Enemy) {
                            store.set_at(
                                i,
                                Entity { vel: Some(Vec2i { x: -v.x, y: v.y }), ..e },
                            );
                        }
                    },
                    None => (),
                }
            },
            None => (),
        }
        i += 1;
    }
    proof {
        assert(store@ =~= flip_view(old(store)@));
    }
}

/// The direction a held pair of move signals asks for: `-1`, `0` or `1`.
pub open spec fn move_dir(left_held: bool, right_held: bool) -> int {
    (if right_held {
        1int
    } else {
        0int
    }) - (if left_held {
        1int
    } else {
        0int
    })
}

/// The player moved by its speed in the held direction and clamped into
/// the interior bounds; its vertical position never changes.
pub open spec fn moved_player(e: Entity, c: Config, dir: int, dt: int) -> Entity {
    Entity {
        pos: Vec2i {
            x: clamp_spec(
                e.pos.x + dir * (c.player_speed * dt),
                player_left_bound(c),
                player_right_bound(c),
            ) as i64,
            y: e.pos.y,
        },
        ..e
    }
}

/// The whole view with the player moved and clamped.
pub open spec fn move_player_view(
    v: Seq<Option<Entity>>,
    c: Config,
    dir: int,
    dt: int,
) -> Seq<Option<Entity>> {
    v.map_values(
        |oe: Option<Entity>|
            match oe {
                Some(e) => if e.role is Player {
                    Some(moved_player(e, c, dir, dt))
                } else {
                    Some(e)
                },
                None => None,
            },
    )
}

/// Move the player horizontally by the held move signals and clamp its
/// center into `[player_left_bound, player_right_bound]`. The player never
/// moves vertically.
pub fn move_player(store: &mut Store, cfg: &Config, left_held: bool, right_held: bool, dt: i64)
    requires
        wf_config(*cfg),
        0 < dt <= DT_LIMIT,
        store_wf(old(store)@),
        pos_bounded(old(store)@, STAGE_POS_LIMIT as int),
    ensures
        final(store)@ == move_player_view(
            old(store)@,
            *cfg,
            move_dir(left_held, right_held),
            dt as int,
        ),
{
    let dir: i64 = (if right_held {
        1i64
    } else {
        0i64
    }) - (if left_held {
        1i64
    } else {
        0i64
    });
    let (left_bound, right_bound) = cfg.player_bounds();
    let n = store.len();
    let mut i: usize = 0;
    while i < n
        invariant
            0 <= i <= n,
            n == old(store)@.len(),
            store@.len() == n,
            dir == move_dir(left_held, right_held),
            forall|j: int| 0 <= j < i ==> store@[j] == #[trigger] move_player_view(
                old(store)@,
                *cfg,
                move_dir(left_held, right_held),
                dt as int,
            )[j],
            forall|j: int| i <= j < n ==> store@[j] == old(store)@[j],
        decreases n - i,
    {
        match store.get_at(i) {
            Some(e) => {
                if matches!(e.role, Role::Player) {
                    proof {
                        lemma_mul_bound(
                            cfg.player_speed as int,
                            dt as int,
                            SPEED_LIMIT as int,
                            DT_LIMIT as int,
                        );
                    }
                    let step = cfg.player_speed * dt;
                    proof {
                        assert(store@[i as int] == old(store)@[i as int]);
                        assert(-STAGE_POS_LIMIT <= e.pos.x <= STAGE_POS_LIMIT);
                        assert(-(step as int) <= dir as int * step as int <= step as int)
                            by (nonlinear_arith)
                            requires
                                -1 <= dir <= 1,
                                0 <= step,
                        ;
                    }
                    let moved = e.pos.x + dir * step;
                    let nx = clamp_i64(moved, left_bound, right_bound);
                    store.set_at(i, Entity { pos: Vec2i { x: nx, y: e.pos.y }, ..e });
                }
            },
            None => (),
        }
        i += 1;
    }
    proof {
        assert(store@ =~= move_player_view(
            old(store)@,
            *cfg,
            move_dir(left_held, right_held),
            dt as int,
        ));
    }
}

} // verus!
