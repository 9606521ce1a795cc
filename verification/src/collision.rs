//! The collision resolver: every tick, each projectile is tested against
//! each collider in slot order. On the first overlap a projectile is
//! consumed immediately — it despawns at once and can hit nothing further
//! that tick — and the collider takes its consequence: an enemy is
//! destroyed for a point of score, the player loses a life or, on its last
//! life, is destroyed ending the session, a wall merely absorbs the shot.
//! One collision event is emitted per resolved overlap.

use vstd::prelude::*;

use crate::geom::overlaps;
use crate::geom::rects_overlap;
use crate::store::is_live_role;
use crate::store::one_player;
use crate::store::pos_bounded;
use crate::store::store_wf;
use crate::store::Entity;
use crate::store::Role;
use crate::store::Store;
use crate::STAGE_POS_LIMIT;

verus! {

/// What a resolved overlap did, carried on the collision event.
#[derive(Clone, Copy, PartialEq, Eq, Structural, Debug)]
pub enum CollisionOutcome {
    /// A wall absorbed the projectile; only the projectile despawned.
    WallAbsorbed,
    /// An enemy was destroyed and the score incremented.
    EnemyDestroyed,
    /// The player lost one life and persists.
    PlayerDamaged,
    /// The player was on its last life and was destroyed; the session is
    /// over.
    PlayerDestroyed,
}

/// The state a resolution pass folds over: the store view, the absolute
/// score, the events emitted so far, and the session-over flag.
pub type RState = (Seq<Option<Entity>>, int, Seq<CollisionOutcome>, bool);

/// Slot `i` holds a live entity carrying the collider marker.
pub open spec fn is_live_collider(v: Seq<Option<Entity>>, i: int) -> bool {
    0 <= i < v.len() && v[i] is Some && v[i]->0.collider
}

/// The role of a projectile of either side.
pub open spec fn is_projectile_role(r: Role) -> bool {
    r is PlayerProjectile || r is EnemyProjectile
}

/// Slot `i` holds a live projectile.
pub open spec fn is_live_projectile(v: Seq<Option<Entity>>, i: int) -> bool {
    0 <= i < v.len() && v[i] is Some && is_projectile_role(v[i]->0.role)
}

/// Collider `ci` and projectile `pi` are both live and their rectangles
/// overlap.
pub open spec fn pair_hits(v: Seq<Option<Entity>>, ci: int, pi: int) -> bool {
    &&& is_live_collider(v, ci)
    &&& is_live_projectile(v, pi)
    &&& rects_overlap(v[pi]->0.pos, v[pi]->0.size, v[ci]->0.pos, v[ci]->0.size)
}

/// Resolve the single pair `(ci, pi)`: if it hits, despawn the projectile
/// and apply the collider's consequence; otherwise change nothing.
pub open spec fn resolve_pair(s: RState, ci: int, pi: int) -> RState {
    let v = s.0;
    if pair_hits(v, ci, pi) {
        let v1 = v.update(pi, None);
        let c = v[ci]->0;
        match c.role {
            Role::Player => if c.lives->0 == 1 {
                (v1.update(ci, None), s.1, s.2.push(CollisionOutcome::PlayerDestroyed), true)
            } else {
                (
                    v1.update(ci, Some(Entity { lives: Some((c.lives->0 - 1) as u64), ..c })),
                    s.1,
                    s.2.push(CollisionOutcome::PlayerDamaged),
                    s.3,
                )
            },
            Role::Enemy => (
                v1.update(ci, None),
                s.1 + 1,
                s.2.push(CollisionOutcome::EnemyDestroyed),
                s.3,
            ),
            Role::Wall => (v1, s.1, s.2.push(CollisionOutcome::WallAbsorbed), s.3),
            _ => (v1, s.1, s.2, s.3),
        }
    } else {
        s
    }
}

/// Resolve every pair from `(ci, pi)` on, colliders outer and projectiles
/// inner, each pair seeing the effects of the pairs before it.
pub open spec fn resolve_from(s: RState, ci: int, pi: int) -> RState
    decreases s.0.len() - ci, s.0.len() - pi,
{
    if ci < 0 || ci >= s.0.len() {
        s
    } else if pi < 0 || pi >= s.0.len() {
        resolve_from(s, ci + 1, 0)
    } else {
        resolve_from(resolve_pair(s, ci, pi), ci, pi + 1)
    }
}

/// The full resolution pass over a tick's state.
pub open spec fn resolve_all(
    v: Seq<Option<Entity>>,
    score: int,
    game_over: bool,
) -> RState {
    resolve_from((v, score, Seq::empty(), game_over), 0, 0)
}

/// Test every collider against every projectile and resolve each overlap:
/// the projectile despawns at once; an enemy is destroyed and the score
/// incremented; the player loses a life, or on its last life is destroyed
/// and the session-over flag raised; a wall absorbs the shot. Returns the
/// new score, the session-over flag, and one event per resolved overlap.
pub fn check_for_collisions(store: &mut Store, score_in: u64, over_in: bool) -> (r: (
    u64,
    bool,
    Vec<CollisionOutcome>,
))
    requires
        store_wf(old(store)@),
        one_player(old(store)@),
        pos_bounded(old(store)@, STAGE_POS_LIMIT as int),
        score_in + old(store)@.len() * old(store)@.len() <= u64::MAX,
    ensures
        ({
            let res = resolve_all(old(store)@, score_in as int, over_in);
            &&& final(store)@ == res.0
            &&& r.0 == res.1
            &&& r.2@ == res.2
            &&& r.1 == res.3
        }),
        final(store)@.len() == old(store)@.len(),
        store_wf(final(store)@),
        one_player(final(store)@),
        pos_bounded(final(store)@, STAGE_POS_LIMIT as int),
{
    let ghost s0: RState = (old(store)@, score_in as int, Seq::empty(), over_in);
    let n = store.len();
    let mut score = score_in;
    let mut over = over_in;
    let mut events: Vec<CollisionOutcome> = Vec::new();
    let mut ci: usize = 0;
    while ci < n
        invariant
            0 <= ci <= n,
            n == store@.len(),
            store_wf(store@),
            one_player(store@),
            pos_bounded(store@, STAGE_POS_LIMIT as int),
            score <= score_in + ci * n,
            resolve_from((store@, score as int, events@, over), ci as int, 0) == resolve_from(
                s0,
                0,
                0,
            ),
        decreases n - ci,
    {
        let mut pi: usize = 0;
        while pi < n
            invariant
                0 <= ci < n,
                0 <= pi <= n,
                n == store@.len(),
                store_wf(store@),
                one_player(store@),
                pos_bounded(store@, STAGE_POS_LIMIT as int),
                score <= score_in + ci * n + pi,
                resolve_from((store@, score as int, events@, over), ci as int, pi as int)
                    == resolve_from(s0, 0, 0),
            decreases n - pi,
        {
            let ghost cur: RState = (store@, score as int, events@, over);
            let hit: bool = match (store.get_at(ci), store.get_at(pi)) {
                (Some(c), Some(p)) => {
                    c.collider && matches!(
                        p.role,
                        Role::PlayerProjectile | Role::EnemyProjectile,
                    ) && overlaps(p.pos, p.size, c.pos, c.size)
                },
                _ => false,
            };
            proof {
                assert(hit == pair_hits(store@, ci as int, pi as int));
            }
            if hit {
                let c = store.get_at(ci).unwrap();
                store.destroy_at(pi);
                match c.role {
                    Role::Player => {
                        let l = match c.lives {
                            Some(l) => l,
                            None => {
                                proof {
                                    assert(false);
                                }
                                1
                            },
                        };
                        if l == 1 {
                            store.destroy_at(ci);
                            over = true;
                            events.push(CollisionOutcome::PlayerDestroyed);
                        } else {
                            store.set_at(ci, Entity { lives: Some(l - 1), ..c });
                            events.push(CollisionOutcome::PlayerDamaged);
                        }
                    },
                    Role::Enemy => {
                        proof {
                            assert(ci * n + pi + 1 <= n * n) by (nonlinear_arith)
                                requires
                                    0 <= ci < n,
                                    0 <= pi < n,
                            ;
                        }
                        score = score + 1;
                        store.destroy_at(ci);
                        events.push(CollisionOutcome::EnemyDestroyed);
                    },
                    Role::Wall => {
                        events.push(CollisionOutcome::WallAbsorbed);
                    },
                    _ => {
                        proof {
                            assert(false);
                        }
                    },
                }
            }
            proof {
                let stepped = resolve_pair(cur, ci as int, pi as int);
                assert(store@ =~= stepped.0);
                assert(events@ =~= stepped.2);
                assert((store@, score as int, events@, over) == stepped);
                assert(resolve_from(cur, ci as int, pi as int) == resolve_from(
                    stepped,
                    ci as int,
                    pi + 1,
                ));
                assert forall|a: int, b: int|
                    is_live_role(store@, a, Role::Player) && is_live_role(
                        store@,
                        b,
                        Role::Player,
                    ) implies a == b by {
                    assert(is_live_role(cur.0, a, Role::Player));
                    assert(is_live_role(cur.0, b, Role::Player));
                }
            }
            pi += 1;
        }
        proof {
            assert(resolve_from((store@, score as int, events@, over), ci as int, n as int)
                == resolve_from((store@, score as int, events@, over), ci + 1, 0));
            assert((ci + 1) * n == ci * n + n) by (nonlinear_arith);
        }
        ci += 1;
    }
    proof {
        assert(resolve_from((store@, score as int, events@, over), n as int, 0) == (
            store@,
            score as int,
            events@,
            over,
        ));
    }
    (score, over, events)
}

} // verus!
