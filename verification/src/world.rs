//! The simulation world: the entity store plus the scoreboard, the session
//! state, the fire-edge memory and the enemy fire timer, advanced one
//! fixed tick at a time in the declared order: player weapon, enemy
//! weapon, movement integration, formation bounding, player clamping,
//! collision resolution.

use vstd::prelude::*;

use crate::collision::check_for_collisions;
use crate::collision::resolve_all;
use crate::collision::CollisionOutcome;
use crate::collision::RState;
use crate::config::wf_config;
use crate::config::Config;
use crate::config::ConfigError;
use crate::layout::grid_usable_height;
use crate::layout::grid_usable_width;
use crate::layout::initial_store;
use crate::layout::initial_view;
use crate::layout::lemma_initial_view_props;
use crate::motion::apply_velocity;
use crate::motion::enemy_at_bound;
use crate::motion::flip_view;
use crate::motion::integrate_view;
use crate::motion::lemma_flip_props;
use crate::motion::lemma_integrate_props;
use crate::motion::lemma_move_player_props;
use crate::motion::move_dir;
use crate::motion::move_enemies;
use crate::motion::move_player;
use crate::motion::move_player_view;
use crate::store::lemma_pos_bounded_widen;
use crate::store::one_player;
use crate::store::pos_bounded;
use crate::store::store_wf;
use crate::store::Entity;
use crate::store::EntityId;
use crate::store::Role;
use crate::weapons::after_player_fire;
use crate::weapons::enemy_shots;
use crate::weapons::has_role;
use crate::weapons::lemma_after_player_fire_props;
use crate::weapons::lemma_append_shots_props;
use crate::weapons::shoot_enemy_projectile;
use crate::weapons::shoot_player_projectile;
use crate::weapons::the_player;
use crate::weapons::wf_timer;
use crate::weapons::RepeatTimer;
use crate::DT_LIMIT;
use crate::SIZE_LIMIT;
use crate::SPEED_LIMIT;
use crate::STAGE_POS_LIMIT;
use crate::TICK_POS_LIMIT;

verus! {

/// The per-session state machine: the session runs until the player is
/// destroyed, and `GameOver` is terminal.
#[derive(Clone, Copy, PartialEq, Eq, Structural, Debug)]
pub enum SessionState {
    Running,
    GameOver,
}

/// The input signals one tick consumes, polled once per tick.
#[derive(Clone, Copy, PartialEq, Eq, Structural, Debug)]
pub struct InputState {
    /// The fire action is active this tick (edge-triggered by the world).
    pub fire_down: bool,
    /// The move-left action is held.
    pub left_held: bool,
    /// The move-right action is held.
    pub right_held: bool,
}

/// The whole simulation state.
pub struct World {
    /// All live entities.
    pub store: crate::store::Store,
    /// The configuration the session was started with.
    pub cfg: Config,
    /// Points scored; increments only when an enemy is destroyed.
    pub score: u64,
    /// `Running` while the player lives, `GameOver` for good after it is
    /// destroyed.
    pub session: SessionState,
    /// Whether the fire signal was active on the previous tick.
    pub fire_was_down: bool,
    /// The repeating timer gating enemy volleys.
    pub enemy_timer: RepeatTimer,
}

/// A world every tick accepts and hands back: valid configuration, well
/// formed entities, a unique player, and a well formed fire timer.
pub open spec fn wf_world(w: World) -> bool {
    &&& wf_config(w.cfg)
    &&& store_wf(w.store@)
    &&& one_player(w.store@)
    &&& wf_timer(w.enemy_timer)
}

/// The store view after both weapon stages: first the player's
/// edge-triggered shot, then, if the fire timer elapses, the enemy volley.
pub open spec fn tick_after_weapons(
    v0: Seq<Option<Entity>>,
    c: Config,
    fire_down: bool,
    was_down: bool,
    volley: bool,
) -> Seq<Option<Entity>> {
    let v1 = after_player_fire(v0, c, fire_down, was_down);
    if volley {
        v1 + enemy_shots(v1, c, 0).map_values(|e: Entity| Some(e))
    } else {
        v1
    }
}

/// The store view after the movement stages: integration, then the
/// formation turn if any enemy is at a bound, then the player clamp.
pub open spec fn tick_after_motion(
    v2: Seq<Option<Entity>>,
    c: Config,
    dir: int,
    dt: int,
) -> Seq<Option<Entity>> {
    let v3 = integrate_view(v2, dt);
    let v4 = if enemy_at_bound(v3, c) {
        flip_view(v3)
    } else {
        v3
    };
    move_player_view(v4, c, dir, dt)
}

/// Everything one tick computes from a starting world and its inputs: the
/// final store view, the score, the events, and the session-over flag.
pub open spec fn tick_result(w: World, input: InputState, dt: int) -> RState {
    let volley = w.enemy_timer.elapsed + dt >= w.enemy_timer.period;
    let v2 = tick_after_weapons(w.store@, w.cfg, input.fire_down, w.fire_was_down, volley);
    let v5 = tick_after_motion(v2, w.cfg, move_dir(input.left_held, input.right_held), dt);
    resolve_all(v5, w.score as int, w.session is GameOver)
}

/// The player's remaining lives as the view shows them, if a player is
/// live.
pub open spec fn spec_lives(v: Seq<Option<Entity>>) -> Option<u64> {
    if has_role(v, Role::Player) {
        the_player(v).lives
    } else {
        None
    }
}

impl World {
    /// Build the world at session start: the player on its starting
    /// position with the configured lives, the four walls, the enemy grid,
    /// zero score, a running session, and an idle fire timer. Fails
    /// exactly when the usable width or height for the enemy grid is
    /// non-positive.
    pub fn new(cfg: Config) -> (r: Result<World, ConfigError>)
        requires
            wf_config(cfg),
        ensures
            r is Err <==> (grid_usable_width(cfg) <= 0 || grid_usable_height(cfg) <= 0),
            r matches Err(e) ==> ((e == ConfigError::GridWidthNonPositive <==> grid_usable_width(
                cfg,
            ) <= 0) && (e == ConfigError::GridHeightNonPositive <==> (grid_usable_width(cfg) > 0
                && grid_usable_height(cfg) <= 0))),
            r matches Ok(w) ==> {
                &&& w.store@ == initial_view(cfg)
                &&& w.cfg == cfg
                &&& w.score == 0
                &&& w.session is Running
                &&& !w.fire_was_down
                &&& w.enemy_timer.period == cfg.enemy_fire_period
                &&& w.enemy_timer.elapsed == 0
                &&& wf_world(w)
                &&& pos_bounded(w.store@, TICK_POS_LIMIT as int)
            },
    {
        let store = match initial_store(&cfg) {
            Ok(s) => s,
            Err(e) => {
                return Err(e);
            },
        };
        proof {
            lemma_initial_view_props(cfg);
        }
        Ok(
            World {
                store,
                cfg,
                score: 0,
                session: SessionState::Running,
                fire_was_down: false,
                enemy_timer: RepeatTimer::new(cfg.enemy_fire_period),
            },
        )
    }

    /// Current score.
    pub fn score(&self) -> (r: u64)
        ensures
            r == self.score,
    {
        self.score
    }

    /// Current session state.
    pub fn session(&self) -> (r: SessionState)
        ensures
            r == self.session,
    {
        self.session
    }

    /// The player's remaining lives, if the player is still live.
    pub fn lives(&self) -> (r: Option<u64>)
        requires
            one_player(self.store@),
        ensures
            r == spec_lives(self.store@),
    {
        let n = self.store.len();
        let mut i: usize = 0;
        while i < n
            invariant
                0 <= i <= n,
                n == self.store@.len(),
                forall|j: int|
                    0 <= j < i ==> !crate::store::is_live_role(self.store@, j, Role::Player),
            decreases n - i,
        {
            match self.store.get_at(i) {
                Some(e) => {
                    if matches!(e.role, Role::Player) {
                        proof {
                            assert(crate::store::is_live_role(self.store@, i as int, Role::Player));
                            assert(the_player(self.store@) == e);
                        }
                        return e.lives;
                    }
                },
                None => (),
            }
            i += 1;
        }
        proof {
            assert(!has_role(self.store@, Role::Player));
        }
        None
    }

    /// Number of store slots, live or destroyed.
    pub fn entity_count(&self) -> (n: usize)
        ensures
            n == self.store@.len(),
    {
        self.store.len()
    }

    /// Every live `(handle, entity)` pair, in slot order.
    pub fn live_entities(&self) -> (r: Vec<(EntityId, Entity)>)
        ensures
            r@ == crate::store::live_list(self.store@, 0),
    {
        self.store.live_pairs()
    }

    /// Advance the simulation by one fixed tick: run the player weapon,
    /// the enemy weapon, integrate positions, turn the enemy formation at
    /// the bounds, clamp the player, then resolve collisions. Returns one
    /// event per resolved overlap.
    pub fn tick(&mut self, input: InputState, dt: i64) -> (events: Vec<CollisionOutcome>)
        requires
            wf_world(*old(self)),
            0 < dt <= DT_LIMIT,
            pos_bounded(old(self).store@, TICK_POS_LIMIT as int),
            old(self).score + (2 * old(self).store@.len() + 2) * (2 * old(self).store@.len() + 2)
                <= u64::MAX,
        ensures
            ({
                let res = tick_result(*old(self), input, dt as int);
                &&& final(self).store@ == res.0
                &&& final(self).score == res.1
                &&& events@ == res.2
                &&& final(self).session == (if res.3 {
                    SessionState::GameOver
                } else {
                    SessionState::Running
                })
            }),
            final(self).cfg == old(self).cfg,
            final(self).fire_was_down == input.fire_down,
            final(self).enemy_timer.period == old(self).enemy_timer.period,
            final(self).enemy_timer.elapsed == (old(self).enemy_timer.elapsed + dt) as int % old(
                self,
            ).enemy_timer.period as int,
            wf_world(*final(self)),
            pos_bounded(final(self).store@, STAGE_POS_LIMIT as int),
    {
        let cfg = self.cfg;
        let ghost v0 = self.store@;
        let ghost b0 = TICK_POS_LIMIT as int;
        let ghost n0 = v0.len() as int;

        // Player weapon.
        let mut fwd = self.fire_was_down;
        proof {
            lemma_after_player_fire_props(v0, cfg, input.fire_down, fwd, b0);
        }
        shoot_player_projectile(&mut self.store, &cfg, input.fire_down, &mut fwd);
        self.fire_was_down = fwd;
        let ghost v1 = self.store@;
        let ghost b1 = b0 + SIZE_LIMIT as int;

        // Enemy weapon.
        proof {
            lemma_append_shots_props(v1, cfg, b1);
        }
        shoot_enemy_projectile(&mut self.store, &cfg, &mut self.enemy_timer, dt);
        let ghost volley = old(self).enemy_timer.elapsed + dt >= old(self).enemy_timer.period;
        let ghost v2 = self.store@;
        let ghost b2 = b1 + SIZE_LIMIT as int;
        proof {
            assert(v2 == tick_after_weapons(v0, cfg, input.fire_down, old(self).fire_was_down,
                volley));
            if !volley {
                lemma_pos_bounded_widen(v1, b1, b2);
            }
            assert(store_wf(v2) && one_player(v2) && pos_bounded(v2, b2));
            assert(v2.len() <= 2 * n0 + 2);
        }

        // Movement: integrate, turn the formation, clamp the player.
        proof {
            lemma_pos_bounded_widen(v2, b2, STAGE_POS_LIMIT as int);
            lemma_integrate_props(v2, dt as int, b2);
        }
        apply_velocity(&mut self.store, dt);
        let ghost v3 = self.store@;
        let ghost b3 = b2 + SPEED_LIMIT as int * DT_LIMIT as int;
        proof {
            lemma_flip_props(v3, b3);
        }
        move_enemies(&mut self.store, &cfg);
        let ghost v4 = self.store@;
        proof {
            lemma_move_player_props(
                v4,
                cfg,
                move_dir(input.left_held, input.right_held),
                dt as int,
                b3,
            );
            lemma_pos_bounded_widen(v4, b3, STAGE_POS_LIMIT as int);
        }
        move_player(&mut self.store, &cfg, input.left_held, input.right_held, dt);
        let ghost v5 = self.store@;
        proof {
            assert(v5 == tick_after_motion(v2, cfg, move_dir(input.left_held, input.right_held),
                dt as int));
            lemma_pos_bounded_widen(v5, b3, STAGE_POS_LIMIT as int);
            assert(v5.len() == v2.len());
            assert(v5.len() <= 2 * n0 + 2);
            assert(v5.len() * v5.len() <= (2 * n0 + 2) * (2 * n0 + 2)) by (nonlinear_arith)
                requires
                    0 <= v5.len() <= 2 * n0 + 2,
            ;
        }

        // Collisions.
        let over_in = matches!(self.session, SessionState::GameOver);
        let (new_score, over_out, events) = check_for_collisions(&mut self.store, self.score,
            over_in);
        self.score = new_score;
        self.session = if over_out {
            SessionState::GameOver
        } else {
            SessionState::Running
        };
        events
    }
}

} // verus!
