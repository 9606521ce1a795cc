//! The entity store: an arena of slots holding each live entity's
//! components. Destroying an entity clears its slot; slots are never
//! reused, so a destroyed handle can never surface again.

use vstd::prelude::*;

use crate::geom::Vec2i;
use crate::SIZE_LIMIT;
use crate::SPEED_LIMIT;

verus! {

/// What an entity is for: its role decides which systems act on it and
/// what a collision with it means.
#[derive(Clone, Copy, PartialEq, Eq, Structural, Debug)]
pub enum Role {
    Player,
    Enemy,
    Wall,
    PlayerProjectile,
    EnemyProjectile,
}

/// One entity's components: world-space center position, rectangle
/// half-extents, optional linear velocity, role tag, collider marker,
/// and, on the player only, remaining lives.
#[derive(Clone, Copy, Debug)]
pub struct Entity {
    pub role: Role,
    pub pos: Vec2i,
    pub size: Vec2i,
    pub vel: Option<Vec2i>,
    pub collider: bool,
    pub lives: Option<u64>,
}

/// A handle into the store. Slot indices are never reused, so a handle
/// stays dead once its entity is destroyed.
#[derive(Clone, Copy, PartialEq, Eq, Structural, Debug)]
pub struct EntityId {
    pub idx: usize,
}

struct Slot {
    alive: bool,
    ent: Entity,
}

/// The arena. Its view is a sequence of slots: `Some(entity)` where the
/// slot is live, `None` where it is empty or was destroyed.
pub struct Store {
    slots: Vec<Slot>,
}

/// Component consistency for a single entity: positive bounded extents,
/// bounded velocity, lives exactly on the player, the collider marker on
/// player, enemy and wall, velocity always on enemies and projectiles and
/// never on walls.
pub open spec fn wf_entity(e: Entity) -> bool {
    &&& 0 < e.size.x <= SIZE_LIMIT
    &&& 0 < e.size.y <= SIZE_LIMIT
    &&& match e.vel {
        Some(v) => -SPEED_LIMIT <= v.x <= SPEED_LIMIT && -SPEED_LIMIT <= v.y <= SPEED_LIMIT,
        None => true,
    }
    &&& (e.lives is Some <==> e.role is Player)
    &&& (e.role is Player ==> e.collider && e.lives->0 >= 1)
    &&& (e.role is Enemy ==> e.collider && e.vel is Some)
    &&& (e.role is Wall ==> e.collider && e.vel is None)
    &&& (e.role is PlayerProjectile ==> !e.collider && e.vel is Some)
    &&& (e.role is EnemyProjectile ==> !e.collider && e.vel is Some)
}

/// Every live entity of the view is well formed.
pub open spec fn store_wf(v: Seq<Option<Entity>>) -> bool {
    forall|i: int| 0 <= i < v.len() && v[i] is Some ==> wf_entity(#[trigger] v[i]->0)
}

/// Slot `i` holds a live entity with the given role.
pub open spec fn is_live_role(v: Seq<Option<Entity>>, i: int, role: Role) -> bool {
    0 <= i < v.len() && v[i] is Some && v[i]->0.role == role
}

/// At most one live player entity.
pub open spec fn one_player(v: Seq<Option<Entity>>) -> bool {
    forall|i: int, j: int|
        is_live_role(v, i, Role::Player) && is_live_role(v, j, Role::Player) ==> i == j
}

/// Every live coordinate has magnitude at most `b`.
pub open spec fn pos_bounded(v: Seq<Option<Entity>>, b: int) -> bool {
    forall|i: int|
        0 <= i < v.len() && v[i] is Some ==> {
            let p = (#[trigger] v[i])->0.pos;
            -b <= p.x <= b && -b <= p.y <= b
        }
}

/// The live `(handle, entity)` pairs of the view from index `i` on, in
/// index order.
pub open spec fn live_list(v: Seq<Option<Entity>>, i: int) -> Seq<(EntityId, Entity)>
    decreases v.len() - i,
{
    if i < 0 || i >= v.len() {
        Seq::empty()
    } else {
        match v[i] {
            Some(e) => seq![(EntityId { idx: i as usize }, e)] + live_list(v, i + 1),
            None => live_list(v, i + 1),
        }
    }
}

/// A position bound also holds for any larger bound.
pub proof fn lemma_pos_bounded_widen(v: Seq<Option<Entity>>, a: int, b: int)
    requires
        pos_bounded(v, a),
        a <= b,
    ensures
        pos_bounded(v, b),
{
}

/// Appending a well-formed non-player entity keeps the view well formed,
/// keeps the player unique, and keeps positions bounded as far as the new
/// entity's position is.
pub proof fn lemma_push_props(v: Seq<Option<Entity>>, e: Entity, b: int)
    requires
        store_wf(v),
        one_player(v),
        pos_bounded(v, b),
        wf_entity(e),
        !(e.role is Player),
        -b <= e.pos.x <= b,
        -b <= e.pos.y <= b,
    ensures
        store_wf(v.push(Some(e))),
        one_player(v.push(Some(e))),
        pos_bounded(v.push(Some(e)), b),
{
    let w = v.push(Some(e));
    assert forall|i: int| 0 <= i < w.len() && w[i] is Some implies wf_entity(w[i]->0) by {
        if i < v.len() {
            assert(w[i] == v[i]);
        } else {
            assert(w[i] == Some(e));
        }
    }
    assert forall|i: int, j: int|
        is_live_role(w, i, Role::Player) && is_live_role(w, j, Role::Player) implies i == j by {
        assert(w[i] == if i < v.len() {
            v[i]
        } else {
            Some(e)
        });
        assert(w[j] == if j < v.len() {
            v[j]
        } else {
            Some(e)
        });
        assert(is_live_role(v, i, Role::Player));
        assert(is_live_role(v, j, Role::Player));
    }
    assert forall|i: int| 0 <= i < w.len() && w[i] is Some implies {
        let p = w[i]->0.pos;
        -b <= p.x <= b && -b <= p.y <= b
    } by {
        if i < v.len() {
            assert(w[i] == v[i]);
        } else {
            assert(w[i] == Some(e));
        }
    }
}

impl View for Store {
    type V = Seq<Option<Entity>>;

    closed spec fn view(&self) -> Seq<Option<Entity>> {
        self.slots@.map(|_i: int, s: Slot| if s.alive {
            Some(s.ent)
        } else {
            None
        })
    }
}

impl Store {
    /// An empty store.
    pub fn new() -> (s: Store)
        ensures
            s@ == Seq::<Option<Entity>>::empty(),
    {
        let s = Store { slots: Vec::new() };
        proof {
            assert(s@ =~= Seq::<Option<Entity>>::empty());
        }
        s
    }

    /// Number of slots, live or dead.
    pub fn len(&self) -> (n: usize)
        ensures
            n == self@.len(),
    {
        self.slots.len()
    }

    /// Add a new live entity in a fresh slot and hand back its handle.
    pub fn spawn(&mut self, e: Entity) -> (id: EntityId)
        ensures
            final(self)@ == old(self)@.push(Some(e)),
            id.idx == old(self)@.len(),
    {
        let id = EntityId { idx: self.slots.len() };
        self.slots.push(Slot { alive: true, ent: e });
        proof {
            assert(self@ =~= old(self)@.push(Some(e)));
        }
        id
    }

    /// Clear the slot of `id`. The handle can never come back: slots are
    /// not reused.
    pub fn destroy(&mut self, id: EntityId)
        requires
            id.idx < old(self)@.len(),
        ensures
            final(self)@ == old(self)@.update(id.idx as int, None),
    {
        let slot = &mut self.slots[id.idx];
        slot.alive = false;
        proof {
            assert(self@ =~= old(self)@.update(id.idx as int, None));
        }
    }

    /// The entity in slot `i`, if that slot is in range and live.
    pub fn get_at(&self, i: usize) -> (r: Option<Entity>)
        ensures
            r == if i < self@.len() {
                self@[i as int]
            } else {
                None::<Entity>
            },
    {
        if i < self.slots.len() {
            let slot = &self.slots[i];
            if slot.alive {
                Some(slot.ent)
            } else {
                None
            }
        } else {
            None
        }
    }

    /// The entity behind a handle, if it is still live.
    pub fn get(&self, id: EntityId) -> (r: Option<Entity>)
        ensures
            r == if id.idx < self@.len() {
                self@[id.idx as int]
            } else {
                None::<Entity>
            },
    {
        self.get_at(id.idx)
    }

    /// Overwrite the entity in the live slot `i`.
    pub fn set_at(&mut self, i: usize, e: Entity)
        requires
            i < old(self)@.len(),
            old(self)@[i as int] is Some,
        ensures
            final(self)@ == old(self)@.update(i as int, Some(e)),
    {
        let slot = &mut self.slots[i];
        slot.ent = e;
        proof {
            assert(self@ =~= old(self)@.update(i as int, Some(e)));
        }
    }

    /// Destroy the live or dead slot `i` (same as `destroy` by index).
    pub fn destroy_at(&mut self, i: usize)
        requires
            i < old(self)@.len(),
        ensures
            final(self)@ == old(self)@.update(i as int, None),
    {
        self.destroy(EntityId { idx: i });
    }

    /// Filtered iteration's ground truth: every live `(handle, entity)`
    /// pair, in slot order. Any filter a caller applies selects a
    /// subsequence of this, so a destroyed handle can appear under no
    /// filter.
    pub fn live_pairs(&self) -> (r: Vec<(EntityId, Entity)>)
        ensures
            r@ == live_list(self@, 0),
    {
        let ghost v = self@;
        let mut r: Vec<(EntityId, Entity)> = Vec::new();
        let mut i: usize = 0;
        let n = self.len();
        while i < n
            invariant
                0 <= i <= n,
                r@ + live_list(v, i as int) == live_list(v, 0),
            decreases n - i,
        {
            let ghost prev = r@;
            match self.get_at(i) {
                Some(e) => {
                    r.push((EntityId { idx: i }, e));
                    proof {
                        assert(live_list(v, i as int) == seq![(EntityId { idx: i }, e)]
                            + live_list(v, i + 1));
                        assert(r@ + live_list(v, i + 1) =~= prev + live_list(v, i as int));
                    }
                },
                None => {
                    proof {
                        assert(live_list(v, i as int) == live_list(v, i + 1));
                    }
                },
            }
            i += 1;
        }
        r
    }
}

} // verus!
