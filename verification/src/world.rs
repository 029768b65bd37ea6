//! The core's model of the entity registry: the player sprite and the
//! collectible targets currently alive, with positions in milliunits.

use vstd::prelude::*;

verus! {

/// One of the four cardinal facings of the player sprite.
#[derive(Clone, Copy, PartialEq, Eq, Structural, Debug)]
pub enum Direction {
    North,
    South,
    East,
    West,
}

/// A collectible target: the counter value its name derives from and its
/// position in milliunits.
#[derive(Clone, Copy, PartialEq, Eq, Structural, Debug)]
pub struct Target {
    pub id: i32,
    pub x: i64,
    pub y: i64,
}

/// The player sprite: position in milliunits and cardinal facing.
#[derive(Clone, Copy, PartialEq, Eq, Structural, Debug)]
pub struct Player {
    pub x: i64,
    pub y: i64,
    pub facing: Direction,
}

/// The registry of movable entities: the player always exists; targets are
/// created by spawning and destroyed by collisions.
pub struct World {
    pub player: Player,
    pub targets: Vec<Target>,
}

/// The registry with every target of the given counter value removed.
pub open spec fn remove_id(s: Seq<Target>, id: i32) -> Seq<Target>
    decreases s.len(),
{
    if s.len() == 0 {
        Seq::empty()
    } else if s[0].id == id {
        remove_id(s.drop_first(), id)
    } else {
        seq![s[0]] + remove_id(s.drop_first(), id)
    }
}

/// The registry after removing each counter value of `ids`, in order.
pub open spec fn remove_ids(s: Seq<Target>, ids: Seq<i32>) -> Seq<Target>
    decreases ids.len(),
{
    if ids.len() == 0 {
        s
    } else {
        remove_id(remove_ids(s, ids.drop_last()), ids.last())
    }
}

/// Whether some target carries the given counter value.
pub open spec fn contains_id(s: Seq<Target>, id: i32) -> bool {
    exists|i: int| 0 <= i < s.len() && s[i].id == id
}

/// No two targets share a counter value.
pub open spec fn ids_unique(s: Seq<Target>) -> bool {
    forall|i: int, j: int| 0 <= i < j < s.len() ==> s[i].id != s[j].id
}

/// Every target's counter value is non-negative and below the bound; with
/// the bound instantiated to the spawn counter, a fresh counter value can
/// never collide with a live target's.
pub open spec fn ids_below(s: Seq<Target>, bound: int) -> bool {
    forall|i: int| 0 <= i < s.len() ==> 0 <= #[trigger] s[i].id < bound
}

/// Removal keeps exactly the targets whose counter value differs from `id`:
/// every kept target stood in the registry before, none carries `id`, and
/// targets with other counter values are untouched.
pub proof fn lemma_remove_id_facts(s: Seq<Target>, id: i32)
    ensures
        forall|i: int|
            0 <= i < remove_id(s, id).len() ==> s.contains(#[trigger] remove_id(s, id)[i])
                && remove_id(s, id)[i].id != id,
        forall|i: int|
            0 <= i < s.len() && s[i].id != id ==> remove_id(s, id).contains(#[trigger] s[i]),
        ids_unique(s) ==> ids_unique(remove_id(s, id)),
        remove_id(s, id).len() <= s.len(),
    decreases s.len(),
{
    if s.len() == 0 {
    } else {
        let rest = s.drop_first();
        lemma_remove_id_facts(rest, id);
        assert forall|i: int| 0 <= i < s.len() && s[i].id != id implies remove_id(s, id).contains(
            #[trigger] s[i],
        ) by {
            if i == 0 {
                assert(remove_id(s, id)[0] == s[0]);
            } else {
                assert(rest[i - 1] == s[i]);
                assert(remove_id(rest, id).contains(rest[i - 1]));
                let k = choose|k: int|
                    0 <= k < remove_id(rest, id).len() && remove_id(rest, id)[k] == rest[i - 1];
                if s[0].id == id {
                    assert(remove_id(s, id)[k] == rest[i - 1]);
                } else {
                    assert(remove_id(s, id)[k + 1] == rest[i - 1]);
                }
            }
        }
        if s[0].id != id {
            if ids_unique(s) {
                assert forall|i: int, j: int|
                    0 <= i < j < remove_id(s, id).len() implies remove_id(s, id)[i].id
                    != remove_id(s, id)[j].id by {
                    let r = remove_id(rest, id);
                    if i == 0 {
                        assert(r.contains(remove_id(s, id)[j]));
                        let k = choose|k: int| 0 <= k < r.len() && r[k] == remove_id(s, id)[j];
                        assert(rest.contains(r[k]));
                        let m = choose|m: int| 0 <= m < rest.len() && rest[m] == r[k];
                        assert(s[m + 1] == rest[m]);
                        assert(s[0].id != s[m + 1].id);
                    } else {
                        assert(remove_id(s, id)[i] == r[i - 1]);
                        assert(remove_id(s, id)[j] == r[j - 1]);
                    }
                }
            }
        }
    }
}

/// Removing a counter value twice leaves the registry exactly as removing
/// it once: removal is idempotent.
pub proof fn lemma_remove_id_idempotent(s: Seq<Target>, id: i32)
    ensures
        remove_id(remove_id(s, id), id) == remove_id(s, id),
    decreases s.len(),
{
    if s.len() == 0 {
        assert(remove_id(remove_id(s, id), id) =~= remove_id(s, id));
    } else {
        let rest = s.drop_first();
        lemma_remove_id_idempotent(rest, id);
        if s[0].id == id {
        } else {
            let r = seq![s[0]] + remove_id(rest, id);
            assert(r.drop_first() =~= remove_id(rest, id));
            assert(remove_id(r, id) =~= seq![r[0]] + remove_id(r.drop_first(), id));
            assert(remove_id(remove_id(s, id), id) =~= remove_id(s, id));
        }
    }
}

impl World {
    /// Well-formedness: counter values of live targets are unique,
    /// non-negative, and below the spawn counter handed in as `bound`.
    pub open spec fn wf(self, bound: int) -> bool {
        ids_unique(self.targets@) && ids_below(self.targets@, bound)
    }

    /// A registry holding only the player, facing east at the origin.
    pub fn new() -> (w: World)
        ensures
            w.player == (Player { x: 0, y: 0, facing: Direction::East }),
            w.targets@ =~= Seq::<Target>::empty(),
            w.wf(0),
    {
        World { player: Player { x: 0, y: 0, facing: Direction::East }, targets: Vec::new() }
    }

    /// Remove every target with the given counter value; removing a value
    /// that is already absent is a silent no-op.
    pub fn remove_target(&mut self, id: i32)
        ensures
            final(self).player == old(self).player,
            final(self).targets@ == remove_id(old(self).targets@, id),
    {
        let mut kept: Vec<Target> = Vec::new();
        let mut i: usize = 0;
        let n: usize = self.targets.len();
        while i < n
            invariant
                n == self.targets@.len(),
                0 <= i <= n,
                kept@ =~= remove_id(self.targets@.take(i as int), id),
            decreases n - i,
        {
            let t = self.targets[i];
            proof {
                lemma_remove_id_push(self.targets@.take(i as int), id, t);
                assert(self.targets@.take(i as int).push(t) =~= self.targets@.take(i + 1));
            }
            if t.id != id {
                kept.push(t);
            }
            i = i + 1;
        }
        proof {
            assert(self.targets@.take(n as int) =~= self.targets@);
        }
        self.targets = kept;
    }

    /// Add a freshly spawned target.
    pub fn add_target(&mut self, t: Target)
        ensures
            final(self).player == old(self).player,
            final(self).targets@ == old(self).targets@.push(t),
    {
        self.targets.push(t);
    }

    /// Whether a target with the given counter value is alive.
    pub fn has_target(&self, id: i32) -> (r: bool)
        ensures
            r == contains_id(self.targets@, id),
    {
        let mut i: usize = 0;
        let n: usize = self.targets.len();
        while i < n
            invariant
                n == self.targets@.len(),
                0 <= i <= n,
                forall|j: int| 0 <= j < i ==> self.targets@[j].id != id,
            decreases n - i,
        {
            if self.targets[i].id == id {
                return true;
            }
            i = i + 1;
        }
        false
    }
}

/// Appending one target and then removing a counter value equals removing
/// first and appending only if the target's value differs.
pub proof fn lemma_remove_id_push(s: Seq<Target>, id: i32, t: Target)
    ensures
        remove_id(s.push(t), id) == if t.id == id {
            remove_id(s, id)
        } else {
            remove_id(s, id).push(t)
        },
    decreases s.len(),
{
    if s.len() == 0 {
        assert(s.push(t).drop_first() =~= s);
        assert(s.push(t)[0] == t);
        if t.id == id {
            assert(remove_id(s.push(t), id) == remove_id(s, id));
        } else {
            assert(remove_id(s.push(t), id) == seq![t] + remove_id(s, id));
            assert(remove_id(s.push(t), id) =~= remove_id(s, id).push(t));
        }
    } else {
        let rest = s.drop_first();
        lemma_remove_id_push(rest, id, t);
        assert(s.push(t).drop_first() =~= rest.push(t));
        assert(s.push(t)[0] == s[0]);
        assert(s.push(t).len() == s.len() + 1);
        if s[0].id == id {
            assert(remove_id(s.push(t), id) == remove_id(rest.push(t), id));
            assert(remove_id(s, id) == remove_id(rest, id));
        } else {
            assert(remove_id(s.push(t), id) == seq![s[0]] + remove_id(rest.push(t), id));
            assert(remove_id(s, id) == seq![s[0]] + remove_id(rest, id));
            if t.id == id {
                assert(remove_id(s.push(t), id) =~= remove_id(s, id));
            } else {
                assert(seq![s[0]] + remove_id(rest, id).push(t) =~= (seq![s[0]] + remove_id(
                    rest,
                    id,
                )).push(t));
                assert(remove_id(s.push(t), id) =~= remove_id(s, id).push(t));
            }
        }
    }
}

} // verus!
