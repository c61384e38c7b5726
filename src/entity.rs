use vstd::prelude::*;

use crate::error::EcsError;
use crate::Entity;

verus! {

/// Where an entity id stands in its life.
#[derive(Clone, Copy, Debug, PartialEq, Eq, Structural)]
pub enum IdState {
    /// Handed out and in use.
    Alive,
    /// Removed; its slots in the storages may still hold its components.
    Dead,
    /// Removed, and its slots are being emptied.
    Cleaning,
    /// Its slots are empty and it may be handed out again.
    Free,
}

/// The entities of a world: which ids were handed out, which are in use, and which may be
/// handed out again.
///
/// An id is recycled only after every storage's slot for it was emptied, so a new entity
/// never sees the components of an earlier one.
pub struct Entities {
    table: IdTable,
}

/// The bookkeeping behind `Entities`, with its well-formedness stated apart.
struct IdTable {
    states: Vec<IdState>,
    dead: Vec<Entity>,
    free: Vec<Entity>,
}

/// The ids among the first `n` whose state is `state`, in increasing order.
pub open spec fn ids_in(states: Seq<IdState>, state: IdState, n: nat) -> Seq<Entity>
    decreases n,
{
    if n == 0 {
        Seq::empty()
    } else {
        let before = ids_in(states, state, (n - 1) as nat);
        if states[n - 1] == state {
            before.push((n - 1) as Entity)
        } else {
            before
        }
    }
}

/// The ids among the first `n` of `ids` that `recycle` makes free, given the states before:
/// each id in the `Cleaning` state, once, in the order in which it first comes.
pub open spec fn recycled(states: Seq<IdState>, ids: Seq<Entity>, n: nat) -> Seq<Entity>
    decreases n,
{
    if n == 0 || n > ids.len() {
        Seq::empty()
    } else {
        let before = recycled(states, ids, (n - 1) as nat);
        let id = ids[n - 1];
        if id < states.len() && states[id as int] == IdState::Cleaning && !before.contains(id) {
            before.push(id)
        } else {
            before
        }
    }
}

/// Every id of the first `n` that was `Cleaning` is among those recycled.
pub proof fn lemma_recycled_covers(states: Seq<IdState>, ids: Seq<Entity>, n: nat)
    requires
        n <= ids.len(),
    ensures
        forall|j: int|
            0 <= j < n && ids[j] < states.len() && states[ids[j] as int] == IdState::Cleaning
                ==> #[trigger] recycled(states, ids, n).contains(ids[j]),
    decreases n,
{
    if n > 0 {
        lemma_recycled_covers(states, ids, (n - 1) as nat);
        let before = recycled(states, ids, (n - 1) as nat);
        assert forall|j: int|
            0 <= j < n && ids[j] < states.len() && states[ids[j] as int] == IdState::Cleaning
            implies #[trigger] recycled(states, ids, n).contains(ids[j]) by {
            if j < n - 1 {
                assert(before.contains(ids[j]));
                let w = choose|w: int| 0 <= w < before.len() && before[w] == ids[j];
                assert(recycled(states, ids, n)[w] == ids[j]);
            } else if before.contains(ids[j]) {
                let w = choose|w: int| 0 <= w < before.len() && before[w] == ids[j];
                assert(recycled(states, ids, n)[w] == ids[j]);
            } else {
                assert(recycled(states, ids, n)[before.len() as int] == ids[j]);
            }
        }
    }
}

impl View for IdTable {
    type V = Seq<IdState>;

    closed spec fn view(&self) -> Seq<IdState> {
        self.states@
    }
}

impl IdTable {
    spec fn dead_ids(&self) -> Seq<Entity> {
        self.dead@
    }

    spec fn free_ids(&self) -> Seq<Entity> {
        self.free@
    }

    /// Each listed id was handed out, is listed once, and is in the state of its list.
    spec fn wf(&self) -> bool {
        &&& forall|i: int|
            0 <= i < self.dead@.len() ==> self.dead@[i] < self.states@.len()
                && self.states@[self.dead@[i] as int] == IdState::Dead
        &&& forall|i: int|
            0 <= i < self.free@.len() ==> self.free@[i] < self.states@.len()
                && self.states@[self.free@[i] as int] == IdState::Free
        &&& self.dead@.no_duplicates()
        &&& self.free@.no_duplicates()
    }

    spec fn is_alive(&self, e: int) -> bool {
        0 <= e < self@.len() && self@[e] == IdState::Alive
    }

    fn new() -> (r: IdTable)
        ensures
            r.wf(),
            r@ == Seq::<IdState>::empty(),
            r.dead_ids() == Seq::<Entity>::empty(),
            r.free_ids() == Seq::<Entity>::empty(),
    {
        IdTable { states: Vec::new(), dead: Vec::new(), free: Vec::new() }
    }

    /// Hands out an id: the last recycled one if any, else the next unused one.
    fn new_entity_id(&mut self) -> (r: Result<Entity, EcsError>)
        requires
            old(self).wf(),
        ensures
            final(self).wf(),
            old(self).free_ids().len() > 0 ==> {
                &&& r == Ok::<Entity, EcsError>(old(self).free_ids().last())
                &&& final(self)@ == old(self)@.update(r->Ok_0 as int, IdState::Alive)
                &&& final(self).free_ids() == old(self).free_ids().drop_last()
            },
            old(self).free_ids().len() == 0 ==> {
                &&& (r is Ok <==> old(self)@.len() < usize::MAX)
                &&& r is Ok ==> r->Ok_0 == old(self)@.len() && final(self)@ == old(self)@.push(
                    IdState::Alive,
                )
                &&& r is Err ==> r->Err_0 == EcsError::Saturated && final(self)@ == old(self)@
                &&& final(self).free_ids() == old(self).free_ids()
            },
            r matches Ok(id) ==> !old(self).is_alive(id as int) && final(self).is_alive(id as int),
            final(self).dead_ids() == old(self).dead_ids(),
    {
        let got = self.get_next_id();
        match got {
            Ok(id) => {
                if id == self.states.len() {
                    self.states.push(IdState::Alive);
                } else {
                    self.states.set(id, IdState::Alive);
                }
                proof {
                    assert forall|i: int| 0 <= i < self.dead@.len() implies self.dead@[i]
                        < self.states@.len() && self.states@[self.dead@[i] as int]
                        == IdState::Dead by {
                        assert(old(self).states@[self.dead@[i] as int] == IdState::Dead);
                    }
                    assert forall|i: int| 0 <= i < self.free@.len() implies self.free@[i]
                        < self.states@.len() && self.states@[self.free@[i] as int]
                        == IdState::Free by {
                        if self.free@[i] == id {
                            assert(old(self).free@[i] == old(self).free@[old(self).free@.len() - 1]);
                        }
                    }
                }
                Ok(id)
            },
            Err(e) => Err(e),
        }
    }

    fn get_next_id(&mut self) -> (r: Result<Entity, EcsError>)
        requires
            old(self).wf(),
        ensures
            final(self).states == old(self).states,
            final(self).dead == old(self).dead,
            old(self).free@.len() > 0 ==> {
                &&& r == Ok::<Entity, EcsError>(old(self).free@.last())
                &&& final(self).free@ == old(self).free@.drop_last()
            },
            old(self).free@.len() == 0 ==> {
                &&& final(self).free@ == old(self).free@
                &&& (r is Ok <==> old(self).states@.len() < usize::MAX)
                &&& r is Ok ==> r->Ok_0 == old(self).states@.len()
                &&& r is Err ==> r->Err_0 == EcsError::Saturated
            },
            final(self).free@.no_duplicates(),
            r matches Ok(id) ==> !final(self).free@.contains(id),
    {
        match self.free.pop() {
            Some(id) => {
                proof {
                    let f = old(self).free@;
                    assert(f == self.free@.push(id));
                    assert forall|i: int| 0 <= i < self.free@.len() implies self.free@[i] != id by {
                        assert(f[i] == self.free@[i]);
                        assert(f[f.len() - 1] == id);
                    }
                    assert forall|i: int, j: int|
                        0 <= i < self.free@.len() && 0 <= j < self.free@.len() && i != j
                        implies self.free@[i] != self.free@[j] by {
                        assert(f[i] == self.free@[i] && f[j] == self.free@[j]);
                    }
                }
                Ok(id)
            },
            None => {
                if self.states.len() == usize::MAX {
                    Err(EcsError::Saturated)
                } else {
                    Ok(self.states.len())
                }
            },
        }
    }

    /// Marks a living entity dead; returns whether `ent` was alive. Its id is not handed out
    /// again before its slots were emptied (see `take_dead` and `recycle`).
    fn rm_entity(&mut self, ent: Entity) -> (r: bool)
        requires
            old(self).wf(),
        ensures
            final(self).wf(),
            r == old(self).is_alive(ent as int),
            r ==> final(self)@ == old(self)@.update(ent as int, IdState::Dead)
                && final(self).dead_ids() == old(self).dead_ids().push(ent),
            !r ==> final(self)@ == old(self)@ && final(self).dead_ids() == old(self).dead_ids(),
            final(self).free_ids() == old(self).free_ids(),
    {
        if ent < self.states.len() && self.states[ent] == IdState::Alive {
            self.states.set(ent, IdState::Dead);
            self.dead.push(ent);
            proof {
                assert forall|i: int| 0 <= i < old(self).dead@.len() implies old(self).dead@[i]
                    != ent by {
                    assert(old(self).states@[old(self).dead@[i] as int] == IdState::Dead);
                }
                assert forall|i: int| 0 <= i < self.dead@.len() implies self.dead@[i]
                    < self.states@.len() && self.states@[self.dead@[i] as int]
                    == IdState::Dead by {
                    if i < old(self).dead@.len() {
                        assert(self.dead@[i] == old(self).dead@[i]);
                    }
                }
                assert forall|i: int| 0 <= i < self.free@.len() implies self.free@[i]
                    < self.states@.len() && self.states@[self.free@[i] as int]
                    == IdState::Free by {
                    assert(old(self).states@[self.free@[i] as int] == IdState::Free);
                }
                assert forall|i: int, j: int|
                    0 <= i < self.dead@.len() && 0 <= j < self.dead@.len() && i != j
                    implies self.dead@[i] != self.dead@[j] by {
                    if i < old(self).dead@.len() && j < old(self).dead@.len() {
                        assert(self.dead@[i] == old(self).dead@[i]);
                        assert(self.dead@[j] == old(self).dead@[j]);
                    }
                }
            }
            true
        } else {
            false
        }
    }
    /// Starts emptying the slots of every dead entity: their ids move from `Dead` to
    /// `Cleaning` and are returned, in order of removal.
    fn take_dead(&mut self) -> (r: Vec<Entity>)
        requires
            old(self).wf(),
        ensures
            final(self).wf(),
            r@ == old(self).dead_ids(),
            final(self).dead_ids() == Seq::<Entity>::empty(),
            final(self).free_ids() == old(self).free_ids(),
            final(self)@.len() == old(self)@.len(),
            forall|j: int| 0 <= j < r@.len() ==> r@[j] < final(self)@.len() && final(self)@[r@[j] as int] == IdState::Cleaning,
            forall|k: int|
                0 <= k < final(self)@.len() && final(self)@[k] != old(self)@[k] ==> old(
                    self,
                )@[k] == IdState::Dead && final(self)@[k] == IdState::Cleaning,
    {
        let mut taken: Vec<Entity> = Vec::new();
        std::mem::swap(&mut taken, &mut self.dead);
        let mut i: usize = 0;
        while i < taken.len()
            invariant
                taken@ == old(self).dead@,
                self.dead@ == Seq::<Entity>::empty(),
                self.free@ == old(self).free@,
                self.states@.len() == old(self).states@.len(),
                old(self).wf(),
                i <= taken@.len(),
                forall|j: int| 0 <= j < i ==> self.states@[taken@[j] as int] == IdState::Cleaning,
                forall|k: int|
                    0 <= k < self.states@.len() && self.states@[k] != old(self).states@[k] ==> old(
                        self,
                    ).states@[k] == IdState::Dead && self.states@[k] == IdState::Cleaning,
            decreases taken@.len() - i,
        {
            let id = taken[i];
            self.states.set(id, IdState::Cleaning);
            i = i + 1;
        }
        proof {
            assert forall|i: int| 0 <= i < self.free@.len() implies self.free@[i]
                < self.states@.len() && self.states@[self.free@[i] as int] == IdState::Free by {
                assert(old(self).states@[self.free@[i] as int] == IdState::Free);
            }
        }
        taken
    }

    /// Finishes emptying slots: each id of `ids` that is `Cleaning` becomes `Free` and may be
    /// handed out again. Other ids are left as they are.
    fn recycle(&mut self, ids: &Vec<Entity>)
        requires
            old(self).wf(),
        ensures
            final(self).wf(),
            final(self).dead_ids() == old(self).dead_ids(),
            final(self).free_ids() == old(self).free_ids() + recycled(old(self)@, ids@, ids@.len()),
            final(self)@.len() == old(self)@.len(),
            forall|k: int|
                0 <= k < final(self)@.len() ==> final(self)@[k] == if old(self)@[k] == IdState::Cleaning
                    && recycled(old(self)@, ids@, ids@.len()).contains(k as Entity) {
                    IdState::Free
                } else {
                    old(self)@[k]
                },
    {
        let mut i: usize = 0;
        while i < ids.len()
            invariant
                self.wf(),
                self.dead@ == old(self).dead@,
                self.states@.len() == old(self).states@.len(),
                i <= ids@.len(),
                self.free@ == old(self).free@ + recycled(old(self).states@, ids@, i as nat),
                forall|k: int|
                    0 <= k < self.states@.len() ==> self.states@[k] == if old(self).states@[k]
                        == IdState::Cleaning && recycled(old(self).states@, ids@, i as nat).contains(
                        k as Entity,
                    ) {
                        IdState::Free
                    } else {
                        old(self).states@[k]
                    },
            decreases ids@.len() - i,
        {
            let id = ids[i];
            let ghost before = recycled(old(self).states@, ids@, i as nat);
            let ghost after = recycled(old(self).states@, ids@, (i + 1) as nat);
            assert(ids@[(i + 1) - 1] == id);
            if id < self.states.len() && self.states[id] == IdState::Cleaning {
                let ghost prev = self.free@;
                let ghost prev_states = self.states@;
                assert(after == before.push(id));
                self.states.set(id, IdState::Free);
                self.free.push(id);
                proof {
                    assert forall|j: int| 0 <= j < prev.len() implies prev[j] != id by {
                        assert(prev_states[prev[j] as int] == IdState::Free);
                    }
                    assert forall|a: int| 0 <= a < self.dead@.len() implies self.dead@[a]
                        < self.states@.len() && self.states@[self.dead@[a] as int]
                        == IdState::Dead by {
                        assert(prev_states[self.dead@[a] as int] == IdState::Dead);
                    }
                    assert forall|a: int| 0 <= a < self.free@.len() implies self.free@[a]
                        < self.states@.len() && self.states@[self.free@[a] as int]
                        == IdState::Free by {
                        if a < prev.len() {
                            assert(self.free@[a] == prev[a]);
                        }
                    }
                    assert forall|a: int, b: int|
                        0 <= a < self.free@.len() && 0 <= b < self.free@.len() && a != b
                        implies self.free@[a] != self.free@[b] by {
                        if a < prev.len() && b < prev.len() {
                            assert(self.free@[a] == prev[a] && self.free@[b] == prev[b]);
                        }
                    }
                    assert(self.free@ =~= old(self).free@ + after);
                    assert forall|k: int| 0 <= k < self.states@.len() implies self.states@[k]
                        == if old(self).states@[k] == IdState::Cleaning && after.contains(
                        k as Entity,
                    ) {
                        IdState::Free
                    } else {
                        old(self).states@[k]
                    } by {
                        if k == id {
                            assert(after[after.len() - 1] == id);
                        } else if after.contains(k as Entity) {
                            let w = choose|w: int| 0 <= w < after.len() && after[w] == k as Entity;
                            assert(w < before.len());
                            assert(before[w] == k as Entity);
                        } else {
                            if before.contains(k as Entity) {
                                let w = choose|w: int| 0 <= w < before.len() && before[w] == k as Entity;
                                assert(after[w] == k as Entity);
                            }
                        }
                    }
                }
            } else {
                proof {
                    if id < self.states@.len() && old(self).states@[id as int] == IdState::Cleaning {
                        assert(before.contains(id));
                    }
                    assert(after == before);
                }
            }
            i = i + 1;
        }
    }

    /// The ids in the state `state`, in increasing order.
    fn ids_with(&self, state: IdState) -> (r: Vec<Entity>)
        ensures
            r@ == ids_in(self@, state, self@.len()),
    {
        let mut out: Vec<Entity> = Vec::new();
        let mut i: usize = 0;
        while i < self.states.len()
            invariant
                i <= self.states@.len(),
                out@ == ids_in(self.states@, state, i as nat),
            decreases self.states@.len() - i,
        {
            if self.states[i] == state {
                out.push(i);
            }
            i = i + 1;
        }
        out
    }
}

impl View for Entities {
    type V = Seq<IdState>;

    /// The state of each id handed out so far, by id.
    closed spec fn view(&self) -> Seq<IdState> {
        self.table@
    }
}

impl Entities {
    #[verifier::type_invariant]
    spec fn inv(&self) -> bool {
        self.table.wf()
    }

    /// Removed ids whose slots were not emptied yet, in order of removal.
    pub closed spec fn dead_ids(&self) -> Seq<Entity> {
        self.table.dead@
    }

    /// Ids that may be handed out again; the last one goes first.
    pub closed spec fn free_ids(&self) -> Seq<Entity> {
        self.table.free@
    }

    pub open spec fn is_alive(&self, e: int) -> bool {
        0 <= e < self@.len() && self@[e] == IdState::Alive
    }

    pub fn new() -> (r: Entities)
        ensures
            r@ == Seq::<IdState>::empty(),
            r.dead_ids() == Seq::<Entity>::empty(),
            r.free_ids() == Seq::<Entity>::empty(),
    {
        Entities { table: IdTable::new() }
    }

    /// How many ids were handed out so far: the number of slots each storage needs.
    pub fn num_entities(&self) -> (r: usize)
        ensures
            r == self@.len(),
    {
        self.table.states.len()
    }

    /// Hands out an id: the last recycled one if any, else the next unused one.
    pub fn new_entity_id(&mut self) -> (r: Result<Entity, EcsError>)
        ensures
            old(self).free_ids().len() > 0 ==> {
                &&& r == Ok::<Entity, EcsError>(old(self).free_ids().last())
                &&& final(self)@ == old(self)@.update(r->Ok_0 as int, IdState::Alive)
                &&& final(self).free_ids() == old(self).free_ids().drop_last()
            },
            old(self).free_ids().len() == 0 ==> {
                &&& (r is Ok <==> old(self)@.len() < usize::MAX)
                &&& r is Ok ==> r->Ok_0 == old(self)@.len() && final(self)@ == old(self)@.push(
                    IdState::Alive,
                )
                &&& r is Err ==> r->Err_0 == EcsError::Saturated && final(self)@ == old(self)@
                &&& final(self).free_ids() == old(self).free_ids()
            },
            r matches Ok(id) ==> !old(self).is_alive(id as int) && final(self).is_alive(id as int),
            final(self).dead_ids() == old(self).dead_ids(),
    {
        proof {
            use_type_invariant(&*self);
        }
        let mut t = IdTable::new();
        std::mem::swap(&mut t, &mut self.table);
        let r = t.new_entity_id();
        std::mem::swap(&mut t, &mut self.table);
        r
    }

    /// Marks a living entity dead; returns whether `ent` was alive. Its id is not handed out
    /// again before its slots were emptied (see `take_dead` and `recycle`).
    pub fn rm_entity(&mut self, ent: Entity) -> (r: bool)
        ensures
            r == old(self).is_alive(ent as int),
            r ==> final(self)@ == old(self)@.update(ent as int, IdState::Dead)
                && final(self).dead_ids() == old(self).dead_ids().push(ent),
            !r ==> final(self)@ == old(self)@ && final(self).dead_ids() == old(self).dead_ids(),
            final(self).free_ids() == old(self).free_ids(),
    {
        proof {
            use_type_invariant(&*self);
        }
        let mut t = IdTable::new();
        std::mem::swap(&mut t, &mut self.table);
        let r = t.rm_entity(ent);
        std::mem::swap(&mut t, &mut self.table);
        r
    }

    /// Starts emptying the slots of every dead entity: their ids move from `Dead` to
    /// `Cleaning` and are returned, in order of removal.
    pub fn take_dead(&mut self) -> (r: Vec<Entity>)
        ensures
            r@ == old(self).dead_ids(),
            final(self).dead_ids() == Seq::<Entity>::empty(),
            final(self).free_ids() == old(self).free_ids(),
            final(self)@.len() == old(self)@.len(),
            forall|j: int| 0 <= j < r@.len() ==> r@[j] < final(self)@.len() && final(self)@[r@[j] as int] == IdState::Cleaning,
            forall|k: int|
                0 <= k < final(self)@.len() && final(self)@[k] != old(self)@[k] ==> old(
                    self,
                )@[k] == IdState::Dead && final(self)@[k] == IdState::Cleaning,
    {
        proof {
            use_type_invariant(&*self);
        }
        let mut t = IdTable::new();
        std::mem::swap(&mut t, &mut self.table);
        let r = t.take_dead();
        std::mem::swap(&mut t, &mut self.table);
        r
    }

    /// Finishes emptying slots: each id of `ids` that is `Cleaning` becomes `Free` and may be
    /// handed out again. Other ids are left as they are.
    pub fn recycle(&mut self, ids: &Vec<Entity>)
        ensures
            final(self).dead_ids() == old(self).dead_ids(),
            final(self).free_ids() == old(self).free_ids() + recycled(old(self)@, ids@, ids@.len()),
            final(self)@.len() == old(self)@.len(),
            forall|k: int|
                0 <= k < final(self)@.len() ==> final(self)@[k] == if old(self)@[k] == IdState::Cleaning
                    && recycled(old(self)@, ids@, ids@.len()).contains(k as Entity) {
                    IdState::Free
                } else {
                    old(self)@[k]
                },
            forall|j: int|
                0 <= j < ids@.len() && ids@[j] < old(self)@.len() && old(self)@[ids@[j] as int]
                    == IdState::Cleaning ==> final(self)@[ids@[j] as int] == IdState::Free,
    {
        proof {
            use_type_invariant(&*self);
        }
        proof {
            lemma_recycled_covers(self@, ids@, ids@.len());
        }
        let mut t = IdTable::new();
        std::mem::swap(&mut t, &mut self.table);
        let r = t.recycle(ids);
        std::mem::swap(&mut t, &mut self.table);
        r
    }

    /// The ids in use, in increasing order.
    pub fn live_entities(&self) -> (r: Vec<Entity>)
        ensures
            r@ == ids_in(self@, IdState::Alive, self@.len()),
    {
        self.table.ids_with(IdState::Alive)
    }

    /// The ids whose slots are being emptied, in increasing order.
    pub fn cleaning_ids(&self) -> (r: Vec<Entity>)
        ensures
            r@ == ids_in(self@, IdState::Cleaning, self@.len()),
    {
        self.table.ids_with(IdState::Cleaning)
    }
}

/// The ids among the first `n` of `ids` that are not in `exclude`, in their order.
pub open spec fn kept(ids: Seq<Entity>, exclude: Seq<Entity>, n: nat) -> Seq<Entity>
    decreases n,
{
    if n == 0 || n > ids.len() {
        Seq::empty()
    } else {
        let before = kept(ids, exclude, (n - 1) as nat);
        if exclude.contains(ids[n - 1]) {
            before
        } else {
            before.push(ids[n - 1])
        }
    }
}

/// Whether `id` is in `ids`.
pub fn contains_id(ids: &Vec<Entity>, id: Entity) -> (r: bool)
    ensures
        r == ids@.contains(id),
{
    let mut i: usize = 0;
    while i < ids.len()
        invariant
            i <= ids@.len(),
            forall|j: int| 0 <= j < i ==> ids@[j] != id,
        decreases ids@.len() - i,
    {
        if ids[i] == id {
            return true;
        }
        i = i + 1;
    }
    false
}

/// The ids of `ids` that are not in `exclude`, in their order.
pub fn without(ids: &Vec<Entity>, exclude: &Vec<Entity>) -> (r: Vec<Entity>)
    ensures
        r@ == kept(ids@, exclude@, ids@.len()),
{
    let mut out: Vec<Entity> = Vec::new();
    let mut i: usize = 0;
    while i < ids.len()
        invariant
            i <= ids@.len(),
            out@ == kept(ids@, exclude@, i as nat),
        decreases ids@.len() - i,
    {
        if !contains_id(exclude, ids[i]) {
            out.push(ids[i]);
        }
        i = i + 1;
    }
    out
}

/// An id is among `ids_in(states, state, n)` exactly when it is below `n` and in `state`.
pub proof fn lemma_ids_in(states: Seq<IdState>, state: IdState, n: nat)
    requires
        n <= states.len(),
        states.len() <= usize::MAX,
    ensures
        forall|k: Entity|
            #[trigger] ids_in(states, state, n).contains(k) <==> (k < n && states[k as int]
                == state),
    decreases n,
{
    if n > 0 {
        lemma_ids_in(states, state, (n - 1) as nat);
        let before = ids_in(states, state, (n - 1) as nat);
        let now = ids_in(states, state, n);
        assert forall|k: Entity| #[trigger] now.contains(k) <==> (k < n && states[k as int] == state) by {
            if now.contains(k) {
                let w = choose|w: int| 0 <= w < now.len() && now[w] == k;
                if w < before.len() {
                    assert(before[w] == k);
                    assert(before.contains(k));
                }
            }
            if k < n && states[k as int] == state {
                if k < n - 1 {
                    assert(before.contains(k));
                    let w = choose|w: int| 0 <= w < before.len() && before[w] == k;
                    assert(now[w] == k);
                } else {
                    assert(now[now.len() - 1] == k);
                }
            }
        }
    }
}

/// An id is among `kept(ids, exclude, n)` exactly when it is among the first `n` of `ids`
/// and not in `exclude`.
pub proof fn lemma_kept(ids: Seq<Entity>, exclude: Seq<Entity>, n: nat)
    requires
        n <= ids.len(),
    ensures
        forall|k: Entity|
            #[trigger] kept(ids, exclude, n).contains(k) <==> ((exists|j: int|
                0 <= j < n && ids[j] == k) && !exclude.contains(k)),
    decreases n,
{
    if n > 0 {
        lemma_kept(ids, exclude, (n - 1) as nat);
        let before = kept(ids, exclude, (n - 1) as nat);
        let now = kept(ids, exclude, n);
        assert forall|k: Entity|
            #[trigger] now.contains(k) <==> ((exists|j: int| 0 <= j < n && ids[j] == k)
                && !exclude.contains(k)) by {
            if now.contains(k) {
                let w = choose|w: int| 0 <= w < now.len() && now[w] == k;
                if w < before.len() {
                    assert(before[w] == k);
                    assert(before.contains(k));
                    let j = choose|j: int| 0 <= j < n - 1 && ids[j] == k;
                    assert(0 <= j < n && ids[j] == k);
                } else {
                    assert(ids[n - 1] == k);
                }
            }
            if (exists|j: int| 0 <= j < n && ids[j] == k) && !exclude.contains(k) {
                let j = choose|j: int| 0 <= j < n && ids[j] == k;
                if j < n - 1 {
                    assert(before.contains(k));
                    let w = choose|w: int| 0 <= w < before.len() && before[w] == k;
                    assert(now[w] == k);
                } else {
                    assert(now[now.len() - 1] == k);
                }
            }
        }
    }
}

/// An id is among those `recycled` from the first `n` of `ids` exactly when it is among
/// them and in the `Cleaning` state.
pub proof fn lemma_recycled(states: Seq<IdState>, ids: Seq<Entity>, n: nat)
    requires
        n <= ids.len(),
    ensures
        forall|k: Entity|
            #[trigger] recycled(states, ids, n).contains(k) <==> ((exists|j: int|
                0 <= j < n && ids[j] == k) && k < states.len() && states[k as int]
                == IdState::Cleaning),
    decreases n,
{
    if n > 0 {
        lemma_recycled(states, ids, (n - 1) as nat);
        let before = recycled(states, ids, (n - 1) as nat);
        let now = recycled(states, ids, n);
        assert forall|k: Entity|
            #[trigger] now.contains(k) <==> ((exists|j: int| 0 <= j < n && ids[j] == k) && k
                < states.len() && states[k as int] == IdState::Cleaning) by {
            if now.contains(k) {
                let w = choose|w: int| 0 <= w < now.len() && now[w] == k;
                if w < before.len() {
                    assert(before[w] == k);
                    assert(before.contains(k));
                    let j = choose|j: int| 0 <= j < n - 1 && ids[j] == k;
                    assert(0 <= j < n && ids[j] == k);
                } else {
                    assert(ids[n - 1] == k);
                }
            }
            if (exists|j: int| 0 <= j < n && ids[j] == k) && k < states.len() && states[k as int]
                == IdState::Cleaning {
                let j = choose|j: int| 0 <= j < n && ids[j] == k;
                if j < n - 1 {
                    assert(before.contains(k));
                    let w = choose|w: int| 0 <= w < before.len() && before[w] == k;
                    assert(now[w] == k);
                } else if before.contains(k) {
                    let w = choose|w: int| 0 <= w < before.len() && before[w] == k;
                    assert(now[w] == k);
                } else {
                    assert(now[now.len() - 1] == k);
                }
            }
        }
    }
}

/// Makes free every id whose slots were being emptied and that no storage still has to
/// empty, as `pending` lists them; every other id stays as it was.
pub fn recycle_ready(entities: &mut Entities, pending: &Vec<Entity>)
    ensures
        final(entities)@.len() == old(entities)@.len(),
        forall|k: int|
            0 <= k < final(entities)@.len() ==> final(entities)@[k] == if old(entities)@[k]
                == IdState::Cleaning && !pending@.contains(k as Entity) {
                IdState::Free
            } else {
                old(entities)@[k]
            },
        final(entities).dead_ids() == old(entities).dead_ids(),
{
    let ghost states = entities@;
    let _count = entities.num_entities();
    let cleaning = entities.cleaning_ids();
    let ready = without(&cleaning, pending);
    entities.recycle(&ready);
    proof {
        lemma_ids_in(states, IdState::Cleaning, states.len());
        lemma_kept(cleaning@, pending@, cleaning@.len());
        lemma_recycled(states, ready@, ready@.len());
        assert forall|k: int| 0 <= k < states.len() implies (recycled(states, ready@, ready@.len()).contains(
            k as Entity,
        ) <==> (states[k] == IdState::Cleaning && !pending@.contains(k as Entity))) by {
            let e = k as Entity;
            if states[k] == IdState::Cleaning && !pending@.contains(e) {
                assert(cleaning@.contains(e));
                let j = choose|j: int| 0 <= j < cleaning@.len() && cleaning@[j] == e;
                assert(ready@.contains(e));
                let w = choose|w: int| 0 <= w < ready@.len() && ready@[w] == e;
                assert(recycled(states, ready@, ready@.len()).contains(e));
            }
            if recycled(states, ready@, ready@.len()).contains(e) {
                let w = choose|w: int| 0 <= w < ready@.len() && ready@[w] == e;
                assert(ready@.contains(e));
            }
        }
    }
}

} // verus!
