use vstd::prelude::*;

use crate::accessor::{AccessGuard, Accessor};
use crate::error::EcsError;
use crate::sync::{empty_vec, guarded, lock_inner, share, try_unwrap};
use crate::Entity;
use vstd::std_specs::iter::IteratorSpec;

verus! {

/// The slots with `value` in slot `id`.
pub open spec fn inserted<T>(slots: Seq<Option<T>>, id: int, value: T) -> Seq<Option<T>> {
    slots.update(id, Some(value))
}

/// The slots with slot `id` empty.
pub open spec fn removed<T>(slots: Seq<Option<T>>, id: int) -> Seq<Option<T>> {
    slots.update(id, None)
}

/// The slots lengthened with empty slots to `n` of them; never shortened.
pub open spec fn grown<T>(slots: Seq<Option<T>>, n: nat) -> Seq<Option<T>> {
    if slots.len() >= n {
        slots
    } else {
        slots + Seq::new((n - slots.len()) as nat, |i: int| None::<T>)
    }
}

/// Round trip: after `insert(id, v)` the slot holds `v`, and after `remove(id)` it holds
/// nothing, whatever it held before; no other slot changes, nor the number of slots.
pub proof fn insert_remove_round_trip<T>(slots: Seq<Option<T>>, id: int, v: T)
    requires
        0 <= id < slots.len(),
    ensures
        inserted(slots, id, v)[id] == Some(v),
        removed(slots, id)[id] is None,
        removed(inserted(slots, id, v), id)[id] is None,
        inserted(slots, id, v).len() == slots.len(),
        removed(slots, id).len() == slots.len(),
        forall|j: int|
            0 <= j < slots.len() && j != id ==> inserted(slots, id, v)[j] == slots[j] && removed(
                slots,
                id,
            )[j] == slots[j],
{
}

/// Capacity monotonicity: lengthening by `k` slots keeps every slot that was there, with
/// what it held, and adds `k` empty ones after them; asking for fewer slots than there are
/// changes nothing.
pub proof fn growth_keeps_slots<T>(slots: Seq<Option<T>>, k: nat)
    ensures
        grown(slots, slots.len() + k).len() == slots.len() + k,
        forall|i: int| 0 <= i < slots.len() ==> #[trigger] grown(slots, slots.len() + k)[i] == slots[i],
        forall|i: int|
            slots.len() <= i < slots.len() + k ==> (#[trigger] grown(slots, slots.len() + k)[i]) is None,
        forall|n: nat| n <= slots.len() ==> grown(slots, n) == slots,
{
}

/// Lengthens `slots` with empty slots until it holds `n` of them.
pub fn grow_slots<T>(slots: &mut Vec<Option<T>>, n: usize)
    ensures
        final(slots)@ == grown(old(slots)@, n as nat),
{
    let ghost start = slots@;
    while slots.len() < n
        invariant
            slots@.len() >= start.len(),
            slots@.len() <= n || slots@.len() == start.len(),
            slots@.subrange(0, start.len() as int) == start,
            forall|i: int| start.len() <= i < slots@.len() ==> slots@[i] is None,
        decreases n - slots@.len(),
    {
        slots.push(None);
        assert(slots@.subrange(0, start.len() as int) =~= start);
    }
    assert(slots@ =~= grown(start, n as nat));
}

/// Where a storage keeps its slots between guards, and the ids whose slots must be emptied
/// before anyone sees the slots again. While a writer holds the slots, `lent` is set and
/// `slots` holds a placeholder.
#[verifier::reject_recursive_types(T)]
struct Shelf<T> {
    slots: std::sync::Arc<Vec<Option<T>>>,
    pending: Vec<Entity>,
    lent: bool,
}

/// Empties each slot of `slots` whose id is in `ids`; ids beyond the slots are passed over.
pub fn clear_slots<T>(slots: &mut Vec<Option<T>>, ids: &Vec<Entity>)
    ensures
        final(slots)@.len() == old(slots)@.len(),
        forall|j: int| 0 <= j < ids@.len() && ids@[j] < old(slots)@.len() ==> final(slots)@[ids@[j] as int] is None,
        forall|k: int| 0 <= k < old(slots)@.len() && !ids@.contains(k as Entity) ==> final(slots)@[k] == old(slots)@[k],
{
    let mut i: usize = 0;
    while i < ids.len()
        invariant
            i <= ids@.len(),
            slots@.len() == old(slots)@.len(),
            forall|j: int| 0 <= j < i && ids@[j] < slots@.len() ==> slots@[ids@[j] as int] is None,
            forall|k: int| 0 <= k < slots@.len() && !ids@.subrange(0, i as int).contains(k as Entity) ==> slots@[k] == old(slots)@[k],
        decreases ids@.len() - i,
    {
        let id = ids[i];
        if id < slots.len() {
            let mut gone: Option<T> = None;
            std::mem::swap(&mut gone, &mut slots[id]);
        }
        proof {
            assert forall|k: int| 0 <= k < slots@.len() && !ids@.subrange(0, i + 1).contains(k as Entity)
                implies slots@[k] == old(slots)@[k] by {
                assert(ids@.subrange(0, i + 1)[i as int] == id);
                if ids@.subrange(0, i as int).contains(k as Entity) {
                    let w = choose|w: int| 0 <= w < i && ids@.subrange(0, i as int)[w] == k as Entity;
                    assert(ids@.subrange(0, i + 1)[w] == k as Entity);
                }
            }
        }
        i = i + 1;
    }
    proof {
        assert(ids@.subrange(0, ids@.len() as int) =~= ids@);
    }
}

/// The data of one registered component type: an `Option<T>` slot per entity id, and the
/// lock that decides who may touch them.
///
/// Readers share the slots through an `Arc`; a writer takes them over alone and hands them
/// back when its guard is dropped. Slots of removed entities are emptied by the next guard,
/// before its holder sees them.
#[verifier::reject_recursive_types(T)]
pub struct Storage<T> {
    accessor: std::sync::Arc<Accessor>,
    shelf: std::sync::Mutex<Shelf<T>>,
}

impl<T> Storage<T> {
    /// A storage with `capacity` empty slots.
    pub fn new(capacity: usize) -> Storage<T> {
        let mut slots: Vec<Option<T>> = Vec::new();
        grow_slots(&mut slots, capacity);
        Storage {
            accessor: std::sync::Arc::new(Accessor::new()),
            shelf: std::sync::Mutex::new(
                Shelf { slots: std::sync::Arc::new(slots), pending: Vec::new(), lent: false },
            ),
        }
    }

    /// Whether a guard must first lengthen the slots to `capacity` or empty some of them;
    /// the answer may change as soon as the lock is released.
    fn needs_upkeep(&self, capacity: usize) -> (r: Result<bool, EcsError>)
        ensures
            r is Err ==> r->Err_0 == EcsError::Poisoned,
    {
        match lock_inner(&self.shelf) {
            Some(mut g) => {
                let shelf = guarded(&mut g);
                Ok(shelf.slots.len() < capacity || shelf.pending.len() > 0)
            },
            None => Err(EcsError::Poisoned),
        }
    }

    /// Asks that the slots of `dead` be emptied before anyone sees the slots again. Where no
    /// guard holds the slots, they are emptied at once; else the next guard empties them.
    /// Never waits for the storage's access lock.
    pub fn schedule_cleanup(&self, dead: &Vec<Entity>) -> (r: Result<(), EcsError>)
        ensures
            r is Err ==> r->Err_0 == EcsError::Poisoned,
    {
        match lock_inner(&self.shelf) {
            Some(mut g) => {
                let shelf = guarded(&mut g);
                let mut i: usize = 0;
                while i < dead.len()
                    decreases dead@.len() - i,
                {
                    shelf.pending.push(dead[i]);
                    i = i + 1;
                }
                if !shelf.lent {
                    let mut held = share(empty_vec());
                    std::mem::swap(&mut shelf.slots, &mut held);
                    match try_unwrap(held) {
                        Ok(mut slots) => {
                            let mut ids: Vec<Entity> = Vec::new();
                            std::mem::swap(&mut shelf.pending, &mut ids);
                            clear_slots(&mut slots, &ids);
                            shelf.slots = share(slots);
                        },
                        Err(back) => {
                            shelf.slots = back;
                        },
                    }
                }
                Ok(())
            },
            None => Err(EcsError::Poisoned),
        }
    }

    /// The ids whose slots are still to be emptied.
    pub fn pending_cleanup(&self) -> (r: Result<Vec<Entity>, EcsError>)
        ensures
            r is Err ==> r->Err_0 == EcsError::Poisoned,
    {
        match lock_inner(&self.shelf) {
            Some(mut g) => Ok(guarded(&mut g).pending.clone()),
            None => Err(EcsError::Poisoned),
        }
    }
}

/// `std::slice::IterMut`, opaque.
#[verifier::external_type_specification]
#[verifier::external_body]
#[verifier::reject_recursive_types(T)]
pub struct ExIterMut<'a, T: 'a>(std::slice::IterMut<'a, T>);

/// Relies on `slice::iter_mut`: each element of `v`, in order, borrowed mutably.
#[verifier::external_body]
fn slots_iter_mut<'a, T>(v: &'a mut Vec<Option<T>>) -> std::slice::IterMut<'a, Option<T>> {
    v.iter_mut()
}

/// Shared access to one storage's slots; dropping it releases the access.
pub struct ImmutableStorageGuard<T> {
    slots: std::sync::Arc<Vec<Option<T>>>,
    access: AccessGuard,
}

impl<T> View for ImmutableStorageGuard<T> {
    type V = Seq<Option<T>>;

    closed spec fn view(&self) -> Seq<Option<T>> {
        self.slots@
    }
}

impl<T> ImmutableStorageGuard<T> {
    /// Blocks until the storage can be read. Where it holds fewer than `capacity` slots, or
    /// slots wait to be emptied, that is first done under exclusive access.
    pub fn new(storage: &std::sync::Arc<Storage<T>>, capacity: usize) -> (r: Result<
        ImmutableStorageGuard<T>,
        EcsError,
    >)
        ensures
            r matches Ok(g) ==> g@.len() >= capacity,
            r is Err ==> r->Err_0.of_access(),
    {
        let upkeep = match storage.needs_upkeep(capacity) {
            Ok(b) => b,
            Err(e) => {
                return Err(e);
            },
        };
        if upkeep {
            match MutableStorageGuard::new(storage, capacity) {
                Ok(_lengthened) => {},
                Err(e) => {
                    return Err(e);
                },
            }
        }
        let access = match AccessGuard::new(storage.accessor.clone(), false) {
            Ok(a) => a,
            Err(e) => {
                return Err(e);
            },
        };
        let slots = match lock_inner(&storage.shelf) {
            Some(mut g) => guarded(&mut g).slots.clone(),
            None => {
                return Err(EcsError::Poisoned);
            },
        };
        if slots.len() < capacity {
            // Slots are never shortened, and they were lengthened to `capacity` above.
            return Err(EcsError::Corrupted);
        }
        Ok(ImmutableStorageGuard { slots, access })
    }

    /// How many slots the storage holds.
    pub fn len(&self) -> (r: usize)
        ensures
            r == self@.len(),
    {
        self.slots.len()
    }

    /// The value in slot `id`, if any.
    pub fn get(&self, id: Entity) -> (r: Option<&T>)
        requires
            id < self@.len(),
        ensures
            match r {
                Some(v) => self@[id as int] == Some(*v),
                None => self@[id as int] is None,
            },
    {
        match &self.slots[id] {
            Some(v) => Some(v),
            None => None,
        }
    }

    /// All slots, empty ones included, in id order.
    pub fn iter(&self) -> (r: std::slice::Iter<'_, Option<T>>)
        ensures
            r.remaining() == self@.as_ref(),
    {
        self.slots.iter()
    }

    /// The slots themselves.
    pub fn raw(&self) -> (r: &Vec<Option<T>>)
        ensures
            r@ == self@,
    {
        &*self.slots
    }
}

/// Exclusive access to one storage's slots; dropping it hands the slots back and releases
/// the access.
#[verifier::reject_recursive_types(T)]
pub struct MutableStorageGuard<T> {
    storage: std::sync::Arc<Storage<T>>,
    slots: Vec<Option<T>>,
    access: AccessGuard,
}

impl<T> View for MutableStorageGuard<T> {
    type V = Seq<Option<T>>;

    closed spec fn view(&self) -> Seq<Option<T>> {
        self.slots@
    }
}

impl<T> MutableStorageGuard<T> {
    /// Blocks until the storage can be written, then empties the slots asked for by
    /// `Storage::schedule_cleanup` and lengthens the storage to at least `capacity` slots.
    pub fn new(storage: &std::sync::Arc<Storage<T>>, capacity: usize) -> (r: Result<
        MutableStorageGuard<T>,
        EcsError,
    >)
        ensures
            r matches Ok(g) ==> g@.len() >= capacity,
            r is Err ==> r->Err_0.of_access(),
    {
        let access = match AccessGuard::new(storage.accessor.clone(), true) {
            Ok(a) => a,
            Err(e) => {
                return Err(e);
            },
        };
        let mut g = match lock_inner(&storage.shelf) {
            Some(g) => g,
            None => {
                return Err(EcsError::Poisoned);
            },
        };
        let shelf = guarded(&mut g);
        let mut held = share(empty_vec());
        std::mem::swap(&mut shelf.slots, &mut held);
        let mut slots = match try_unwrap(held) {
            Ok(v) => v,
            Err(back) => {
                shelf.slots = back;
                return Err(EcsError::StillShared);
            },
        };
        shelf.lent = true;
        let mut dead: Vec<Entity> = Vec::new();
        std::mem::swap(&mut shelf.pending, &mut dead);
        clear_slots(&mut slots, &dead);
        grow_slots(&mut slots, capacity);
        Ok(MutableStorageGuard { storage: storage.clone(), slots, access })
    }

    /// How many slots the storage holds.
    pub fn len(&self) -> (r: usize)
        ensures
            r == self@.len(),
    {
        self.slots.len()
    }

    /// The value in slot `id`, if any.
    pub fn get(&self, id: Entity) -> (r: Option<&T>)
        requires
            id < self@.len(),
        ensures
            match r {
                Some(v) => self@[id as int] == Some(*v),
                None => self@[id as int] is None,
            },
    {
        match &self.slots[id] {
            Some(v) => Some(v),
            None => None,
        }
    }

    /// Puts `c` in slot `e` and returns what was there.
    pub fn insert(&mut self, e: Entity, c: T) -> (r: Option<T>)
        requires
            e < old(self)@.len(),
        ensures
            final(self)@ == inserted(old(self)@, e as int, c),
            r == old(self)@[e as int],
    {
        let mut slot = Some(c);
        std::mem::swap(&mut slot, &mut self.slots[e]);
        slot
    }

    /// Empties slot `e` and returns what was there.
    pub fn remove(&mut self, e: Entity) -> (r: Option<T>)
        requires
            e < old(self)@.len(),
        ensures
            final(self)@ == removed(old(self)@, e as int),
            r == old(self)@[e as int],
    {
        let mut slot = None;
        std::mem::swap(&mut slot, &mut self.slots[e]);
        slot
    }

    /// Lengthens the storage by `num_new_entities` empty slots.
    pub fn register_new_entities(&mut self, num_new_entities: usize)
        requires
            old(self)@.len() + num_new_entities <= usize::MAX,
        ensures
            final(self)@ == grown(old(self)@, (old(self)@.len() + num_new_entities) as nat),
    {
        let n = self.slots.len() + num_new_entities;
        grow_slots(&mut self.slots, n);
    }

    /// All slots, empty ones included, in id order, each one writable.
    pub fn iter_mut(&mut self) -> std::slice::IterMut<'_, Option<T>> {
        slots_iter_mut(&mut self.slots)
    }

    /// The value in slot `id`, if any, to change in place.
    pub fn get_mut(&mut self, id: Entity) -> (r: Option<&mut T>)
        requires
            id < old(self)@.len(),
        ensures
            match r {
                Some(v) => old(self)@[id as int] == Some(*v),
                None => old(self)@[id as int] is None,
            },
    {
        match &mut self.slots[id] {
            Some(v) => Some(v),
            None => None,
        }
    }

    /// The slots themselves.
    pub fn raw_mut(&mut self) -> (r: &Vec<Option<T>>)
        ensures
            r@ == old(self)@,
    {
        &self.slots
    }
}

impl<T> Drop for MutableStorageGuard<T> {
    fn drop(&mut self)
        opens_invariants none
        no_unwind
    {
        let mut slots = empty_vec();
        std::mem::swap(&mut slots, &mut self.slots);
        let shared = share(slots);
        match lock_inner(&self.storage.shelf) {
            Some(mut g) => {
                let shelf = guarded(&mut g);
                shelf.slots = shared;
                shelf.lent = false;
            },
            None => {},
        }
    }
}

} // verus!
