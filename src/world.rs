use vstd::prelude::*;

use crate::component::Component;
use crate::entity::{recycle_ready, Entities, IdState};
use crate::error::EcsError;
use crate::storage::{ImmutableStorageGuard, MutableStorageGuard};
use crate::sync::{guarded, lock};
use crate::warehouse::Warehouse;
use crate::Entity;

verus! {

/// The world: the entities and the registry of component storages, to be shared between
/// threads (for instance in an `Arc`).
///
/// Locks are always taken in one order, entities before registry, and the registry is
/// never locked while a storage's access lock is awaited, except through `open_warehouse`.
pub struct World {
    entities: std::sync::Mutex<Entities>,
    warehouse: std::sync::Mutex<Warehouse>,
}

impl World {
    pub fn new() -> World {
        World {
            entities: std::sync::Mutex::new(Entities::new()),
            warehouse: std::sync::Mutex::new(Warehouse::new()),
        }
    }

    /// The registry, locked until the returned guard is dropped. Meanwhile the calling
    /// thread must not call the world's other methods, which lock the registry too.
    pub fn open_warehouse(&self) -> (r: Result<std::sync::MutexGuard<'_, Warehouse>, EcsError>)
        ensures
            r is Err ==> r->Err_0 == EcsError::Poisoned,
    {
        match lock(&self.warehouse) {
            Some(g) => Ok(g),
            None => Err(EcsError::Poisoned),
        }
    }

    /// Hands out an entity id (see `allocate`); where it is a new one, every storage owes
    /// one more slot.
    pub fn create_entity(&self) -> (r: Result<Entity, EcsError>)
        ensures
            r is Err ==> r->Err_0 == EcsError::Poisoned || r->Err_0 == EcsError::Saturated,
    {
        let mut eg = match lock(&self.entities) {
            Some(g) => g,
            None => {
                return Err(EcsError::Poisoned);
            },
        };
        let mut wg = match lock(&self.warehouse) {
            Some(g) => g,
            None => {
                return Err(EcsError::Poisoned);
            },
        };
        allocate(guarded(&mut eg), guarded(&mut wg))
    }

    /// Marks a living entity dead and returns whether it was alive. Its components stay in
    /// the storages until `maintain_ecs` runs.
    pub fn rm_entity(&self, e: Entity) -> (r: Result<bool, EcsError>)
        ensures
            r is Err ==> r->Err_0 == EcsError::Poisoned,
    {
        match lock(&self.entities) {
            Some(mut g) => Ok(guarded(&mut g).rm_entity(e)),
            None => Err(EcsError::Poisoned),
        }
    }

    /// The entities in use, in increasing order.
    pub fn live_entities(&self) -> (r: Result<Vec<Entity>, EcsError>)
        ensures
            r is Err ==> r->Err_0 == EcsError::Poisoned,
    {
        match lock(&self.entities) {
            Some(mut g) => Ok(guarded(&mut g).live_entities()),
            None => Err(EcsError::Poisoned),
        }
    }

    /// Registers a storage for the component type `T`, with a slot per entity id handed out
    /// so far. Registering a type twice is an error.
    pub fn register_component<T: Component>(&self) -> (r: Result<(), EcsError>)
        ensures
            r is Err ==> r->Err_0 == EcsError::Poisoned || r->Err_0
                == EcsError::AlreadyRegistered,
    {
        match lock(&self.warehouse) {
            Some(mut g) => guarded(&mut g).register::<T>(),
            None => Err(EcsError::Poisoned),
        }
    }

    /// Shared access to the storage of `T`. The registry is locked only to find the storage.
    pub fn req_read_guard<T: Component>(&self) -> (r: Result<ImmutableStorageGuard<T>, EcsError>)
        ensures
            r is Err ==> r->Err_0.of_lookup() || r->Err_0.of_access(),
    {
        let found = match lock(&self.warehouse) {
            Some(mut g) => guarded(&mut g).storage_of::<T>(),
            None => Err(EcsError::Poisoned),
        };
        match found {
            Ok(p) => ImmutableStorageGuard::new(&p.0, p.1),
            Err(e) => Err(e),
        }
    }

    /// Exclusive access to the storage of `T`, with a slot per entity id handed out. The
    /// registry is locked only to find the storage.
    pub fn req_write_guard<T: Component>(&self) -> (r: Result<MutableStorageGuard<T>, EcsError>)
        ensures
            r is Err ==> r->Err_0.of_lookup() || r->Err_0.of_access(),
    {
        let found = match lock(&self.warehouse) {
            Some(mut g) => guarded(&mut g).storage_of::<T>(),
            None => Err(EcsError::Poisoned),
        };
        match found {
            Ok(p) => MutableStorageGuard::new(&p.0, p.1),
            Err(e) => Err(e),
        }
    }

    /// Attaches `comp` to `ent` and returns the component of type `T` it had, if any.
    pub fn add_component<T: Component>(&self, ent: Entity, comp: T) -> (r: Result<Option<T>, EcsError>)
        ensures
            r is Err ==> r->Err_0.of_lookup() || r->Err_0.of_access() || r->Err_0
                == EcsError::OutOfRange,
    {
        let mut guard = match self.req_write_guard::<T>() {
            Ok(g) => g,
            Err(e) => {
                return Err(e);
            },
        };
        put_component(&mut guard, ent, comp)
    }

    /// Detaches the component of type `T` from `ent` and returns it, if there was one.
    pub fn rm_component<T: Component>(&self, ent: &Entity) -> (r: Result<Option<T>, EcsError>)
        ensures
            r is Err ==> r->Err_0.of_lookup() || r->Err_0.of_access() || r->Err_0
                == EcsError::OutOfRange,
    {
        let mut guard = match self.req_write_guard::<T>() {
            Ok(g) => g,
            Err(e) => {
                return Err(e);
            },
        };
        take_component(&mut guard, *ent)
    }

    /// Empties, in every storage, the slots of the entities removed since the last call,
    /// and lets an id be handed out again once no storage holds data of it. A storage that
    /// a guard holds empties the slots when it is next checked out, before anyone sees them;
    /// no storage's access lock is awaited here.
    pub fn maintain_ecs(&self) -> (r: Result<(), EcsError>)
        ensures
            r is Err ==> r->Err_0 == EcsError::Poisoned,
    {
        let mut eg = match lock(&self.entities) {
            Some(g) => g,
            None => {
                return Err(EcsError::Poisoned);
            },
        };
        let mut wg = match lock(&self.warehouse) {
            Some(g) => g,
            None => {
                return Err(EcsError::Poisoned);
            },
        };
        maintain(guarded(&mut eg), guarded(&mut wg))
    }
}

/// Puts `comp` in slot `ent` where the storage has that slot, and returns what was there.
pub fn put_component<T>(guard: &mut MutableStorageGuard<T>, ent: Entity, comp: T) -> (r: Result<
    Option<T>,
    EcsError,
>)
    ensures
        r is Ok <==> ent < old(guard)@.len(),
        r matches Ok(prev) ==> prev == old(guard)@[ent as int] && final(guard)@ == crate::storage::inserted(
            old(guard)@,
            ent as int,
            comp,
        ),
        r is Err ==> r->Err_0 == EcsError::OutOfRange && final(guard)@ == old(guard)@,
{
    if ent < guard.len() {
        Ok(guard.insert(ent, comp))
    } else {
        Err(EcsError::OutOfRange)
    }
}

/// Empties slot `ent` where the storage has that slot, and returns what was there.
pub fn take_component<T>(guard: &mut MutableStorageGuard<T>, ent: Entity) -> (r: Result<
    Option<T>,
    EcsError,
>)
    ensures
        r is Ok <==> ent < old(guard)@.len(),
        r matches Ok(prev) ==> prev == old(guard)@[ent as int] && final(guard)@ == crate::storage::removed(
            old(guard)@,
            ent as int,
        ),
        r is Err ==> r->Err_0 == EcsError::OutOfRange && final(guard)@ == old(guard)@,
{
    if ent < guard.len() {
        Ok(guard.remove(ent))
    } else {
        Err(EcsError::OutOfRange)
    }
}

/// Hands out an entity id from `entities` as `Entities::new_entity_id` does, and makes the
/// registry owe a slot for every id handed out.
pub fn allocate(entities: &mut Entities, warehouse: &mut Warehouse) -> (r: Result<Entity, EcsError>)
    ensures
        old(entities).free_ids().len() > 0 ==> {
            &&& r == Ok::<Entity, EcsError>(old(entities).free_ids().last())
            &&& final(entities)@ == old(entities)@.update(r->Ok_0 as int, IdState::Alive)
            &&& final(entities).free_ids() == old(entities).free_ids().drop_last()
        },
        old(entities).free_ids().len() == 0 ==> {
            &&& (r is Ok <==> old(entities)@.len() < usize::MAX)
            &&& r is Ok ==> r->Ok_0 == old(entities)@.len() && final(entities)@ == old(
                entities,
            )@.push(IdState::Alive)
            &&& final(entities).free_ids() == old(entities).free_ids()
        },
        r matches Ok(id) ==> !old(entities).is_alive(id as int) && final(entities).is_alive(
            id as int,
        ),
        r is Ok ==> final(warehouse).slots_owed() >= final(entities)@.len()
            && final(warehouse).slots_owed() >= old(warehouse).slots_owed(),
        r is Err ==> r->Err_0 == EcsError::Saturated && final(entities)@ == old(entities)@
            && final(warehouse).slots_owed() == old(warehouse).slots_owed(),
        final(entities).dead_ids() == old(entities).dead_ids(),
        final(warehouse).keys() == old(warehouse).keys(),
{
    let id = match entities.new_entity_id() {
        Ok(id) => id,
        Err(e) => {
            return Err(e);
        },
    };
    let count = entities.num_entities();
    let owed = warehouse.capacity();
    if count > owed {
        match warehouse.grow_all(count - owed) {
            Ok(()) => {},
            Err(e) => {
                return Err(e);
            },
        }
    }
    Ok(id)
}

/// The upkeep behind `World::maintain_ecs`: the dead entities start being cleaned, every
/// storage is asked to empty their slots, and each id being cleaned that no storage still
/// has to empty becomes free.
pub fn maintain(entities: &mut Entities, warehouse: &mut Warehouse) -> (r: Result<(), EcsError>)
    ensures
        r is Err ==> r->Err_0 == EcsError::Poisoned,
        r is Ok ==> final(entities).dead_ids() == Seq::<Entity>::empty(),
        r is Ok ==> final(entities)@.len() == old(entities)@.len(),
        r is Ok ==> forall|j: int|
            0 <= j < old(entities).dead_ids().len() ==> final(entities)@[old(
                entities,
            ).dead_ids()[j] as int] != IdState::Dead,
        r is Ok ==> forall|k: int|
            0 <= k < final(entities)@.len() && final(entities)@[k] == IdState::Free ==> old(
                entities,
            )@[k] == IdState::Free || old(entities)@[k] == IdState::Dead || old(entities)@[k]
                == IdState::Cleaning,
        final(warehouse).keys() == old(warehouse).keys(),
{
    let dead = entities.take_dead();
    match warehouse.notify_of_dead_entities(&dead) {
        Ok(()) => {},
        Err(e) => {
            return Err(e);
        },
    }
    let pending = match warehouse.pending_cleanup() {
        Ok(p) => p,
        Err(e) => {
            return Err(e);
        },
    };
    recycle_ready(entities, &pending);
    Ok(())
}

} // verus!
