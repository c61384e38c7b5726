use vstd::prelude::*;

use crate::component::{same_type, type_id_of, Component};
use crate::error::EcsError;
use crate::storage::{ImmutableStorageGuard, MutableStorageGuard, Storage};
use crate::Entity;

verus! {

/// A handle to a `Storage<T>` of any component type `T`, as the registry keeps it.
///
/// It holds an `Arc<Storage<T>>` behind `dyn Any + Send + Sync`, a type that Verus does
/// not take; the two functions below are the only ones that touch it.
#[verifier::external_body]
pub struct AnyStorage {
    inner: Box<dyn std::any::Any + Send + Sync>,
}

/// Relies on the coercion of `Box<Arc<Storage<T>>>` to `Box<dyn Any + Send + Sync>`: the
/// handle keeps the storage as it is.
#[verifier::external_body]
fn erase<T: Component>(storage: std::sync::Arc<Storage<T>>) -> AnyStorage {
    AnyStorage { inner: Box::new(storage) }
}

/// Relies on `downcast_ref` of `dyn Any`: a new `Arc` to the storage where the handle holds
/// a `Storage<T>`, else `None`.
#[verifier::external_body]
fn recover<T: Component>(handle: &AnyStorage) -> Option<std::sync::Arc<Storage<T>>> {
    match handle.inner.downcast_ref::<std::sync::Arc<Storage<T>>>() {
        Some(a) => Some(a.clone()),
        None => None,
    }
}

/// The work that the registry does on every storage alike, whatever its component type.
trait Maintain: Send + Sync {
    /// Asks that the slots of `dead` be emptied before anyone sees the slots again.
    fn schedule(&self, dead: &Vec<Entity>) -> (r: Result<(), EcsError>)
        ensures
            r is Err ==> r->Err_0 == EcsError::Poisoned,
    ;

    /// The ids whose slots are still to be emptied.
    fn pending(&self) -> (r: Result<Vec<Entity>, EcsError>)
        ensures
            r is Err ==> r->Err_0 == EcsError::Poisoned,
    ;
}

#[verifier::reject_recursive_types(T)]
struct Keeper<T> {
    storage: std::sync::Arc<Storage<T>>,
}

impl<T: Component> Maintain for Keeper<T> {
    fn schedule(&self, dead: &Vec<Entity>) -> (r: Result<(), EcsError>) {
        self.storage.schedule_cleanup(dead)
    }

    fn pending(&self) -> (r: Result<Vec<Entity>, EcsError>) {
        self.storage.pending_cleanup()
    }
}

struct StorageBox {
    type_id: std::any::TypeId,
    handle: AnyStorage,
}

/// The registry: one storage per registered component type, and the number of slots that
/// every storage must have, which is the number of entity ids handed out so far.
///
/// A storage is lengthened lazily, when it is next checked out.
pub struct Warehouse {
    capacity: usize,
    storages: Vec<StorageBox>,
    keepers: Vec<Box<dyn Maintain>>,
}

impl Warehouse {
    /// The keys of the registered types, in order of registration.
    pub closed spec fn keys(&self) -> Seq<std::any::TypeId> {
        self.storages@.map_values(|b: StorageBox| b.type_id)
    }

    /// How many slots every storage must have.
    pub closed spec fn slots_owed(&self) -> nat {
        self.capacity as nat
    }

    pub fn new() -> (r: Warehouse)
        ensures
            r.keys() == Seq::<std::any::TypeId>::empty(),
            r.slots_owed() == 0,
    {
        Warehouse { capacity: 0, storages: Vec::new(), keepers: Vec::new() }
    }

    pub fn capacity(&self) -> (r: usize)
        ensures
            r == self.slots_owed(),
    {
        self.capacity
    }

    /// Records `by` new entity ids: every storage owes that many more slots, each empty.
    pub fn grow_all(&mut self, by: usize) -> (r: Result<(), EcsError>)
        ensures
            r is Ok <==> old(self).slots_owed() + by <= usize::MAX,
            r is Ok ==> final(self).slots_owed() == old(self).slots_owed() + by,
            r is Err ==> r->Err_0 == EcsError::Saturated && final(self).slots_owed()
                == old(self).slots_owed(),
            final(self).keys() == old(self).keys(),
    {
        if self.capacity > usize::MAX - by {
            Err(EcsError::Saturated)
        } else {
            self.capacity = self.capacity + by;
            Ok(())
        }
    }

    /// Where the type with key `key` stands among the registered ones.
    fn find(&self, key: &std::any::TypeId) -> (r: Option<usize>)
        ensures
            match r {
                Some(i) => i < self.keys().len() && self.keys()[i as int] == *key,
                None => !self.keys().contains(*key),
            },
    {
        let mut i: usize = 0;
        while i < self.storages.len()
            invariant
                i <= self.storages@.len(),
                forall|j: int| 0 <= j < i ==> self.keys()[j] != *key,
            decreases self.storages@.len() - i,
        {
            if same_type(&self.storages[i].type_id, key) {
                return Some(i);
            }
            i = i + 1;
        }
        None
    }

    /// Whether a storage is registered under `key`.
    pub fn is_registered(&self, key: &std::any::TypeId) -> (r: bool)
        ensures
            r == self.keys().contains(*key),
    {
        match self.find(key) {
            Some(_) => true,
            None => false,
        }
    }

    /// Registers an empty storage of `T` under `key`, with the slots owed, unless a storage
    /// is registered under `key` already.
    fn register_as<T: Component>(&mut self, key: std::any::TypeId) -> (r: Result<(), EcsError>)
        ensures
            r is Ok <==> !old(self).keys().contains(key),
            r is Ok ==> final(self).keys() == old(self).keys().push(key),
            r is Err ==> r->Err_0 == EcsError::AlreadyRegistered && final(self).keys() == old(
                self,
            ).keys(),
            final(self).slots_owed() == old(self).slots_owed(),
    {
        match self.find(&key) {
            Some(_) => Err(EcsError::AlreadyRegistered),
            None => {
                let storage = std::sync::Arc::new(Storage::<T>::new(self.capacity));
                let keeper = Keeper { storage: storage.clone() };
                let b = StorageBox { type_id: key, handle: erase(storage) };
                self.keepers.push(Box::new(keeper));
                let ghost before = self.storages@;
                self.storages.push(b);
                assert(self.keys() =~= old(self).keys().push(key)) by {
                    assert forall|j: int| 0 <= j < before.len() implies self.storages@[j] == before[j] by {}
                }
                Ok(())
            },
        }
    }

    /// Registers an empty storage for the component type `T`, with the slots owed; fails
    /// where `T` is registered already, and then changes nothing.
    pub fn register<T: Component>(&mut self) -> (r: Result<(), EcsError>)
        ensures
            exists|k: std::any::TypeId|
                {
                    &&& (r is Ok <==> !old(self).keys().contains(k))
                    &&& (r is Ok ==> final(self).keys() == old(self).keys().push(k))
                },
            r is Err ==> r->Err_0 == EcsError::AlreadyRegistered && final(self).keys() == old(
                self,
            ).keys(),
            final(self).slots_owed() == old(self).slots_owed(),
    {
        let key = type_id_of::<T>();
        let r = self.register_as::<T>(key);
        assert((r is Ok <==> !old(self).keys().contains(key)) && (r is Ok ==> final(self).keys()
            == old(self).keys().push(key)));
        r
    }

    /// The storage registered under `key`, as a storage of `T`, and the slots owed.
    fn storage_at<T: Component>(&self, key: &std::any::TypeId) -> (r: Result<
        (std::sync::Arc<Storage<T>>, usize),
        EcsError,
    >)
        ensures
            (r == Err::<(std::sync::Arc<Storage<T>>, usize), EcsError>(EcsError::NotRegistered))
                <==> !self.keys().contains(*key),
            r matches Ok(p) ==> p.1 == self.slots_owed(),
            r is Err ==> r->Err_0.of_lookup(),
    {
        match self.find(key) {
            None => Err(EcsError::NotRegistered),
            Some(i) => match recover::<T>(&self.storages[i].handle) {
                Some(s) => Ok((s, self.capacity)),
                None => Err(EcsError::WrongStorageType),
            },
        }
    }

    /// The storage of `T` and the number of slots it owes, without touching its lock; fails
    /// with `NotRegistered` exactly where `T` is not registered.
    pub fn storage_of<T: Component>(&self) -> (r: Result<(std::sync::Arc<Storage<T>>, usize), EcsError>)
        ensures
            exists|k: std::any::TypeId|
                (r == Err::<(std::sync::Arc<Storage<T>>, usize), EcsError>(EcsError::NotRegistered))
                    <==> !self.keys().contains(k),
            r matches Ok(p) ==> p.1 == self.slots_owed(),
            r is Err ==> r->Err_0.of_lookup(),
    {
        let key = type_id_of::<T>();
        let r = self.storage_at::<T>(&key);
        assert((r == Err::<(std::sync::Arc<Storage<T>>, usize), EcsError>(EcsError::NotRegistered))
            <==> !self.keys().contains(key));
        r
    }

    /// Shared access to the storage of `T`, with at least the slots owed. Fails with
    /// `NotRegistered` exactly where `T` is not registered, before touching any storage.
    /// Blocks while the registry stays locked by the caller: to keep other threads' lookups
    /// going, prefer `World::req_read_guard`.
    pub fn checkout_storage<T: Component>(&self) -> (r: Result<ImmutableStorageGuard<T>, EcsError>)
        ensures
            exists|k: std::any::TypeId|
                (r matches Err(e) && e == EcsError::NotRegistered) <==> !self.keys().contains(k),
            r matches Ok(g) ==> g@.len() >= self.slots_owed(),
            r is Err ==> r->Err_0.of_lookup() || r->Err_0.of_access(),
    {
        let key = type_id_of::<T>();
        let r = match self.storage_at::<T>(&key) {
            Ok(p) => ImmutableStorageGuard::new(&p.0, p.1),
            Err(e) => Err(e),
        };
        assert((r matches Err(e) && e == EcsError::NotRegistered) <==> !self.keys().contains(key));
        r
    }

    /// Exclusive access to the storage of `T`, with at least the slots owed. Fails with
    /// `NotRegistered` exactly where `T` is not registered, before touching any storage.
    /// Blocks while the registry stays locked by the caller: prefer `World::req_write_guard`.
    pub fn checkout_storage_mut<T: Component>(&self) -> (r: Result<MutableStorageGuard<T>, EcsError>)
        ensures
            exists|k: std::any::TypeId|
                (r matches Err(e) && e == EcsError::NotRegistered) <==> !self.keys().contains(k),
            r matches Ok(g) ==> g@.len() >= self.slots_owed(),
            r is Err ==> r->Err_0.of_lookup() || r->Err_0.of_access(),
    {
        let key = type_id_of::<T>();
        let r = match self.storage_at::<T>(&key) {
            Ok(p) => MutableStorageGuard::new(&p.0, p.1),
            Err(e) => Err(e),
        };
        assert((r matches Err(e) && e == EcsError::NotRegistered) <==> !self.keys().contains(key));
        r
    }

    /// Asks every registered storage to empty the slots of `dead` before anyone sees its
    /// slots again. Blocks on no storage's access lock.
    pub fn notify_of_dead_entities(&self, dead: &Vec<Entity>) -> (r: Result<(), EcsError>)
        ensures
            r is Err ==> r->Err_0 == EcsError::Poisoned,
    {
        let mut i: usize = 0;
        while i < self.keepers.len()
            decreases self.keepers@.len() - i,
        {
            match self.keepers[i].schedule(dead) {
                Ok(()) => {},
                Err(e) => {
                    return Err(e);
                },
            }
            i = i + 1;
        }
        Ok(())
    }

    /// The ids whose slots some storage has still to empty, each storage's in turn.
    pub fn pending_cleanup(&self) -> (r: Result<Vec<Entity>, EcsError>)
        ensures
            r is Err ==> r->Err_0 == EcsError::Poisoned,
    {
        let mut out: Vec<Entity> = Vec::new();
        let mut i: usize = 0;
        while i < self.keepers.len()
            decreases self.keepers@.len() - i,
        {
            let ids = match self.keepers[i].pending() {
                Ok(ids) => ids,
                Err(e) => {
                    return Err(e);
                },
            };
            let mut j: usize = 0;
            while j < ids.len()
                decreases ids@.len() - j,
            {
                out.push(ids[j]);
                j = j + 1;
            }
            i = i + 1;
        }
        Ok(out)
    }
}

} // verus!
