use vstd::prelude::*;

verus! {

/// Why a request to the world, its registry or one of its storages did not go through.
#[derive(Clone, Copy, Debug, PartialEq, Eq, Structural)]
pub enum EcsError {
    /// A thread panicked while it held one of the crate's locks: the state behind it can no
    /// longer be trusted.
    Poisoned,
    /// The state behind one of a storage's locks is not as the crate leaves it: an access
    /// state in none of its three modes, or slots fewer than a finished lengthening left.
    Corrupted,
    /// A counter of readers or of waiting writers is at its largest value.
    Saturated,
    /// The component type was never registered.
    NotRegistered,
    /// The component type is registered already.
    AlreadyRegistered,
    /// The registry holds a storage of another type under this type's key.
    WrongStorageType,
    /// The entity id lies beyond the storage's slots.
    OutOfRange,
    /// The storage's slots are still held by a guard that should have been released.
    StillShared,
}

impl EcsError {
    /// An error that taking access to a storage can end in.
    pub open spec fn of_access(self) -> bool {
        self == EcsError::Poisoned || self == EcsError::Corrupted || self == EcsError::Saturated
            || self == EcsError::StillShared
    }

    /// An error that finding a storage in the registry can end in.
    pub open spec fn of_lookup(self) -> bool {
        self == EcsError::NotRegistered || self == EcsError::WrongStorageType
    }

    /// A short text for the error, for logs and panics.
    pub fn message(&self) -> &'static str {
        match self {
            EcsError::Poisoned => "a lock was poisoned by a thread that panicked",
            EcsError::Corrupted => "an access state is in no valid mode",
            EcsError::Saturated => "too many readers or waiting writers",
            EcsError::NotRegistered => "the component type was never registered",
            EcsError::AlreadyRegistered => "the component type is registered already",
            EcsError::WrongStorageType => "the storage under this key holds another type",
            EcsError::OutOfRange => "the entity id lies beyond the storage's slots",
            EcsError::StillShared => "the storage's slots are still shared",
        }
    }
}

} // verus!
