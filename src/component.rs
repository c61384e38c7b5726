use vstd::prelude::*;

verus! {

/// `std::any::TypeId`, opaque: compared only through `same_type`.
#[verifier::external_type_specification]
#[verifier::external_body]
pub struct ExTypeId(std::any::TypeId);

/// Relies on `TypeId::of`: the identifier of the type `T`.
#[verifier::external_body]
pub(crate) fn type_id_of<T: 'static>() -> std::any::TypeId {
    std::any::TypeId::of::<T>()
}

/// Relies on `==` of `TypeId`: two identifiers are equal exactly when they name one type.
#[verifier::external_body]
pub(crate) fn same_type(a: &std::any::TypeId, b: &std::any::TypeId) -> (r: bool)
    ensures
        r == (*a == *b),
{
    *a == *b
}

/// A type whose values can be attached to entities, one storage per type.
pub trait Component: Sized + Send + Sync + 'static {
    /// The key under which the registry keeps this type's storage.
    fn type_id() -> std::any::TypeId {
        type_id_of::<Self>()
    }
}

} // verus!
