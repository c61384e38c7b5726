use vstd::prelude::*;

verus! {

/// `std::sync::Mutex`, opaque: nothing is assumed of what it holds.
#[verifier::external_type_specification]
#[verifier::external_body]
#[verifier::reject_recursive_types(T)]
pub struct ExMutex<T: ?Sized>(std::sync::Mutex<T>);

/// `std::sync::MutexGuard`, opaque: the lock is held while it lives.
#[verifier::external_type_specification]
#[verifier::external_body]
#[verifier::reject_recursive_types(T)]
pub struct ExMutexGuard<'a, T: ?Sized + 'a>(std::sync::MutexGuard<'a, T>);

/// `std::sync::Condvar`, opaque.
#[verifier::external_type_specification]
#[verifier::external_body]
pub struct ExCondvar(std::sync::Condvar);

/// Relies on `Mutex::new`: a new unlocked mutex; nothing is stated of its contents.
pub assume_specification<T>[ std::sync::Mutex::<T>::new ](t: T) -> std::sync::Mutex<T>;

/// Relies on `Condvar::new`: a condition variable on which nobody waits.
pub assume_specification[ std::sync::Condvar::new ]() -> std::sync::Condvar;

/// Relies on `Mutex::lock`: blocks until the calling thread holds the lock, and hands back
/// `None` where the mutex was poisoned by a holder that panicked. Where the calling thread
/// holds the lock already, it may panic or never return.
#[verifier::external_body]
pub(crate) fn lock<'a, T>(m: &'a std::sync::Mutex<T>) -> (r: Option<std::sync::MutexGuard<'a, T>>) {
    m.lock().ok()
}

/// Relies on `Mutex::lock`, as `lock` does, for a mutex whose guard never leaves the crate
/// function that took it and which no such function takes twice: the case in which `lock`
/// may panic does not arise, so the call does not unwind. Only the private mutexes of
/// `Accessor` and `Storage` are locked through it.
#[verifier::external_body]
pub(crate) fn lock_inner<'a, T>(m: &'a std::sync::Mutex<T>) -> (r: Option<std::sync::MutexGuard<'a, T>>)
    opens_invariants none
    no_unwind
{
    m.lock().ok()
}

/// Relies on `DerefMut` of `MutexGuard`: the value that the held lock protects.
#[verifier::external_body]
pub(crate) fn guarded<'a, 'b, T>(g: &'b mut std::sync::MutexGuard<'a, T>) -> (r: &'b mut T)
    opens_invariants none
    no_unwind
{
    &mut *g
}

/// Relies on `Arc::try_unwrap`: the value itself where no other `Arc` shares it, else the
/// `Arc` unchanged.
#[verifier::external_body]
pub(crate) fn try_unwrap<T>(a: std::sync::Arc<T>) -> (r: Result<T, std::sync::Arc<T>>)
    ensures
        match r {
            Ok(t) => t == *a,
            Err(b) => b == a,
        },
{
    std::sync::Arc::try_unwrap(a)
}

/// Relies on `Arc::new`, for use where unwinding is not allowed: a failed allocation aborts
/// the process instead of unwinding.
#[verifier::external_body]
pub(crate) fn share<T>(t: T) -> (r: std::sync::Arc<T>)
    ensures
        *r == t,
    opens_invariants none
    no_unwind
{
    std::sync::Arc::new(t)
}

/// Relies on `Vec::new`, for use where unwinding is not allowed: it allocates nothing.
#[verifier::external_body]
pub(crate) fn empty_vec<T>() -> (r: Vec<T>)
    ensures
        r@ == Seq::<T>::empty(),
    opens_invariants none
    no_unwind
{
    Vec::new()
}

} // verus!
