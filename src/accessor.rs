use vstd::prelude::*;

use crate::error::EcsError;
use crate::sync::{guarded, lock_inner};

verus! {

/// Which of the blocked threads a release wakes.
#[derive(Clone, Copy, Debug, PartialEq, Eq, Structural)]
pub enum Wake {
    /// Exactly one thread waiting to write.
    OneWriter,
    /// Every thread waiting to read.
    AllReaders,
}

/// The state behind one storage's access lock.
///
/// It is in one of three modes: open (no holder, both kinds of access allowed), reading
/// (`readers` shared holders, writing not allowed) and writing (one exclusive holder,
/// neither kind allowed). `writers_waiting` counts the writers that are blocked, not the
/// one that may hold the lock.
#[derive(Clone, Copy, Debug, PartialEq, Eq, Structural)]
pub struct AccessorState {
    pub readers: usize,
    pub read_allowed: bool,
    pub write_allowed: bool,
    pub writers_waiting: usize,
}

impl AccessorState {
    pub open spec fn is_open(self) -> bool {
        self.readers == 0 && self.read_allowed && self.write_allowed
    }

    pub open spec fn is_reading(self) -> bool {
        self.readers > 0 && self.read_allowed && !self.write_allowed
    }

    pub open spec fn is_writing(self) -> bool {
        self.readers == 0 && !self.read_allowed && !self.write_allowed
    }

    /// The state is in one of its three modes.
    pub open spec fn wf(self) -> bool {
        self.is_open() || self.is_reading() || self.is_writing()
    }

    /// A thread asking to read must sleep on this state.
    pub open spec fn reader_blocked(self) -> bool {
        !self.read_allowed || self.readers == usize::MAX
    }

    /// A thread asking to write, counted among the waiting writers, must sleep on this state.
    pub open spec fn writer_blocked(self) -> bool {
        !self.write_allowed || self.writers_waiting == 0
    }

    pub open spec fn blocked(self, write: bool) -> bool {
        if write {
            self.writer_blocked()
        } else {
            self.reader_blocked()
        }
    }

    /// The state after a reader is let in.
    pub open spec fn read_begun(self) -> AccessorState {
        AccessorState { readers: (self.readers + 1) as usize, write_allowed: false, ..self }
    }

    /// The state after a writer announces that it waits.
    pub open spec fn writer_queued(self) -> AccessorState {
        AccessorState { writers_waiting: (self.writers_waiting + 1) as usize, ..self }
    }

    /// The state after a waiting writer is let in.
    pub open spec fn write_begun(self) -> AccessorState {
        AccessorState {
            read_allowed: false,
            write_allowed: false,
            writers_waiting: (self.writers_waiting - 1) as usize,
            ..self
        }
    }

    /// The state after a reader leaves: the last one to leave allows writing again, and
    /// reading stays allowed for readers that were woken but have not yet come in.
    pub open spec fn read_ended(self) -> AccessorState {
        AccessorState {
            readers: (self.readers - 1) as usize,
            write_allowed: self.readers == 1 || self.write_allowed,
            ..self
        }
    }

    /// The state after the writer leaves.
    pub open spec fn write_ended(self) -> AccessorState {
        AccessorState { read_allowed: true, write_allowed: true, ..self }
    }

    /// Whom a release wakes on this state: one writer if any waits, else all readers.
    pub open spec fn wake_for(self) -> Wake {
        if self.writers_waiting > 0 {
            Wake::OneWriter
        } else {
            Wake::AllReaders
        }
    }

    /// The state of a lock nobody holds or waits for.
    pub open spec fn initial() -> AccessorState {
        AccessorState { readers: 0, read_allowed: true, write_allowed: true, writers_waiting: 0 }
    }

    pub fn new() -> (s: AccessorState)
        ensures
            s == AccessorState::initial(),
            s.is_open(),
    {
        AccessorState { readers: 0, read_allowed: true, write_allowed: true, writers_waiting: 0 }
    }

    pub fn is_consistent(&self) -> (r: bool)
        ensures
            r == self.wf(),
        opens_invariants none
        no_unwind
    {
        let open = self.readers == 0 && self.read_allowed && self.write_allowed;
        let reading = self.readers > 0 && self.read_allowed && !self.write_allowed;
        let writing = self.readers == 0 && !self.read_allowed && !self.write_allowed;
        open || reading || writing
    }

    pub fn must_wait(&self, write: bool) -> (r: bool)
        ensures
            r == self.blocked(write),
    {
        if write {
            !self.write_allowed || self.writers_waiting == 0
        } else {
            !self.read_allowed || self.readers == usize::MAX
        }
    }

    pub fn begin_read(&mut self)
        requires
            old(self).wf(),
            !old(self).reader_blocked(),
        ensures
            *final(self) == old(self).read_begun(),
            final(self).is_reading(),
            final(self).writers_waiting == old(self).writers_waiting,
    {
        self.write_allowed = false;
        self.readers = self.readers + 1;
    }

    /// Counts one more waiting writer, unless the count is at its largest value.
    pub fn queue_writer(&mut self) -> (r: Result<(), EcsError>)
        ensures
            r is Ok <==> old(self).writers_waiting < usize::MAX,
            r is Ok ==> *final(self) == old(self).writer_queued(),
            r is Err ==> r == Err::<(), EcsError>(EcsError::Saturated) && *final(self) == *old(self),
    {
        if self.writers_waiting == usize::MAX {
            Err(EcsError::Saturated)
        } else {
            self.writers_waiting = self.writers_waiting + 1;
            Ok(())
        }
    }

    pub fn begin_write(&mut self)
        requires
            old(self).wf(),
            !old(self).writer_blocked(),
        ensures
            *final(self) == old(self).write_begun(),
            final(self).is_writing(),
    {
        self.read_allowed = false;
        self.write_allowed = false;
        self.writers_waiting = self.writers_waiting - 1;
    }

    pub fn end_read(&mut self) -> (w: Wake)
        requires
            old(self).wf(),
            old(self).readers > 0,
        ensures
            *final(self) == old(self).read_ended(),
            final(self).wf(),
            w == final(self).wake_for(),
        opens_invariants none
        no_unwind
    {
        self.readers = self.readers - 1;
        if self.readers == 0 {
            self.write_allowed = true;
        }
        if self.writers_waiting > 0 {
            Wake::OneWriter
        } else {
            Wake::AllReaders
        }
    }

    pub fn end_write(&mut self) -> (w: Wake)
        requires
            old(self).is_writing(),
        ensures
            *final(self) == old(self).write_ended(),
            final(self).is_open(),
            w == final(self).wake_for(),
        opens_invariants none
        no_unwind
    {
        self.read_allowed = true;
        self.write_allowed = true;
        if self.writers_waiting > 0 {
            Wake::OneWriter
        } else {
            Wake::AllReaders
        }
    }
}

/// One thing a thread can do to one access lock.
#[derive(Clone, Copy, Debug, PartialEq, Eq, Structural)]
pub enum Step {
    /// A reader is let in.
    Read,
    /// A writer announces that it waits.
    Queue,
    /// A waiting writer is let in.
    Write,
    /// A reader leaves.
    Unread,
    /// The writer leaves.
    Unwrite,
}

/// The step can be taken: the lock lets the thread in, or the thread holds what it gives
/// back (`shared` readers and `exclusive` writers hold the lock).
pub open spec fn step_enabled(s: AccessorState, shared: nat, exclusive: nat, step: Step) -> bool {
    match step {
        Step::Read => !s.reader_blocked(),
        Step::Queue => s.writers_waiting < usize::MAX,
        Step::Write => !s.writer_blocked(),
        Step::Unread => shared > 0,
        Step::Unwrite => exclusive > 0,
    }
}

/// The state after the step, as the methods of `AccessorState` compute it.
pub open spec fn step_state(s: AccessorState, step: Step) -> AccessorState {
    match step {
        Step::Read => s.read_begun(),
        Step::Queue => s.writer_queued(),
        Step::Write => s.write_begun(),
        Step::Unread => s.read_ended(),
        Step::Unwrite => s.write_ended(),
    }
}

pub open spec fn step_shared(shared: nat, step: Step) -> nat {
    match step {
        Step::Read => shared + 1,
        Step::Unread => (shared - 1) as nat,
        _ => shared,
    }
}

pub open spec fn step_exclusive(exclusive: nat, step: Step) -> nat {
    match step {
        Step::Write => exclusive + 1,
        Step::Unwrite => (exclusive - 1) as nat,
        _ => exclusive,
    }
}

/// What a sequence of steps from a fresh lock leads to: the state and how many threads
/// hold shared and exclusive access; `None` where some step could not be taken.
pub open spec fn run(steps: Seq<Step>) -> Option<(AccessorState, nat, nat)>
    decreases steps.len(),
{
    if steps.len() == 0 {
        Some((AccessorState::initial(), 0, 0))
    } else {
        match run(steps.drop_last()) {
            None => None,
            Some(prev) => {
                let (s, shared, exclusive) = prev;
                let step = steps.last();
                if step_enabled(s, shared, exclusive, step) {
                    Some(
                        (
                            step_state(s, step),
                            step_shared(shared, step),
                            step_exclusive(exclusive, step),
                        ),
                    )
                } else {
                    None
                }
            },
        }
    }
}

/// The lock's state accounts for its holders: its reader count is the number of shared
/// holders, and it is in writing mode exactly when the one exclusive holder holds it.
pub open spec fn accounts_for(s: AccessorState, shared: nat, exclusive: nat) -> bool {
    &&& s.wf()
    &&& s.readers == shared
    &&& exclusive <= 1
    &&& (exclusive == 1 <==> s.is_writing())
}

/// Each step that can be taken keeps the state in step with its holders.
pub proof fn lemma_step_accounts(s: AccessorState, shared: nat, exclusive: nat, step: Step)
    requires
        accounts_for(s, shared, exclusive),
        step_enabled(s, shared, exclusive, step),
    ensures
        accounts_for(
            step_state(s, step),
            step_shared(shared, step),
            step_exclusive(exclusive, step),
        ),
{
}

/// Mutual exclusion: whatever steps the threads take on one lock, an exclusive holder never
/// coexists with another holder of either kind. Every release in such a run meets the
/// requirements of `end_read` and `end_write`.
pub proof fn mutual_exclusion(steps: Seq<Step>)
    ensures
        run(steps) matches Some(r) ==> {
            &&& accounts_for(r.0, r.1, r.2)
            &&& r.2 <= 1
            &&& (r.2 == 1 ==> r.1 == 0)
            &&& (r.1 > 0 ==> r.0.readers > 0)
            &&& (r.2 > 0 ==> r.0.is_writing())
        },
    decreases steps.len(),
{
    if steps.len() > 0 {
        mutual_exclusion(steps.drop_last());
        if let Some(prev) = run(steps.drop_last()) {
            if step_enabled(prev.0, prev.1, prev.2, steps.last()) {
                lemma_step_accounts(prev.0, prev.1, prev.2, steps.last());
            }
        }
    }
}

/// The state after `n` more readers are let in.
pub open spec fn after_reads(s: AccessorState, n: nat) -> AccessorState
    decreases n,
{
    if n == 0 {
        s
    } else {
        after_reads(s, (n - 1) as nat).read_begun()
    }
}

/// Shared access: while no writer holds the lock, any number of readers that the counter can
/// hold are let in one after the other, none of them waiting, whether or not writers wait.
pub proof fn readers_share(s: AccessorState, n: nat)
    requires
        s.wf(),
        !s.is_writing(),
        s.readers + n < usize::MAX,
    ensures
        forall|i: nat| i < n ==> !(#[trigger] after_reads(s, i)).reader_blocked(),
        after_reads(s, n).readers == s.readers + n,
        after_reads(s, n).writers_waiting == s.writers_waiting,
        n > 0 ==> after_reads(s, n).is_reading(),
    decreases n,
{
    if n > 0 {
        readers_share(s, (n - 1) as nat);
        assert forall|i: nat| i < n implies !(#[trigger] after_reads(s, i)).reader_blocked() by {
            if i < n - 1 {
            } else {
                assert(i == n - 1);
            }
        }
    }
}

/// Writer priority: once a writer waits, no release wakes a reader, and when the last
/// reader leaves, writing is allowed again and exactly one writer is woken. Readers that
/// arrive meanwhile leave the count of waiting writers as it is.
pub proof fn writer_priority(s: AccessorState)
    requires
        s.wf(),
        s.writers_waiting > 0,
    ensures
        s.is_reading() ==> s.read_ended().wake_for() == Wake::OneWriter,
        s.is_writing() ==> s.write_ended().wake_for() == Wake::OneWriter,
        s.readers == 1 ==> !s.read_ended().writer_blocked() && s.read_ended().is_open(),
        s.is_writing() ==> !s.write_ended().writer_blocked(),
        !s.reader_blocked() ==> s.read_begun().writers_waiting == s.writers_waiting,
{
}

/// One step of a thread that, over and over, takes exclusive access to lock `a`, then to
/// lock `b`, then releases `b` and `a`. `pc` says where the thread stands: 0 idle, 1 waiting
/// for `a`, 2 holding `a`, 3 waiting for `b` too, 4 holding both, 5 holding `a` again alone.
/// `None` where the thread must wait.
pub open spec fn ordered_step(a: AccessorState, b: AccessorState, pc: nat) -> Option<
    (AccessorState, AccessorState, nat),
> {
    if pc == 0 {
        if a.writers_waiting < usize::MAX {
            Some((a.writer_queued(), b, 1))
        } else {
            None
        }
    } else if pc == 1 {
        if !a.writer_blocked() {
            Some((a.write_begun(), b, 2))
        } else {
            None
        }
    } else if pc == 2 {
        if b.writers_waiting < usize::MAX {
            Some((a, b.writer_queued(), 3))
        } else {
            None
        }
    } else if pc == 3 {
        if !b.writer_blocked() {
            Some((a, b.write_begun(), 4))
        } else {
            None
        }
    } else if pc == 4 {
        Some((a, b.write_ended(), 5))
    } else {
        Some((a.write_ended(), b, 0))
    }
}

pub open spec fn holds_a(pc: nat) -> bool {
    2 <= pc <= 5
}

pub open spec fn waiting_at(p1: nat, p2: nat, pc: nat) -> nat {
    (if p1 == pc { 1nat } else { 0nat }) + (if p2 == pc { 1nat } else { 0nat })
}

/// What holds of the two locks while two threads run `ordered_step`: one holder of `a` at
/// most, and each lock's state accounts for its holder and its waiting writers.
pub open spec fn ordered_pair(a: AccessorState, b: AccessorState, p1: nat, p2: nat) -> bool {
    &&& p1 <= 5 && p2 <= 5
    &&& !(holds_a(p1) && holds_a(p2))
    &&& (if holds_a(p1) || holds_a(p2) { a.is_writing() } else { a.is_open() })
    &&& (if p1 == 4 || p2 == 4 { b.is_writing() } else { b.is_open() })
    &&& a.writers_waiting == waiting_at(p1, p2, 1)
    &&& b.writers_waiting == waiting_at(p1, p2, 3)
}

/// Two fresh locks and two idle threads.
pub proof fn ordered_pair_starts()
    ensures
        ordered_pair(AccessorState::initial(), AccessorState::initial(), 0, 0),
{
}

/// Each step of either thread keeps `ordered_pair`.
pub proof fn ordered_pair_steps(a: AccessorState, b: AccessorState, p1: nat, p2: nat)
    requires
        ordered_pair(a, b, p1, p2),
    ensures
        ordered_step(a, b, p1) matches Some(n) ==> ordered_pair(n.0, n.1, n.2, p2),
        ordered_step(a, b, p2) matches Some(n) ==> ordered_pair(n.0, n.1, p1, n.2),
{
}

/// No deadlock across independent storages: two threads that each take exclusive access to
/// two locks in the same order, over and over, can never both be waiting; one of them can
/// always take its next step.
pub proof fn no_deadlock_in_order(a: AccessorState, b: AccessorState, p1: nat, p2: nat)
    requires
        ordered_pair(a, b, p1, p2),
    ensures
        ordered_step(a, b, p1) is Some || ordered_step(a, b, p2) is Some,
{
}

/// Relies on `Condvar::notify_one`: wakes one thread blocked on the condition variable, if any.
#[verifier::external_body]
fn notify_one(c: &std::sync::Condvar)
    opens_invariants none
    no_unwind
{
    c.notify_one()
}

/// Relies on `Condvar::notify_all`: wakes every thread blocked on the condition variable.
#[verifier::external_body]
fn notify_all(c: &std::sync::Condvar)
    opens_invariants none
    no_unwind
{
    c.notify_all()
}

/// Relies on `Condvar::wait_while`: it sleeps, with the lock released, until the predicate
/// is false of the protected state, and returns with the lock held again; `None` where the
/// mutex was poisoned. The state is handed back as it stood when the wait ended.
#[verifier::external_body]
fn wait_until_admitted<'a>(
    cvar: &std::sync::Condvar,
    g: std::sync::MutexGuard<'a, AccessorState>,
    write: bool,
) -> (r: Option<(std::sync::MutexGuard<'a, AccessorState>, AccessorState)>)
    ensures
        r matches Some(p) ==> !p.1.blocked(write),
{
    match cvar.wait_while(g, |s: &mut AccessorState| s.must_wait(write)) {
        Ok(g) => {
            let s = *g;
            Some((g, s))
        },
        Err(_) => None,
    }
}

/// The lock that decides who may touch one storage: a mutex over an `AccessorState` and two
/// condition variables, one on which readers sleep and one on which writers sleep.
///
/// Writers have priority: whenever access is released while a writer waits, exactly one
/// writer is woken and no reader.
pub struct Accessor {
    state: std::sync::Mutex<AccessorState>,
    reader_cvar: std::sync::Condvar,
    writer_cvar: std::sync::Condvar,
}

impl Accessor {
    pub fn new() -> Accessor {
        Accessor {
            state: std::sync::Mutex::new(AccessorState::new()),
            reader_cvar: std::sync::Condvar::new(),
            writer_cvar: std::sync::Condvar::new(),
        }
    }

    fn wake(&self, w: Wake)
        opens_invariants none
        no_unwind
    {
        match w {
            Wake::OneWriter => notify_one(&self.writer_cvar),
            Wake::AllReaders => notify_all(&self.reader_cvar),
        }
    }

    /// Blocks until reading is allowed, then counts the caller as a reader.
    pub fn acquire_read(&self) -> (r: Result<(), EcsError>)
        ensures
            r is Err ==> r->Err_0 == EcsError::Poisoned || r->Err_0 == EcsError::Corrupted,
    {
        let g = match lock_inner(&self.state) {
            Some(g) => g,
            None => {
                return Err(EcsError::Poisoned);
            },
        };
        let (mut g, mut s) = match wait_until_admitted(&self.reader_cvar, g, false) {
            Some(p) => p,
            None => {
                return Err(EcsError::Poisoned);
            },
        };
        if !s.is_consistent() {
            return Err(EcsError::Corrupted);
        }
        s.begin_read();
        *guarded(&mut g) = s;
        Ok(())
    }

    /// Counts the caller as a waiting writer, blocks until writing is allowed, then lets
    /// the caller in as the only holder.
    ///
    /// A thread that already holds access of either kind to this lock must not call this:
    /// writing is allowed again only once that access is released, so the call never
    /// returns.
    pub fn acquire_write(&self) -> (r: Result<(), EcsError>)
        ensures
            r is Err ==> r->Err_0 == EcsError::Poisoned || r->Err_0 == EcsError::Corrupted
                || r->Err_0 == EcsError::Saturated,
    {
        let mut g = match lock_inner(&self.state) {
            Some(g) => g,
            None => {
                return Err(EcsError::Poisoned);
            },
        };
        let mut s = *guarded(&mut g);
        if !s.is_consistent() {
            return Err(EcsError::Corrupted);
        }
        match s.queue_writer() {
            Ok(()) => {},
            Err(e) => {
                return Err(e);
            },
        }
        *guarded(&mut g) = s;
        let (mut g, mut s) = match wait_until_admitted(&self.writer_cvar, g, true) {
            Some(p) => p,
            None => {
                return Err(EcsError::Poisoned);
            },
        };
        if !s.is_consistent() {
            return Err(EcsError::Corrupted);
        }
        s.begin_write();
        *guarded(&mut g) = s;
        Ok(())
    }

    /// Takes one reader away, and wakes one writer if any waits, else every reader.
    pub fn release_read(&self) -> (r: Result<(), EcsError>)
        ensures
            r is Err ==> r->Err_0 == EcsError::Poisoned || r->Err_0 == EcsError::Corrupted,
        opens_invariants none
        no_unwind
    {
        let mut g = match lock_inner(&self.state) {
            Some(g) => g,
            None => {
                return Err(EcsError::Poisoned);
            },
        };
        let mut s = *guarded(&mut g);
        if !s.is_consistent() || s.readers == 0 {
            return Err(EcsError::Corrupted);
        }
        let w = s.end_read();
        *guarded(&mut g) = s;
        self.wake(w);
        Ok(())
    }

    /// Opens the lock again after the writer, and wakes one writer if any waits, else every
    /// reader.
    pub fn release_write(&self) -> (r: Result<(), EcsError>)
        ensures
            r is Err ==> r->Err_0 == EcsError::Poisoned || r->Err_0 == EcsError::Corrupted,
        opens_invariants none
        no_unwind
    {
        let mut g = match lock_inner(&self.state) {
            Some(g) => g,
            None => {
                return Err(EcsError::Poisoned);
            },
        };
        let mut s = *guarded(&mut g);
        let writing = s.readers == 0 && !s.read_allowed && !s.write_allowed;
        if !writing {
            return Err(EcsError::Corrupted);
        }
        let w = s.end_write();
        *guarded(&mut g) = s;
        self.wake(w);
        Ok(())
    }
}

/// Held access of one kind to one `Accessor`; dropping it releases that access.
///
/// A drop cannot report an error. Where the release finds the lock poisoned or its state
/// corrupted, it leaves the lock as it is and the error goes unreported here; a poisoned
/// lock fails every later request with `Poisoned`.
pub struct AccessGuard {
    accessor: std::sync::Arc<Accessor>,
    exclusive: bool,
}

impl AccessGuard {
    /// Blocks until access of the asked kind is granted.
    pub fn new(accessor: std::sync::Arc<Accessor>, exclusive: bool) -> (r: Result<AccessGuard, EcsError>)
        ensures
            r matches Ok(g) ==> g.is_exclusive() == exclusive,
            r is Err ==> r->Err_0.of_access(),
    {
        let got = if exclusive {
            accessor.acquire_write()
        } else {
            accessor.acquire_read()
        };
        match got {
            Ok(()) => Ok(AccessGuard { accessor, exclusive }),
            Err(e) => Err(e),
        }
    }

    pub closed spec fn is_exclusive(&self) -> bool {
        self.exclusive
    }

    pub fn exclusive(&self) -> (r: bool)
        ensures
            r == self.is_exclusive(),
    {
        self.exclusive
    }
}

impl Drop for AccessGuard {
    fn drop(&mut self)
        opens_invariants none
        no_unwind
    {
        let _ = if self.exclusive {
            self.accessor.release_write()
        } else {
            self.accessor.release_read()
        };
    }
}

} // verus!
