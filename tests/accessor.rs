use ecs_it::accessor::{AccessGuard, Accessor, AccessorState, Wake};
use ecs_it::error::EcsError;
use std::sync::Arc;

fn open() -> AccessorState {
    AccessorState::new()
}

#[test]
fn new_state_is_open() {
    let s = open();
    assert_eq!(s.readers, 0);
    assert!(s.read_allowed && s.write_allowed);
    assert_eq!(s.writers_waiting, 0);
    assert!(s.is_consistent());
}

#[test]
fn many_readers_enter_without_waiting() {
    let mut s = open();
    for n in 1..=5usize {
        assert!(!s.must_wait(false));
        s.begin_read();
        assert_eq!(s.readers, n);
    }
    assert!(s.read_allowed);
    assert!(!s.write_allowed);
    assert!(s.must_wait(true));
}

#[test]
fn writer_excludes_everyone() {
    let mut s = open();
    s.queue_writer().unwrap();
    assert!(!s.must_wait(true));
    s.begin_write();
    assert!(!s.read_allowed && !s.write_allowed);
    assert!(s.must_wait(false));
    s.queue_writer().unwrap();
    assert!(s.must_wait(true));
    assert_eq!(s.end_write(), Wake::OneWriter);
    assert!(!s.must_wait(true));
}

#[test]
fn last_reader_hands_over_to_waiting_writer() {
    // Thread A reads; B asks to write; C arrives to read while A still reads.
    let mut s = open();
    s.begin_read();
    s.queue_writer().unwrap();
    assert!(s.must_wait(true));
    assert!(!s.must_wait(false));
    s.begin_read();
    assert_eq!(s.readers, 2);
    // A leaves: a writer waits, so no reader is woken, but C still holds the lock.
    assert_eq!(s.end_read(), Wake::OneWriter);
    assert!(s.must_wait(true));
    // C leaves: the count reaches zero and the writer may go.
    assert_eq!(s.end_read(), Wake::OneWriter);
    assert!(!s.must_wait(true));
    s.begin_write();
    assert_eq!(s.writers_waiting, 0);
    assert!(s.must_wait(false));
    assert_eq!(s.end_write(), Wake::AllReaders);
    assert!(s.is_consistent());
}

#[test]
fn readers_are_woken_when_no_writer_waits() {
    let mut s = open();
    s.begin_read();
    assert_eq!(s.end_read(), Wake::AllReaders);
    assert!(s.read_allowed && s.write_allowed);
}

#[test]
fn waiting_writers_saturate() {
    let mut s = AccessorState {
        readers: 0,
        read_allowed: true,
        write_allowed: true,
        writers_waiting: usize::MAX,
    };
    assert_eq!(s.queue_writer(), Err(EcsError::Saturated));
    assert_eq!(s.writers_waiting, usize::MAX);
}

#[test]
fn inconsistent_state_is_detected() {
    let s = AccessorState { readers: 2, read_allowed: false, write_allowed: true, writers_waiting: 0 };
    assert!(!s.is_consistent());
    let t = AccessorState { readers: 0, read_allowed: false, write_allowed: false, writers_waiting: 3 };
    assert!(t.is_consistent());
}

#[test]
fn accessor_round_trip() {
    let a = Accessor::new();
    a.acquire_read().unwrap();
    a.acquire_read().unwrap();
    a.release_read().unwrap();
    a.release_read().unwrap();
    a.acquire_write().unwrap();
    a.release_write().unwrap();
    assert_eq!(a.release_write(), Err(EcsError::Corrupted));
    assert_eq!(a.release_read(), Err(EcsError::Corrupted));
}

#[test]
fn access_guards_release_on_drop() {
    let a = Arc::new(Accessor::new());
    {
        let r1 = AccessGuard::new(a.clone(), false).unwrap();
        let r2 = AccessGuard::new(a.clone(), false).unwrap();
        assert!(!r1.exclusive() && !r2.exclusive());
    }
    {
        let w = AccessGuard::new(a.clone(), true).unwrap();
        assert!(w.exclusive());
    }
    let r = AccessGuard::new(a.clone(), false).unwrap();
    drop(r);
}
