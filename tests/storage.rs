use ecs_it::storage::{clear_slots, grow_slots, ImmutableStorageGuard, MutableStorageGuard, Storage};
use ecs_it::system::ECSSystemError;
use ecs_it::error::EcsError;
use std::sync::Arc;

#[test]
fn grow_slots_pads_with_empty() {
    let mut v: Vec<Option<u8>> = vec![Some(1)];
    grow_slots(&mut v, 3);
    assert_eq!(v, vec![Some(1), None, None]);
    grow_slots(&mut v, 2);
    assert_eq!(v.len(), 3);
}

#[test]
fn clear_slots_skips_ids_beyond() {
    let mut v: Vec<Option<u8>> = vec![Some(1), Some(2), Some(3)];
    clear_slots(&mut v, &vec![2, 7, 0]);
    assert_eq!(v, vec![None, Some(2), None]);
}

#[test]
fn storage_guards_share_and_grow() {
    let s: Arc<Storage<u32>> = Arc::new(Storage::new(2));
    {
        let mut w = MutableStorageGuard::new(&s, 4).unwrap();
        assert_eq!(w.len(), 4);
        w.register_new_entities(2);
        assert_eq!(w.len(), 6);
        assert_eq!(w.insert(5, 50), None);
    }
    let r1 = ImmutableStorageGuard::new(&s, 1).unwrap();
    let r2 = ImmutableStorageGuard::new(&s, 1).unwrap();
    assert_eq!(r1.get(5), Some(&50));
    assert_eq!(r2.len(), 6);
}

#[test]
fn scheduled_cleanup_runs_before_next_guard() {
    let s: Arc<Storage<u32>> = Arc::new(Storage::new(3));
    {
        let mut w = MutableStorageGuard::new(&s, 3).unwrap();
        w.insert(0, 1);
        w.insert(2, 3);
    }
    s.schedule_cleanup(&vec![2]).unwrap();
    let r = ImmutableStorageGuard::new(&s, 3).unwrap();
    assert_eq!(r.get(0), Some(&1));
    assert_eq!(r.get(2), None);
}

#[test]
fn error_texts() {
    assert!(!EcsError::Poisoned.message().is_empty());
    assert_ne!(EcsError::NotRegistered.message(), EcsError::AlreadyRegistered.message());
    let e = ECSSystemError::new("system failed");
    assert_eq!(e.message(), "system failed");
}
