use ecs_it::entity::{recycle_ready, Entities, IdState};
use ecs_it::error::EcsError;
use ecs_it::warehouse::Warehouse;
use ecs_it::world::{allocate, maintain};
use ecs_it::Component;

#[derive(Debug, PartialEq)]
struct Speed {
    v: u32,
}

impl Component for Speed {}

struct Tag {}

impl Component for Tag {}

#[test]
fn allocate_hands_out_ids_and_owes_slots() {
    let mut e = Entities::new();
    let mut w = Warehouse::new();
    assert_eq!(allocate(&mut e, &mut w), Ok(0));
    assert_eq!(allocate(&mut e, &mut w), Ok(1));
    assert_eq!(allocate(&mut e, &mut w), Ok(2));
    assert_eq!(w.capacity(), 3);
    assert_eq!(e.num_entities(), 3);
}

#[test]
fn maintain_recycles_cleaned_ids() {
    let mut e = Entities::new();
    let mut w = Warehouse::new();
    w.register::<Speed>().unwrap();
    let a = allocate(&mut e, &mut w).unwrap();
    let b = allocate(&mut e, &mut w).unwrap();
    assert!(e.rm_entity(a));
    maintain(&mut e, &mut w).unwrap();
    assert_eq!(e.live_entities(), vec![b]);
    assert_eq!(allocate(&mut e, &mut w), Ok(a));
    assert_eq!(w.capacity(), 2);
}

#[test]
fn recycle_ready_skips_pending_ids() {
    let mut e = Entities::new();
    for _ in 0..3 {
        e.new_entity_id().unwrap();
    }
    e.rm_entity(0);
    e.rm_entity(2);
    assert_eq!(e.take_dead(), vec![0, 2]);
    assert_eq!(e.cleaning_ids(), vec![0, 2]);
    recycle_ready(&mut e, &vec![2]);
    assert_eq!(e.cleaning_ids(), vec![2]);
    assert_eq!(e.new_entity_id(), Ok(0));
    assert_eq!(e.new_entity_id(), Ok(3));
    let _ = IdState::Free;
}

#[test]
fn warehouse_checkout_of_unregistered_type_fails() {
    let w = Warehouse::new();
    assert!(matches!(w.checkout_storage::<Speed>(), Err(EcsError::NotRegistered)));
    assert!(matches!(w.checkout_storage_mut::<Speed>(), Err(EcsError::NotRegistered)));
    assert!(matches!(w.storage_of::<Speed>(), Err(EcsError::NotRegistered)));
}

#[test]
fn warehouse_checkout_after_growth() {
    let mut w = Warehouse::new();
    w.grow_all(2).unwrap();
    w.register::<Speed>().unwrap();
    {
        let mut g = w.checkout_storage_mut::<Speed>().unwrap();
        g.insert(1, Speed { v: 4 });
    }
    w.grow_all(3).unwrap();
    let r = w.checkout_storage::<Speed>().unwrap();
    assert_eq!(r.raw().len(), 5);
    assert_eq!(r.get(1), Some(&Speed { v: 4 }));
    for id in [0usize, 2, 3, 4] {
        assert_eq!(r.get(id), None);
    }
}

#[test]
fn warehouse_register_twice_fails() {
    let mut w = Warehouse::new();
    assert_eq!(w.register::<Speed>(), Ok(()));
    assert_eq!(w.register::<Tag>(), Ok(()));
    assert_eq!(w.register::<Speed>(), Err(EcsError::AlreadyRegistered));
    assert_eq!(w.grow_all(1), Ok(()));
    assert_eq!(w.grow_all(usize::MAX), Err(EcsError::Saturated));
    assert_eq!(w.capacity(), 1);
}
