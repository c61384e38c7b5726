use ecs_it::builder::EntityBuilder;
use ecs_it::error::EcsError;
use ecs_it::world::World;
use ecs_it::Component;
use std::time::Instant;

struct TestComponent {
    _val: usize,
}

impl Component for TestComponent {}

#[derive(Debug, PartialEq)]
struct Health {
    hp: u32,
}

impl Component for Health {}

#[derive(Debug, PartialEq)]
struct Name {
    text: String,
}

impl Component for Name {}

#[test]
fn entity_tests() {
    let w = World::new();
    let entity0: usize = w.create_entity().unwrap();
    let entity1: usize = w.create_entity().unwrap();
    let entity2: usize = w.create_entity().unwrap();

    assert_eq!(entity0, 0);
    assert_eq!(entity1, 1);
    assert_eq!(entity2, 2);

    for (i, ent) in w.live_entities().unwrap().iter().enumerate() {
        println!("i: {}, ent: {}", i, ent);
        assert_eq!(i, *ent);
    }
}

#[test]
fn add_component() {
    let w = World::new();
    let entity0: usize;
    let mut now = Instant::now();
    {
        w.register_component::<TestComponent>().unwrap();
        println!("Time to register component: {}", now.elapsed().as_nanos());

        now = Instant::now();
        entity0 = w.create_entity().unwrap();
        println!("Time to init entity: {}", now.elapsed().as_nanos());
    }
    now = Instant::now();
    let previous = w.add_component(entity0, TestComponent { _val: 42 }).unwrap();
    println!("Time to add component(): {}", now.elapsed().as_nanos());
    assert!(previous.is_none());
    let guard = w.req_read_guard::<TestComponent>().unwrap();
    assert_eq!(guard.get(entity0).map(|c| c._val), Some(42));
}

#[test]
fn health_written_then_read() {
    let w = World::new();
    w.register_component::<Health>().unwrap();
    for _ in 0..3 {
        w.create_entity().unwrap();
    }
    {
        let mut guard = w.req_write_guard::<Health>().unwrap();
        assert_eq!(guard.len(), 3);
        assert_eq!(guard.insert(1, Health { hp: 10 }), None);
    }
    let guard = w.req_read_guard::<Health>().unwrap();
    assert_eq!(guard.get(1), Some(&Health { hp: 10 }));
    assert_eq!(guard.get(0), None);
    assert_eq!(guard.get(2), None);
}

#[test]
fn insert_then_get_and_remove() {
    let w = World::new();
    w.register_component::<Health>().unwrap();
    let e = w.create_entity().unwrap();
    assert_eq!(w.add_component(e, Health { hp: 5 }).unwrap(), None);
    assert_eq!(w.add_component(e, Health { hp: 7 }).unwrap(), Some(Health { hp: 5 }));
    {
        let guard = w.req_write_guard::<Health>().unwrap();
        assert_eq!(guard.get(e), Some(&Health { hp: 7 }));
    }
    assert_eq!(w.rm_component::<Health>(&e).unwrap(), Some(Health { hp: 7 }));
    assert_eq!(w.rm_component::<Health>(&e).unwrap(), None);
    let guard = w.req_read_guard::<Health>().unwrap();
    assert_eq!(guard.get(e), None);
}

#[test]
fn storages_grow_with_entities() {
    let w = World::new();
    w.create_entity().unwrap();
    w.create_entity().unwrap();
    w.register_component::<Health>().unwrap();
    {
        let mut guard = w.req_write_guard::<Health>().unwrap();
        assert_eq!(guard.len(), 2);
        guard.insert(0, Health { hp: 1 });
    }
    for _ in 0..4 {
        w.create_entity().unwrap();
    }
    let guard = w.req_read_guard::<Health>().unwrap();
    assert_eq!(guard.len(), 6);
    assert_eq!(guard.get(0), Some(&Health { hp: 1 }));
    for id in 1..6 {
        assert_eq!(guard.get(id), None);
    }
    assert_eq!(guard.iter().count(), 6);
    assert_eq!(guard.raw().len(), 6);
}

#[test]
fn capacity_counts_entities() {
    let w = World::new();
    assert_eq!(w.open_warehouse().unwrap().capacity(), 0);
    w.create_entity().unwrap();
    w.create_entity().unwrap();
    assert_eq!(w.open_warehouse().unwrap().capacity(), 2);
}

#[test]
fn registering_twice_fails() {
    let w = World::new();
    assert_eq!(w.register_component::<Health>(), Ok(()));
    assert_eq!(w.register_component::<Health>(), Err(EcsError::AlreadyRegistered));
    assert_eq!(w.register_component::<Name>(), Ok(()));
}

#[test]
fn unregistered_type_fails() {
    let w = World::new();
    let e = w.create_entity().unwrap();
    assert_eq!(w.add_component(e, Health { hp: 1 }).err(), Some(EcsError::NotRegistered));
    assert!(matches!(w.req_read_guard::<Health>(), Err(EcsError::NotRegistered)));
    assert!(matches!(w.req_write_guard::<Health>(), Err(EcsError::NotRegistered)));
}

#[test]
fn entity_beyond_slots_fails() {
    let w = World::new();
    w.register_component::<Health>().unwrap();
    w.create_entity().unwrap();
    assert_eq!(w.add_component(5, Health { hp: 1 }).err(), Some(EcsError::OutOfRange));
    assert_eq!(w.rm_component::<Health>(&5).err(), Some(EcsError::OutOfRange));
}

#[test]
fn removed_entity_is_cleared_then_recycled() {
    let w = World::new();
    w.register_component::<Health>().unwrap();
    w.register_component::<Name>().unwrap();
    let a = w.create_entity().unwrap();
    let b = w.create_entity().unwrap();
    w.add_component(a, Health { hp: 3 }).unwrap();
    w.add_component(a, Name { text: String::from("a") }).unwrap();
    w.add_component(b, Health { hp: 4 }).unwrap();

    assert_eq!(w.rm_entity(a), Ok(true));
    assert_eq!(w.rm_entity(a), Ok(false));
    assert_eq!(w.live_entities().unwrap(), vec![b]);
    // Not recycled before maintenance.
    let c = w.create_entity().unwrap();
    assert_eq!(c, 2);

    w.maintain_ecs().unwrap();
    let d = w.create_entity().unwrap();
    assert_eq!(d, a);
    {
        let guard = w.req_read_guard::<Health>().unwrap();
        assert_eq!(guard.get(a), None);
        assert_eq!(guard.get(b), Some(&Health { hp: 4 }));
    }
    let guard = w.req_write_guard::<Name>().unwrap();
    assert_eq!(guard.get(a), None);
}

#[test]
fn builder_attaches_components() {
    let w = World::new();
    w.register_component::<Health>().unwrap();
    w.register_component::<Name>().unwrap();
    let e = EntityBuilder::new(&w)
        .unwrap()
        .with(&w, Health { hp: 9 })
        .unwrap()
        .with(&w, Name { text: String::from("orc") })
        .unwrap()
        .build(&w);
    assert_eq!(e, 0);
    assert_eq!(w.req_read_guard::<Health>().unwrap().get(e), Some(&Health { hp: 9 }));
    let names = w.req_read_guard::<Name>().unwrap();
    assert_eq!(names.get(e).map(|n| n.text.as_str()), Some("orc"));
}

#[test]
fn builder_needs_registration() {
    let w = World::new();
    let b = EntityBuilder::new(&w).unwrap();
    assert_eq!(b.with(&w, Health { hp: 1 }).err(), Some(EcsError::NotRegistered));
}

#[test]
fn iter_mut_changes_slots() {
    let w = World::new();
    w.register_component::<Health>().unwrap();
    for _ in 0..3 {
        w.create_entity().unwrap();
    }
    {
        let mut guard = w.req_write_guard::<Health>().unwrap();
        for slot in guard.iter_mut() {
            *slot = Some(Health { hp: 2 });
        }
        if let Some(h) = guard.get_mut(1) {
            h.hp = 8;
        }
        assert_eq!(guard.raw_mut().len(), 3);
        assert_eq!(guard.remove(2), Some(Health { hp: 2 }));
    }
    let guard = w.req_read_guard::<Health>().unwrap();
    assert_eq!(guard.get(0), Some(&Health { hp: 2 }));
    assert_eq!(guard.get(1), Some(&Health { hp: 8 }));
    assert_eq!(guard.get(2), None);
}

#[test]
fn warehouse_checkout_under_lock() {
    let w = World::new();
    w.register_component::<Health>().unwrap();
    w.create_entity().unwrap();
    let warehouse = w.open_warehouse().unwrap();
    {
        let mut guard = warehouse.checkout_storage_mut::<Health>().unwrap();
        guard.insert(0, Health { hp: 6 });
    }
    let guard = warehouse.checkout_storage::<Health>().unwrap();
    assert_eq!(guard.get(0), Some(&Health { hp: 6 }));
    assert!(warehouse.is_registered(&std::any::TypeId::of::<Health>()));
    assert!(!warehouse.is_registered(&std::any::TypeId::of::<Name>()));
}

#[test]
fn id_held_by_a_reader_waits_for_cleanup() {
    let w = World::new();
    w.register_component::<Health>().unwrap();
    let a = w.create_entity().unwrap();
    w.add_component(a, Health { hp: 3 }).unwrap();
    w.rm_entity(a).unwrap();
    {
        let reader = w.req_read_guard::<Health>().unwrap();
        w.maintain_ecs().unwrap();
        // The slot is still shared with the reader, so the id is not handed out again.
        assert_eq!(w.create_entity().unwrap(), 1);
        assert_eq!(reader.get(a), Some(&Health { hp: 3 }));
    }
    {
        let guard = w.req_read_guard::<Health>().unwrap();
        assert_eq!(guard.get(a), None);
    }
    w.maintain_ecs().unwrap();
    assert_eq!(w.create_entity().unwrap(), a);
}
