use ecs_it::Component;
use std::any::TypeId;

struct TestComponent {}

impl Component for TestComponent {}

#[test]
fn test_0() {
    assert_eq!(TestComponent::type_id(), TypeId::of::<TestComponent>());
}
