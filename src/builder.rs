use vstd::prelude::*;

use crate::component::Component;
use crate::error::EcsError;
use crate::world::World;
use crate::Entity;

verus! {

/// Builds an entity: a new id, then one component after another.
pub struct EntityBuilder {
    entity: Entity,
}

impl EntityBuilder {
    /// The entity being built.
    pub closed spec fn entity(&self) -> Entity {
        self.entity
    }

    /// Starts an entity with a new id from `ecs`.
    pub fn new(ecs: &World) -> (r: Result<EntityBuilder, EcsError>) {
        match ecs.create_entity() {
            Ok(entity) => Ok(EntityBuilder { entity }),
            Err(e) => Err(e),
        }
    }

    /// Attaches `component` to the entity; its type must be registered in `ecs`.
    pub fn with<T: Component>(self, ecs: &World, component: T) -> (r: Result<EntityBuilder, EcsError>)
        ensures
            r matches Ok(b) ==> b.entity() == self.entity(),
    {
        match ecs.add_component(self.entity, component) {
            Ok(_) => Ok(self),
            Err(e) => Err(e),
        }
    }

    /// The finished entity.
    pub fn build(self, _ecs: &World) -> (r: Entity)
        ensures
            r == self.entity(),
    {
        self.entity
    }
}

} // verus!
