use vstd::prelude::*;

pub mod accessor;
pub mod builder;
pub mod component;
pub mod entity;
pub mod error;
pub mod storage;
pub mod sync;
pub mod system;
pub mod warehouse;
pub mod world;

pub use component::Component;

verus! {

/// An entity: an index into every storage's slots.
pub type Entity = usize;

} // verus!
