use vstd::prelude::*;

use crate::world::World;

verus! {

/// Logic that runs over the storages of a world; written by the users of the crate.
pub trait System {
    fn run(self, world: &World) -> Result<(), ECSSystemError>;
}

/// Why a system failed.
#[derive(Clone, Copy, Debug, PartialEq, Eq)]
pub struct ECSSystemError {
    message: &'static str,
}

impl ECSSystemError {
    pub fn new(message: &'static str) -> (r: ECSSystemError)
        ensures
            r.message_spec() == message,
    {
        ECSSystemError { message }
    }

    pub closed spec fn message_spec(&self) -> &'static str {
        self.message
    }

    pub fn message(&self) -> (r: &'static str)
        ensures
            r == self.message_spec(),
    {
        self.message
    }
}

} // verus!
