//! Saved CPU states.

use crate::engine::Command;
use vstd::prelude::*;

verus! {

/// A saved ARM64 CPU state that the engine allocated.
#[derive(Clone, Debug)]
pub struct DynarmicContextInner {
    pub inner_context: usize,
}

impl DynarmicContextInner {
    /// The request that gives the state back to the engine.
    pub fn destroy(&self) -> (r: Command)
        ensures
            r == (Command::ContextFree { context: self.inner_context }),
    {
        Command::ContextFree { context: self.inner_context }
    }
}

/// A saved ARM32 CPU state that the engine allocated.
#[derive(Clone, Debug)]
pub struct DynarmicContext32Inner {
    pub inner_context: usize,
}

impl DynarmicContext32Inner {
    /// The request that gives the state back to the engine.
    pub fn destroy(&self) -> (r: Command)
        ensures
            r == (Command::Context32Free { context: self.inner_context }),
    {
        Command::Context32Free { context: self.inner_context }
    }
}

} // verus!
