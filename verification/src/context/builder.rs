//! What a context is built with.

use crate::console::ConsoleBackend;
use vstd::prelude::*;

verus! {

/// Collects the settings of a context before it is built.
pub struct ContextBuilder {
    memory_limit: Option<usize>,
    console_backend: Option<Box<dyn ConsoleBackend>>,
}

impl ContextBuilder {
    /// The ceiling on the engine's memory, in bytes, if one was set.
    pub closed spec fn spec_memory_limit(&self) -> Option<usize> {
        self.memory_limit
    }

    /// A console backend was set.
    pub closed spec fn has_console(&self) -> bool {
        self.console_backend is Some
    }

    /// A builder with no memory limit and no console.
    pub fn new() -> (r: ContextBuilder)
        ensures
            r.spec_memory_limit() is None,
            !r.has_console(),
    {
        ContextBuilder { memory_limit: None, console_backend: None }
    }

    /// Sets the ceiling on the engine's memory, in bytes. Script code
    /// that needs more ends in `OutOfMemory`.
    pub fn memory_limit(self, max_bytes: usize) -> (r: ContextBuilder)
        ensures
            r.spec_memory_limit() == Some(max_bytes),
            r.has_console() == self.has_console(),
    {
        let mut s = self;
        s.memory_limit = Some(max_bytes);
        s
    }

    /// Sets the backend that receives what script code writes to the console.
    pub fn console<B: ConsoleBackend + 'static>(self, backend: B) -> (r: ContextBuilder)
        ensures
            r.spec_memory_limit() == self.spec_memory_limit(),
            r.has_console(),
    {
        let mut s = self;
        s.console_backend = Some(Box::new(backend));
        s
    }

    /// The settings: the memory limit and the console backend.
    pub fn into_parts(self) -> (r: (Option<usize>, Option<Box<dyn ConsoleBackend>>))
        ensures
            r.0 == self.spec_memory_limit(),
            r.1 is Some == self.has_console(),
    {
        (self.memory_limit, self.console_backend)
    }
}

} // verus!
