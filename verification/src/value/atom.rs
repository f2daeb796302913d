//! Atoms: the engine's interned names.

use vstd::prelude::*;

verus! {

/// What the engine must be asked to do to the count of an atom.
#[derive(Clone, Copy, Debug, PartialEq, Eq, Structural)]
pub enum AtomOp {
    /// Count one reference more to the atom.
    Dup(u32),
    /// Count one reference less to the atom.
    Free(u32),
}

/// An atom together with the duty to release it once.
#[derive(Debug, PartialEq, Eq)]
pub struct OwnedJsAtom {
    context: usize,
    value: u32,
}

impl OwnedJsAtom {
    /// The context that the atom belongs to.
    pub closed spec fn spec_context(&self) -> usize {
        self.context
    }

    /// The atom.
    pub closed spec fn spec_value(&self) -> u32 {
        self.value
    }

    /// Wraps `value`, which already carries the reference that is handed over.
    pub fn new(context: usize, value: u32) -> (r: OwnedJsAtom)
        ensures
            r.spec_context() == context,
            r.spec_value() == value,
    {
        OwnedJsAtom { context, value }
    }

    /// A second owner of the same atom: the engine is asked for one reference more.
    pub fn duplicate(&self) -> (r: (OwnedJsAtom, AtomOp))
        ensures
            r.0 == *self,
            r.1 == AtomOp::Dup(self.spec_value()),
    {
        (OwnedJsAtom { context: self.context, value: self.value }, AtomOp::Dup(self.value))
    }

    /// Gives the atom up: the engine is asked for one reference less.
    pub fn release(self) -> (op: AtomOp)
        ensures
            op == AtomOp::Free(self.spec_value()),
    {
        AtomOp::Free(self.value)
    }
}

} // verus!
