use vstd::prelude::*;

verus! {

/// How far a promise has come.
#[derive(Debug, Clone, Copy, PartialEq, Eq, Structural)]
pub enum PromiseState {
    Pending,
    Fulfilled,
    Rejected,
}

} // verus!
