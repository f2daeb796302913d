//! The states of a context, and the moves between them.

use vstd::prelude::*;

verus! {

/// Where a context stands in its life.
#[derive(Debug, Clone, Copy, PartialEq, Eq, Structural)]
pub enum ContextState {
    /// Made, or reset, and not used since.
    Created,
    /// No code is being run.
    Idle,
    /// Code is being run; `depth` counts the runs that are nested
    /// in one another, which is how a handler of a promise may run
    /// code while a promise is awaited.
    Evaluating { depth: usize },
    /// Dropped: nothing can be done with the context any more.
    Dropped,
}

/// What is done with a context.
#[derive(Debug, Clone, Copy, PartialEq, Eq, Structural)]
pub enum ContextMove {
    /// A run of code begins.
    Enter,
    /// A run of code ends.
    Leave,
    /// The context is reset.
    Reset,
    /// The context is dropped.
    Drop,
}

impl ContextState {
    /// The state after `step`, or `None` where the move is not
    /// allowed: a run can begin in every state but `Dropped`, and
    /// end only where one is under way; a context is reset or
    /// dropped only while no code is being run.
    pub open spec fn spec_after(self, step: ContextMove) -> Option<ContextState> {
        match (self, step) {
            (ContextState::Created, ContextMove::Enter) | (ContextState::Idle, ContextMove::Enter) =>
                Some(ContextState::Evaluating { depth: 1 }),
            (ContextState::Evaluating { depth }, ContextMove::Enter) => if depth < usize::MAX {
                Some(ContextState::Evaluating { depth: (depth + 1) as usize })
            } else {
                None
            },
            (ContextState::Evaluating { depth }, ContextMove::Leave) => if depth > 1 {
                Some(ContextState::Evaluating { depth: (depth - 1) as usize })
            } else if depth == 1 {
                Some(ContextState::Idle)
            } else {
                None
            },
            (ContextState::Created, ContextMove::Reset) | (ContextState::Idle, ContextMove::Reset) =>
                Some(ContextState::Created),
            (ContextState::Created, ContextMove::Drop) | (ContextState::Idle, ContextMove::Drop) =>
                Some(ContextState::Dropped),
            _ => None,
        }
    }

    /// The state after `step`, or `None` where the move is not allowed.
    #[verifier::when_used_as_spec(spec_after)]
    pub fn after(self, step: ContextMove) -> (r: Option<ContextState>)
        ensures
            r == self.spec_after(step),
    {
        match (self, step) {
            (ContextState::Created, ContextMove::Enter) | (ContextState::Idle, ContextMove::Enter) => {
                Some(ContextState::Evaluating { depth: 1 })
            },
            (ContextState::Evaluating { depth }, ContextMove::Enter) => {
                if depth < usize::MAX {
                    Some(ContextState::Evaluating { depth: depth + 1 })
                } else {
                    None
                }
            },
            (ContextState::Evaluating { depth }, ContextMove::Leave) => {
                if depth > 1 {
                    Some(ContextState::Evaluating { depth: depth - 1 })
                } else if depth == 1 {
                    Some(ContextState::Idle)
                } else {
                    None
                }
            },
            (ContextState::Created, ContextMove::Reset) | (ContextState::Idle, ContextMove::Reset) => {
                Some(ContextState::Created)
            },
            (ContextState::Created, ContextMove::Drop) | (ContextState::Idle, ContextMove::Drop) => {
                Some(ContextState::Dropped)
            },
            _ => None,
        }
    }

    /// While code is being run, at least one run is under way.
    pub open spec fn wf(self) -> bool {
        self matches ContextState::Evaluating { depth } ==> depth >= 1
    }

    /// The number of runs of code that are under way.
    pub open spec fn depth(self) -> nat {
        match self {
            ContextState::Evaluating { depth } => depth as nat,
            _ => 0,
        }
    }
}

/// Every move leads from a valid state to a valid state.
pub proof fn lemma_moves_keep_valid(state: ContextState, step: ContextMove)
    requires
        state.wf(),
    ensures
        state.spec_after(step) matches Some(next) ==> next.wf(),
{
}

/// Nothing leads out of `Dropped`.
pub proof fn lemma_dropped_is_final(step: ContextMove)
    ensures
        ContextState::Dropped.spec_after(step) is None,
{
}

/// A run of code that begins and ends leaves the context as it was,
/// but that a context just made is idle afterwards.
pub proof fn lemma_enter_then_leave(state: ContextState)
    requires
        state.wf(),
        state.spec_after(ContextMove::Enter) is Some,
    ensures
        state.spec_after(ContextMove::Enter)->Some_0.spec_after(ContextMove::Leave) == Some(
            if state is Created {
                ContextState::Idle
            } else {
                state
            },
        ),
{
}

/// A context is reset or dropped only while no code is being run.
pub proof fn lemma_no_reset_while_evaluating(state: ContextState, step: ContextMove)
    requires
        state.depth() > 0,
        step is Reset || step is Drop,
    ensures
        state.spec_after(step) is None,
{
}

} // verus!
