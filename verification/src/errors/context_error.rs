use super::execution_error::ExecutionError;
use vstd::prelude::*;
use vstd::string::StringExecFns;

verus! {

/// A context could not be set up.
#[derive(Debug)]
pub enum ContextError {
    /// The engine gave no runtime.
    RuntimeCreationFailed,
    /// The engine gave no context.
    ContextCreationFailed,
    /// Script code that is run while the context is built failed.
    Execution(ExecutionError),
}

impl ContextError {
    /// The text of the error.
    pub open spec fn message(&self) -> Seq<char> {
        match self {
            ContextError::RuntimeCreationFailed => "Could not create runtime"@,
            ContextError::ContextCreationFailed => "Could not create context"@,
            ContextError::Execution(e) => e.message(),
        }
    }

    /// The text of the error.
    pub fn to_string(&self) -> (text: String)
        ensures
            text@ == self.message(),
    {
        match self {
            ContextError::RuntimeCreationFailed => String::from_str("Could not create runtime"),
            ContextError::ContextCreationFailed => String::from_str("Could not create context"),
            ContextError::Execution(e) => e.to_string(),
        }
    }
}

} // verus!
