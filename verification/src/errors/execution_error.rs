use super::value_error::ValueError;
use vstd::prelude::*;
use vstd::std_specs::cmp::PartialEqSpecImpl;
use vstd::std_specs::convert::FromSpecImpl;
use vstd::string::StringExecFns;

verus! {

/// Running script code failed.
#[derive(Debug)]
pub enum ExecutionError {
    /// The code to run holds a zero byte.
    InputWithZeroBytes,
    /// An argument or the result could not be converted.
    Conversion(ValueError),
    /// The bridge met an answer of the engine that it does not expect.
    Internal(String),
    /// Script code threw; the text is the thrown value as a string.
    Exception(String),
    /// The engine ran into its memory limit.
    OutOfMemory,
}

impl ExecutionError {
    /// The text of the error.
    pub open spec fn message(&self) -> Seq<char> {
        match self {
            ExecutionError::InputWithZeroBytes =>
                "Invalid script input: code contains zero byte (\\0)"@,
            ExecutionError::Conversion(e) => e.message(),
            ExecutionError::Internal(e) => "Internal error: "@ + e@,
            ExecutionError::Exception(e) => e@,
            ExecutionError::OutOfMemory => "Out of memory: runtime memory limit exceeded"@,
        }
    }

    /// The text of the error.
    pub fn to_string(&self) -> (text: String)
        ensures
            text@ == self.message(),
    {
        match self {
            ExecutionError::InputWithZeroBytes => String::from_str(
                "Invalid script input: code contains zero byte (\\0)",
            ),
            ExecutionError::Conversion(e) => e.to_string(),
            ExecutionError::Internal(e) => String::from_str("Internal error: ").concat(e.as_str()),
            ExecutionError::Exception(e) => e.clone(),
            ExecutionError::OutOfMemory => String::from_str(
                "Out of memory: runtime memory limit exceeded",
            ),
        }
    }
}

/// Two execution errors are equal when their texts are.
impl PartialEq for ExecutionError {
    fn eq(&self, other: &Self) -> (r: bool) {
        let left = self.to_string();
        let right = other.to_string();
        left == right
    }
}

impl PartialEqSpecImpl for ExecutionError {
    open spec fn obeys_eq_spec() -> bool {
        true
    }

    open spec fn eq_spec(&self, other: &Self) -> bool {
        self.message() == other.message()
    }
}

impl From<ValueError> for ExecutionError {
    fn from(v: ValueError) -> (r: Self) {
        ExecutionError::Conversion(v)
    }
}

impl FromSpecImpl<ValueError> for ExecutionError {
    open spec fn obeys_from_spec() -> bool {
        true
    }

    open spec fn from_spec(v: ValueError) -> Self {
        ExecutionError::Conversion(v)
    }
}

} // verus!
