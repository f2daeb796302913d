use vstd::prelude::*;
use vstd::string::StringExecFns;

verus! {

/// A conversion between a host value and an engine value failed.
#[derive(Debug, PartialEq, Eq)]
pub enum ValueError {
    /// The engine handed out text that is not valid UTF-8.
    InvalidString,
    /// Text that must go to the engine as a C string holds a zero byte.
    StringWithZeroBytes,
    /// The engine answered in a way that the bridge does not expect.
    Internal(String),
    /// A big integer does not fit the integer type that was asked for.
    BigIntOverflow,
    /// The value is not of the kind that was asked for.
    UnexpectedType,
}

impl ValueError {
    /// The text of the error.
    pub open spec fn message(&self) -> Seq<char> {
        match self {
            ValueError::InvalidString => "Value conversion failed - invalid non-utf8 string"@,
            ValueError::StringWithZeroBytes => "String contains \\0 bytes"@,
            ValueError::Internal(e) => "Value conversion failed - internal error: "@ + e@,
            ValueError::BigIntOverflow => "BigInt overflowed"@,
            ValueError::UnexpectedType => "Could not convert - received unexpected type"@,
        }
    }

    /// The text of the error.
    pub fn to_string(&self) -> (text: String)
        ensures
            text@ == self.message(),
    {
        match self {
            ValueError::InvalidString => String::from_str(
                "Value conversion failed - invalid non-utf8 string",
            ),
            ValueError::StringWithZeroBytes => String::from_str("String contains \\0 bytes"),
            ValueError::Internal(e) => String::from_str(
                "Value conversion failed - internal error: ",
            ).concat(e.as_str()),
            ValueError::BigIntOverflow => String::from_str("BigInt overflowed"),
            ValueError::UnexpectedType => String::from_str(
                "Could not convert - received unexpected type",
            ),
        }
    }

    /// A copy of the error.
    pub fn duplicate(&self) -> (copy: ValueError)
        ensures
            copy == *self,
    {
        match self {
            ValueError::InvalidString => ValueError::InvalidString,
            ValueError::StringWithZeroBytes => ValueError::StringWithZeroBytes,
            ValueError::Internal(e) => ValueError::Internal(e.clone()),
            ValueError::BigIntOverflow => ValueError::BigIntOverflow,
            ValueError::UnexpectedType => ValueError::UnexpectedType,
        }
    }
}

} // verus!
