use crate::errors::{ExecutionError, ValueError};
use vstd::prelude::*;
use vstd::string::StringExecFns;

verus! {

/// What can go wrong while structured data is read from or written to
/// engine values.
#[derive(Debug)]
pub enum Error {
    /// A message of the data type that is being read or written.
    Message(String),
    Eof,
    Syntax,
    ExpectedBoolean,
    ExpectedInteger,
    ExpectedFloat,
    ExpectedString,
    ExpectedNull,
    ExpectedObject,
    ExpectedArrayOrObject,
    ExpectedArray,
    ExpectedArrayComma,
    ExpectedArrayEnd,
    ExpectedMap,
    ExpectedMapColon,
    ExpectedMapComma,
    ExpectedMapEnd,
    ExpectedEnum,
    TrailingCharacters,
    /// A big integer does not fit 64 bits.
    BigIntOverflow,
    /// The value contains itself.
    CircularReference,
    /// A value could not be converted.
    ValueError(ValueError),
    /// The engine failed.
    ExecutionError(ExecutionError),
}

impl Error {
    /// The text of the error.
    pub open spec fn message(&self) -> Seq<char> {
        match self {
            Error::Message(m) => m@,
            Error::Eof => "end of file"@,
            Error::Syntax => "invalid syntax"@,
            Error::ExpectedBoolean => "expect boolean"@,
            Error::ExpectedInteger => "expect integer"@,
            Error::ExpectedFloat => "expect float"@,
            Error::ExpectedString => "expect string"@,
            Error::ExpectedNull => "expect null"@,
            Error::ExpectedObject => "expect object"@,
            Error::ExpectedArrayOrObject => "expect array or object"@,
            Error::ExpectedArray => "expect array"@,
            Error::ExpectedArrayComma => "expect array comma"@,
            Error::ExpectedArrayEnd => "expect array end"@,
            Error::ExpectedMap => "expect map"@,
            Error::ExpectedMapColon => "expect map colon"@,
            Error::ExpectedMapComma => "expect map comma"@,
            Error::ExpectedMapEnd => "expect map end"@,
            Error::ExpectedEnum => "expect enum"@,
            Error::TrailingCharacters => "trailing characters"@,
            Error::BigIntOverflow => "bigint overflow"@,
            Error::CircularReference => "circular reference"@,
            Error::ValueError(e) => e.message(),
            Error::ExecutionError(e) => e.message(),
        }
    }

    /// The text of the error.
    pub fn to_string(&self) -> (text: String)
        ensures
            text@ == self.message(),
    {
        match self {
            Error::Message(m) => m.clone(),
            Error::Eof => String::from_str("end of file"),
            Error::Syntax => String::from_str("invalid syntax"),
            Error::ExpectedBoolean => String::from_str("expect boolean"),
            Error::ExpectedInteger => String::from_str("expect integer"),
            Error::ExpectedFloat => String::from_str("expect float"),
            Error::ExpectedString => String::from_str("expect string"),
            Error::ExpectedNull => String::from_str("expect null"),
            Error::ExpectedObject => String::from_str("expect object"),
            Error::ExpectedArrayOrObject => String::from_str("expect array or object"),
            Error::ExpectedArray => String::from_str("expect array"),
            Error::ExpectedArrayComma => String::from_str("expect array comma"),
            Error::ExpectedArrayEnd => String::from_str("expect array end"),
            Error::ExpectedMap => String::from_str("expect map"),
            Error::ExpectedMapColon => String::from_str("expect map colon"),
            Error::ExpectedMapComma => String::from_str("expect map comma"),
            Error::ExpectedMapEnd => String::from_str("expect map end"),
            Error::ExpectedEnum => String::from_str("expect enum"),
            Error::TrailingCharacters => String::from_str("trailing characters"),
            Error::BigIntOverflow => String::from_str("bigint overflow"),
            Error::CircularReference => String::from_str("circular reference"),
            Error::ValueError(e) => e.to_string(),
            Error::ExecutionError(e) => e.to_string(),
        }
    }

    /// The error that carries the message `msg`.
    pub fn custom(msg: &str) -> (e: Error)
        ensures
            e matches Error::Message(m) && m@ == msg@,
    {
        Error::Message(String::from_str(msg))
    }
}

} // verus!
