//! Big integers as the bridge carries them.
//!
//! A value that fits 64 bits is kept as such and handled here. A
//! larger one is kept as a number of the num-bigint crate, which
//! does all the work on it; of such a number nothing is known here
//! but what that crate answers.

use crate::errors::ValueError;
use crate::tag::JsTag;
use vstd::prelude::*;
use vstd::string::StringExecFns;

verus! {

/// The `BigInt` of num-bigint, carried as it is: nothing of what
/// it holds is known here.
#[verifier::external_type_specification]
#[verifier::external_body]
pub struct ExBigInt(num_bigint::BigInt);

/// `Clone` of num-bigint's `BigInt`: the copy is the same number.
pub assume_specification[ <num_bigint::BigInt as Clone>::clone ](b: &num_bigint::BigInt) -> (r:
    num_bigint::BigInt)
    ensures
        r == *b,
;

/// `BigInt::parse_bytes` of num-bigint: the number that the text
/// writes in the radix `radix`, or `None` where it writes none.
/// Nothing is claimed of the number. The radix must be one that
/// num-bigint takes, else the call panics.
#[verifier::external_body]
fn parse_radix(text: &str, radix: u32) -> Option<num_bigint::BigInt>
    requires
        2 <= radix <= 36,
{
    num_bigint::BigInt::parse_bytes(text.as_bytes(), radix)
}

/// `BigInt::to_str_radix` of num-bigint: the number written in the
/// radix `radix`. Nothing is claimed of the text. The radix must
/// be one that num-bigint takes, else the call panics.
#[verifier::external_body]
fn to_radix(b: &num_bigint::BigInt, radix: u32) -> String
    requires
        2 <= radix <= 36,
{
    b.to_str_radix(radix)
}

/// `ToPrimitive::to_i64` of num-traits on a `BigInt`: the number as
/// an `i64`, or `None` where it does not fit. Nothing is claimed of
/// which it is.
#[verifier::external_body]
fn big_to_i64(b: &num_bigint::BigInt) -> Option<i64> {
    num_traits::ToPrimitive::to_i64(b)
}

/// `ToPrimitive::to_u64` of num-traits on a `BigInt`: the number as
/// a `u64`, or `None` where it does not fit. Nothing is claimed of
/// which it is.
#[verifier::external_body]
fn big_to_u64(b: &num_bigint::BigInt) -> Option<u64> {
    num_traits::ToPrimitive::to_u64(b)
}

/// `ToPrimitive::to_i128` of num-traits on a `BigInt`: the number as
/// an `i128`, or `None` where it does not fit. Nothing is claimed of
/// which it is.
#[verifier::external_body]
fn big_to_i128(b: &num_bigint::BigInt) -> Option<i128> {
    num_traits::ToPrimitive::to_i128(b)
}

/// `ToPrimitive::to_u128` of num-traits on a `BigInt`: the number as
/// a `u128`, or `None` where it does not fit. Nothing is claimed of
/// which it is.
#[verifier::external_body]
fn big_to_u128(b: &num_bigint::BigInt) -> Option<u128> {
    num_traits::ToPrimitive::to_u128(b)
}

/// `From<i128>` of num-bigint's `BigInt`: the number `n`. Nothing is
/// claimed of the result.
#[verifier::external_body]
fn big_from_i128(n: i128) -> num_bigint::BigInt {
    num_bigint::BigInt::from(n)
}

/// `From<u128>` of num-bigint's `BigInt`: the number `n`. Nothing is
/// claimed of the result.
#[verifier::external_body]
fn big_from_u128(n: u128) -> num_bigint::BigInt {
    num_bigint::BigInt::from(n)
}

/// Either a value that fits 64 bits, or an arbitrarily large one.
#[derive(Debug, Clone, PartialEq, Eq)]
pub enum BigIntOrI64 {
    Int(i64),
    Big(num_bigint::BigInt),
}

/// A script big integer on the host side.
#[derive(Debug, Clone, PartialEq, Eq)]
pub struct JsBigInt {
    pub inner: BigIntOrI64,
}

/// How the engine is asked to make a big integer.
#[derive(Debug, PartialEq, Eq)]
pub enum BigIntRequest {
    /// From 64 bits, in one call.
    FromI64(i64),
    /// From its decimal text: the text becomes a string of the
    /// engine, which is handed to the engine's own conversion.
    FromDecimal(String),
}

impl JsBigInt {
    /// A copy of the number.
    pub fn duplicate(&self) -> (copy: JsBigInt)
        ensures
            copy == *self,
    {
        match &self.inner {
            BigIntOrI64::Int(i) => JsBigInt { inner: BigIntOrI64::Int(*i) },
            BigIntOrI64::Big(b) => JsBigInt { inner: BigIntOrI64::Big(b.clone()) },
        }
    }

    /// The big integer `n`.
    pub fn from_i64(n: i64) -> (r: JsBigInt)
        ensures
            r.inner == BigIntOrI64::Int(n),
    {
        JsBigInt { inner: BigIntOrI64::Int(n) }
    }

    /// The big integer `n`: kept as 64 bits where it fits them.
    pub fn from_u64(n: u64) -> (r: JsBigInt)
        ensures
            n <= i64::MAX ==> r.inner == BigIntOrI64::Int(n as i64),
            n > i64::MAX ==> r.inner is Big,
    {
        if n <= i64::MAX as u64 {
            JsBigInt { inner: BigIntOrI64::Int(n as i64) }
        } else {
            JsBigInt { inner: BigIntOrI64::Big(big_from_u128(n as u128)) }
        }
    }

    /// The big integer `n`: kept as 64 bits where it fits them.
    pub fn from_i128(n: i128) -> (r: JsBigInt)
        ensures
            i64::MIN <= n <= i64::MAX ==> r.inner == BigIntOrI64::Int(n as i64),
            !(i64::MIN <= n <= i64::MAX) ==> r.inner is Big,
    {
        if n >= i64::MIN as i128 && n <= i64::MAX as i128 {
            JsBigInt { inner: BigIntOrI64::Int(n as i64) }
        } else {
            JsBigInt { inner: BigIntOrI64::Big(big_from_i128(n)) }
        }
    }

    /// The big integer `n`: kept as 64 bits where it fits them.
    pub fn from_u128(n: u128) -> (r: JsBigInt)
        ensures
            n <= i64::MAX ==> r.inner == BigIntOrI64::Int(n as i64),
            n > i64::MAX ==> r.inner is Big,
    {
        if n <= i64::MAX as u128 {
            JsBigInt { inner: BigIntOrI64::Int(n as i64) }
        } else {
            JsBigInt { inner: BigIntOrI64::Big(big_from_u128(n)) }
        }
    }

    /// The value as 64 bits. A value that is kept as 64 bits is
    /// handed out as it is; for a larger one num-bigint decides.
    pub fn as_i64(&self) -> (r: Option<i64>)
        ensures
            self.inner matches BigIntOrI64::Int(i) ==> r == Some(i),
    {
        match &self.inner {
            BigIntOrI64::Int(i) => Some(*i),
            BigIntOrI64::Big(b) => big_to_i64(b),
        }
    }

    /// The value as a number of num-bigint.
    pub fn into_bigint(self) -> (r: num_bigint::BigInt)
        ensures
            self.inner matches BigIntOrI64::Big(b) ==> r == b,
    {
        match self.inner {
            BigIntOrI64::Int(i) => big_from_i128(i as i128),
            BigIntOrI64::Big(b) => b,
        }
    }

    /// The value as a `u64`; `BigIntOverflow` where it does not fit.
    /// For a value that is kept as 64 bits that is when it is
    /// negative; for a larger one num-bigint decides.
    pub fn to_u64(&self) -> (r: Result<u64, ValueError>)
        ensures
            self.inner matches BigIntOrI64::Int(i) ==> r == (if i >= 0 {
                Ok::<u64, ValueError>(i as u64)
            } else {
                Err(ValueError::BigIntOverflow)
            }),
            r matches Err(e) ==> e == ValueError::BigIntOverflow,
    {
        match &self.inner {
            BigIntOrI64::Int(i) => {
                if *i >= 0 {
                    Ok(*i as u64)
                } else {
                    Err(ValueError::BigIntOverflow)
                }
            },
            BigIntOrI64::Big(b) => match big_to_u64(b) {
                Some(v) => Ok(v),
                None => Err(ValueError::BigIntOverflow),
            },
        }
    }

    /// The value as an `i128`; `BigIntOverflow` where it does not
    /// fit. A value that is kept as 64 bits always fits; for a larger
    /// one num-bigint decides.
    pub fn to_i128(&self) -> (r: Result<i128, ValueError>)
        ensures
            self.inner matches BigIntOrI64::Int(i) ==> r == Ok::<i128, ValueError>(i as i128),
            r matches Err(e) ==> e == ValueError::BigIntOverflow,
    {
        match &self.inner {
            BigIntOrI64::Int(i) => Ok(*i as i128),
            BigIntOrI64::Big(b) => match big_to_i128(b) {
                Some(v) => Ok(v),
                None => Err(ValueError::BigIntOverflow),
            },
        }
    }

    /// The value as a `u128`; `BigIntOverflow` where it does not
    /// fit. For a value that is kept as 64 bits that is when it is
    /// negative; for a larger one num-bigint decides.
    pub fn to_u128(&self) -> (r: Result<u128, ValueError>)
        ensures
            self.inner matches BigIntOrI64::Int(i) ==> r == (if i >= 0 {
                Ok::<u128, ValueError>(i as u128)
            } else {
                Err(ValueError::BigIntOverflow)
            }),
            r matches Err(e) ==> e == ValueError::BigIntOverflow,
    {
        match &self.inner {
            BigIntOrI64::Int(i) => {
                if *i >= 0 {
                    Ok(*i as u128)
                } else {
                    Err(ValueError::BigIntOverflow)
                }
            },
            BigIntOrI64::Big(b) => match big_to_u128(b) {
                Some(v) => Ok(v),
                None => Err(ValueError::BigIntOverflow),
            },
        }
    }
}

/// How the engine is asked to make the big integer `number`: from its
/// 64 bits where it is kept as such, else from the decimal text
/// that num-bigint writes for it.
pub fn create_bigint(number: &JsBigInt) -> (r: BigIntRequest)
    ensures
        match number.inner {
            BigIntOrI64::Int(i) => r == BigIntRequest::FromI64(i),
            BigIntOrI64::Big(_) => r is FromDecimal,
        },
{
    match &number.inner {
        BigIntOrI64::Int(i) => BigIntRequest::FromI64(*i),
        BigIntOrI64::Big(b) => BigIntRequest::FromDecimal(to_radix(b, 10)),
    }
}

/// Checks the two answers of the engine on the way from a decimal
/// text to a big integer: the text must have become a string, and
/// the conversion must have given a big integer.
pub fn create_bigint_checked(text_tag: JsTag, result_tag: Option<JsTag>) -> (r: Result<
    (),
    ValueError,
>)
    ensures
        r is Ok <==> text_tag is String && result_tag == Some(JsTag::BigInt),
        r matches Err(e) ==> e matches ValueError::Internal(m) && m@ == (if !(text_tag is String)
            || result_tag is None {
            "Could not construct String object needed to create BigInt object"@
        } else {
            "Could not construct BigInt object"@
        }),
{
    if !text_tag.is_string() {
        return Err(
            ValueError::Internal(
                String::from_str(
                    "Could not construct String object needed to create BigInt object",
                ),
            ),
        );
    }
    match result_tag {
        Some(JsTag::BigInt) => Ok(()),
        Some(_) => Err(ValueError::Internal(String::from_str("Could not construct BigInt object"))),
        None => Err(
            ValueError::Internal(
                String::from_str(
                    "Could not construct String object needed to create BigInt object",
                ),
            ),
        ),
    }
}

/// What the engine answered when it was asked for a big integer.
#[derive(Debug, PartialEq, Eq)]
pub enum BigIntAnswer {
    /// The value fits 64 bits.
    Fits(i64),
    /// The value does not fit 64 bits; this is its decimal text,
    /// or `None` where the engine gave no text.
    Text(Option<String>),
}

/// The big integer for the answer of the engine: its 64 bits, or
/// the number that num-bigint reads from its decimal text. No text
/// at all, and text that num-bigint does not read as a number, are
/// `Internal` errors.
pub fn to_bigint(answer: BigIntAnswer) -> (r: Result<JsBigInt, ValueError>)
    ensures
        match answer {
            BigIntAnswer::Fits(i) => r matches Ok(b) && b.inner == BigIntOrI64::Int(i),
            BigIntAnswer::Text(None) => r matches Err(ValueError::Internal(m)) && m@
                == "Could not convert BigInt to string: got a null pointer"@,
            BigIntAnswer::Text(Some(_)) => match r {
                Ok(b) => b.inner is Big,
                Err(e) => e matches ValueError::Internal(m) && m@
                    == "Could not convert BigInt to string: not a number"@,
            },
        },
{
    match answer {
        BigIntAnswer::Fits(i) => Ok(JsBigInt { inner: BigIntOrI64::Int(i) }),
        BigIntAnswer::Text(None) => Err(
            ValueError::Internal(
                String::from_str("Could not convert BigInt to string: got a null pointer"),
            ),
        ),
        BigIntAnswer::Text(Some(text)) => match parse_radix(text.as_str(), 10) {
            Some(b) => Ok(JsBigInt { inner: BigIntOrI64::Big(b) }),
            None => Err(
                ValueError::Internal(
                    String::from_str("Could not convert BigInt to string: not a number"),
                ),
            ),
        },
    }
}

} // verus!
