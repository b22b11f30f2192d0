//! Reading typed fields out of JSON objects, with the errors that name the
//! field at fault.
use vstd::prelude::*;

use crate::js::{is_safe_int, is_safe_uint, MAX_SAFE_INT, MAX_SAFE_UINT};
use crate::json::{JsonNumber, JsonValue};

verus! {

/// The fields that events and their content are read from.
#[derive(Clone, Copy, Debug, PartialEq, Eq)]
pub enum Field {
    Algorithm,
    Ciphertext,
    SenderKey,
    DeviceId,
    SessionId,
    Body,
    MessageType,
    Content,
    EventId,
    OriginServerTs,
    RoomId,
    Sender,
    Unsigned,
    Age,
    TransactionId,
}

/// What is wrong with a field.
#[derive(Clone, Copy, Debug, PartialEq, Eq)]
pub enum Problem {
    /// A required field is absent.
    Missing,
    /// The field holds a value of another kind.
    WrongType,
    /// The field holds an integer outside the range that JavaScript holds exactly.
    OutOfRange,
    /// The field holds text that is not an identifier of the kind required.
    InvalidIdentifier,
    /// The field holds an object in which a key occurs twice.
    RepeatedKey,
}

/// A field that could not be read, and why.
#[derive(Clone, Copy, Debug, PartialEq, Eq)]
pub struct FieldError {
    pub field: Field,
    pub problem: Problem,
}

/// The text of a string value.
pub open spec fn string_value(v: JsonValue) -> Result<String, Problem> {
    match v {
        JsonValue::String(s) => Ok(s),
        _ => Err(Problem::WrongType),
    }
}

/// A non-negative integer value no larger than 2^53 - 1, whichever of the
/// two integer forms holds it.
pub open spec fn uint_value(v: JsonValue) -> Result<u64, Problem> {
    match v {
        JsonValue::Number(JsonNumber::PosInt(n)) => if n <= MAX_SAFE_UINT {
            Ok(n)
        } else {
            Err(Problem::OutOfRange)
        },
        JsonValue::Number(JsonNumber::NegInt(n)) => if 0 <= n && n <= MAX_SAFE_UINT {
            Ok(n as u64)
        } else {
            Err(Problem::OutOfRange)
        },
        _ => Err(Problem::WrongType),
    }
}

/// An integer value whose magnitude is at most 2^53 - 1.
pub open spec fn int_value(v: JsonValue) -> Result<i64, Problem> {
    match v {
        JsonValue::Number(JsonNumber::PosInt(n)) => if n <= MAX_SAFE_UINT {
            Ok(n as i64)
        } else {
            Err(Problem::OutOfRange)
        },
        JsonValue::Number(JsonNumber::NegInt(n)) => if -MAX_SAFE_INT <= n && n <= MAX_SAFE_INT {
            Ok(n)
        } else {
            Err(Problem::OutOfRange)
        },
        _ => Err(Problem::WrongType),
    }
}

/// A result whose error is given the field it belongs to.
pub open spec fn at_field<T>(r: Result<T, Problem>, f: Field) -> Result<T, FieldError> {
    match r {
        Ok(x) => Ok(x),
        Err(p) => Err(FieldError { field: f, problem: p }),
    }
}

/// A required string field.
pub open spec fn read_string(j: JsonValue, key: Seq<char>, f: Field) -> Result<String, FieldError> {
    match j.spec_get(key) {
        None => Err(FieldError { field: f, problem: Problem::Missing }),
        Some(v) => at_field(string_value(v), f),
    }
}

/// A required field holding a non-negative integer.
pub open spec fn read_uint(j: JsonValue, key: Seq<char>, f: Field) -> Result<u64, FieldError> {
    match j.spec_get(key) {
        None => Err(FieldError { field: f, problem: Problem::Missing }),
        Some(v) => at_field(uint_value(v), f),
    }
}

/// An optional string field: absent and null both give none.
pub open spec fn read_opt_string(j: JsonValue, key: Seq<char>, f: Field) -> Result<
    Option<String>,
    FieldError,
> {
    match j.spec_get(key) {
        None => Ok(None),
        Some(JsonValue::Null) => Ok(None),
        Some(v) => match string_value(v) {
            Ok(s) => Ok(Some(s)),
            Err(p) => Err(FieldError { field: f, problem: p }),
        },
    }
}

/// An optional integer field: absent and null both give none.
pub open spec fn read_opt_int(j: JsonValue, key: Seq<char>, f: Field) -> Result<
    Option<i64>,
    FieldError,
> {
    match j.spec_get(key) {
        None => Ok(None),
        Some(JsonValue::Null) => Ok(None),
        Some(v) => match int_value(v) {
            Ok(n) => Ok(Some(n)),
            Err(p) => Err(FieldError { field: f, problem: p }),
        },
    }
}

fn string_of(v: &JsonValue) -> (r: Result<String, Problem>)
    ensures
        r == string_value(*v),
{
    match v {
        JsonValue::String(s) => Ok(s.clone()),
        _ => Err(Problem::WrongType),
    }
}

/// Reads a non-negative integer no larger than 2^53 - 1.
pub fn uint_of(v: &JsonValue) -> (r: Result<u64, Problem>)
    ensures
        r == uint_value(*v),
{
    match v {
        JsonValue::Number(JsonNumber::PosInt(n)) => {
            if is_safe_uint(*n) {
                Ok(*n)
            } else {
                Err(Problem::OutOfRange)
            }
        },
        JsonValue::Number(JsonNumber::NegInt(n)) => {
            if *n >= 0 && is_safe_uint(*n as u64) {
                Ok(*n as u64)
            } else {
                Err(Problem::OutOfRange)
            }
        },
        _ => Err(Problem::WrongType),
    }
}

/// Reads an integer whose magnitude is at most 2^53 - 1.
pub fn int_of(v: &JsonValue) -> (r: Result<i64, Problem>)
    ensures
        r == int_value(*v),
{
    match v {
        JsonValue::Number(JsonNumber::PosInt(n)) => {
            if *n <= MAX_SAFE_UINT {
                Ok(*n as i64)
            } else {
                Err(Problem::OutOfRange)
            }
        },
        JsonValue::Number(JsonNumber::NegInt(n)) => {
            if is_safe_int(*n) {
                Ok(*n)
            } else {
                Err(Problem::OutOfRange)
            }
        },
        _ => Err(Problem::WrongType),
    }
}

/// Reads a required string field.
pub fn string_field(j: &JsonValue, key: &str, f: Field) -> (r: Result<String, FieldError>)
    ensures
        r == read_string(*j, key@, f),
{
    match j.get(key) {
        None => Err(FieldError { field: f, problem: Problem::Missing }),
        Some(v) => match string_of(v) {
            Ok(s) => Ok(s),
            Err(p) => Err(FieldError { field: f, problem: p }),
        },
    }
}

/// Reads a required field holding a non-negative integer.
pub fn uint_field(j: &JsonValue, key: &str, f: Field) -> (r: Result<u64, FieldError>)
    ensures
        r == read_uint(*j, key@, f),
{
    match j.get(key) {
        None => Err(FieldError { field: f, problem: Problem::Missing }),
        Some(v) => match uint_of(v) {
            Ok(n) => Ok(n),
            Err(p) => Err(FieldError { field: f, problem: p }),
        },
    }
}

/// Reads an optional string field.
pub fn opt_string_field(j: &JsonValue, key: &str, f: Field) -> (r: Result<
    Option<String>,
    FieldError,
>)
    ensures
        r == read_opt_string(*j, key@, f),
{
    match j.get(key) {
        None => Ok(None),
        Some(JsonValue::Null) => Ok(None),
        Some(v) => match string_of(v) {
            Ok(s) => Ok(Some(s)),
            Err(p) => Err(FieldError { field: f, problem: p }),
        },
    }
}

/// Reads an optional integer field.
pub fn opt_int_field(j: &JsonValue, key: &str, f: Field) -> (r: Result<Option<i64>, FieldError>)
    ensures
        r == read_opt_int(*j, key@, f),
{
    match j.get(key) {
        None => Ok(None),
        Some(JsonValue::Null) => Ok(None),
        Some(v) => match int_of(v) {
            Ok(n) => Ok(Some(n)),
            Err(p) => Err(FieldError { field: f, problem: p }),
        },
    }
}

} // verus!
