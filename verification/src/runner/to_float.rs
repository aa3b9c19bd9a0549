//! The filter `toFloat`.
//!
//! The filter decides by the kind of value it is given. The two conversions
//! that take floating-point arithmetic, widening an integer and reading a
//! number from text, are the caller's: `float_conversion` says which of them
//! a value needs, and `eval_to_float` takes what it gave.

use vstd::prelude::*;
use vstd::string::*;
use crate::ast::primitive::SourceInfo;
use crate::runner::error::{Error, RunnerError};
use crate::runner::value::{Number, Value};

verus! {

/// The conversion that a value needs before `toFloat` can answer.
#[derive(Clone, Debug, PartialEq, Eq)]
pub enum FloatConversion {
    /// None: the value is a float already, or can never be one.
    NotNeeded,
    /// The integer is to be widened to the nearest float.
    Widen(i64),
    /// The text is to be read as a float, if it is one.
    Parse(String),
}

/// Says which conversion `value` needs.
pub fn float_conversion(value: &Value) -> (conversion: FloatConversion)
    ensures
        match value {
            Value::Number(Number::Integer(v)) => conversion == FloatConversion::Widen(*v),
            Value::String(s) => conversion matches FloatConversion::Parse(text) && text@ == s@,
            _ => conversion == FloatConversion::NotNeeded,
        },
{
    match value {
        Value::Number(Number::Integer(v)) => FloatConversion::Widen(*v),
        Value::String(s) => FloatConversion::Parse(s.clone()),
        _ => FloatConversion::NotNeeded,
    }
}

/// What `toFloat` answers for `value`, where the conversion that the value
/// needs gave `converted`: the bits of a float, or nothing where the filter
/// fails. An integer always has a float, so `converted` holds one for it; for
/// text it holds one where the text is a number.
pub open spec fn to_float_result(value: Value, converted: Option<u64>) -> Option<u64> {
    match value {
        Value::Number(Number::Float(bits)) => Some(bits),
        Value::Number(Number::Integer(_)) => converted,
        Value::String(_) => converted,
        _ => None,
    }
}

/// Evaluates the filter `toFloat` on `value`.
///
/// A float stays as it is. An integer becomes `converted`, the float it was
/// widened to: the caller hands one in for every integer. Text becomes
/// `converted`, the float that was read from it; where the text is no number,
/// `converted` is `None` and the filter fails. Any other value fails. The
/// error is "invalid filter input": it shows the value, and carries
/// `source_info` and `assert`.
pub fn eval_to_float(
    value: &Value,
    source_info: SourceInfo,
    assert: bool,
    converted: Option<u64>,
) -> (result: Result<Option<Value>, Error>)
    requires
        value matches Value::Number(Number::Integer(_)) ==> converted is Some,
    ensures
        match to_float_result(*value, converted) {
            Some(bits) => result == Ok::<Option<Value>, Error>(
                Some(Value::Number(Number::Float(bits))),
            ),
            None => {
                &&& result matches Err(error)
                &&& value.display_text() matches Some(shown)
                &&& error.is_invalid_input(shown, source_info, assert)
            },
        },
{
    match value {
        Value::Number(Number::Float(v)) => Ok(Some(Value::Number(Number::Float(*v)))),
        Value::Number(Number::Integer(_)) => {
            let bits = converted.unwrap();
            Ok(Some(Value::Number(Number::Float(bits))))
        },
        Value::String(_) => match converted {
            Some(bits) => Ok(Some(Value::Number(Number::Float(bits)))),
            None => {
                let inner = RunnerError::FilterInvalidInput(value.display().unwrap());
                Err(Error::new(source_info, inner, assert))
            },
        },
        v => {
            let inner = RunnerError::FilterInvalidInput(v.display().unwrap());
            Err(Error::new(source_info, inner, assert))
        },
    }
}

} // verus!
