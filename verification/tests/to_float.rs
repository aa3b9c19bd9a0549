use hurl_html::ast::filter::{Filter, FilterValue};
use hurl_html::ast::primitive::{Pos, SourceInfo};
use hurl_html::runner::error::{Error, RunnerError};
use hurl_html::runner::to_float::{eval_to_float, float_conversion, FloatConversion};
use hurl_html::runner::value::{Number, Value};
use std::collections::HashMap;

fn float(v: f64) -> Value {
    Value::Number(Number::Float(v.to_bits()))
}

/// Runs a filter the way a program around the library does: it makes the
/// conversion that the value needs, and hands the outcome to the library.
fn eval_filter(
    filter: &Filter,
    value: &Value,
    _variables: &HashMap<String, Value>,
    in_assert: bool,
) -> Result<Option<Value>, Error> {
    match filter.value {
        FilterValue::ToFloat => {
            let converted = match float_conversion(value) {
                FloatConversion::NotNeeded => None,
                FloatConversion::Widen(v) => Some((v as f64).to_bits()),
                FloatConversion::Parse(text) => text.parse::<f64>().ok().map(f64::to_bits),
            };
            eval_to_float(value, filter.source_info, in_assert, converted)
        }
        _ => unreachable!(),
    }
}

#[test]
pub fn eval_filter_to_float() {
    let variable = HashMap::new();
    let filter = Filter {
        source_info: SourceInfo::new(Pos::new(1, 1), Pos::new(1, 1)),
        value: FilterValue::ToFloat,
    };
    assert_eq!(
        eval_filter(
            &filter,
            &Value::String("3.1415".to_string()),
            &variable,
            false
        )
        .unwrap()
        .unwrap(),
        float(3.1415)
    );
    assert_eq!(
        eval_filter(&filter, &float(3.1415), &variable, false)
            .unwrap()
            .unwrap(),
        float(3.1415)
    );
    assert_eq!(
        eval_filter(&filter, &float(3.0), &variable, false)
            .unwrap()
            .unwrap(),
        float(3.0)
    );
    assert_eq!(
        eval_filter(
            &filter,
            &Value::Number(Number::Integer(3)),
            &variable,
            false
        )
        .unwrap()
        .unwrap(),
        float(3.0)
    );
}

#[test]
pub fn eval_filter_to_float_error() {
    let variable = HashMap::new();
    let filter = Filter {
        source_info: SourceInfo::new(Pos::new(1, 1), Pos::new(1, 1)),
        value: FilterValue::ToFloat,
    };
    let err = eval_filter(
        &filter,
        &Value::String("3x.1415".to_string()),
        &variable,
        false,
    )
    .err()
    .unwrap();
    assert_eq!(
        err.inner,
        RunnerError::FilterInvalidInput("string <3x.1415>".to_string())
    );
    let err = eval_filter(&filter, &Value::Bool(true), &variable, false)
        .err()
        .unwrap();
    assert_eq!(
        err.inner,
        RunnerError::FilterInvalidInput("bool <true>".to_string())
    );
}

#[test]
fn to_float_error_carries_place_and_flag() {
    let place = SourceInfo::new(Pos::new(4, 2), Pos::new(4, 9));
    let err = eval_to_float(&Value::Null, place, true, None).err().unwrap();
    assert_eq!(err.source_info, place);
    assert!(err.assert);
    assert_eq!(err.inner, RunnerError::FilterInvalidInput("null".to_string()));
    let err = eval_to_float(&Value::Unit, place, false, None).err().unwrap();
    assert!(!err.assert);
    assert_eq!(err.inner, RunnerError::FilterInvalidInput("unit".to_string()));
}

#[test]
fn to_float_keeps_a_float_whatever_is_handed_in() {
    let place = SourceInfo::new(Pos::new(1, 1), Pos::new(1, 1));
    let out = eval_to_float(&float(1.5), place, false, Some(7)).unwrap();
    assert_eq!(out, Some(float(1.5)));
    let out = eval_to_float(&float(1.5), place, false, None).unwrap();
    assert_eq!(out, Some(float(1.5)));
}

#[test]
fn to_float_takes_the_conversion_for_integer_and_text() {
    let place = SourceInfo::new(Pos::new(1, 1), Pos::new(1, 1));
    let bits = 2.0f64.to_bits();
    let out = eval_to_float(&Value::Number(Number::Integer(2)), place, false, Some(bits));
    assert_eq!(out.unwrap(), Some(float(2.0)));
    let out = eval_to_float(&Value::String("2".to_string()), place, false, Some(bits));
    assert_eq!(out.unwrap(), Some(float(2.0)));
    // a conversion never turns a boolean into a float
    let out = eval_to_float(&Value::Bool(false), place, false, Some(bits));
    assert_eq!(
        out.err().unwrap().inner,
        RunnerError::FilterInvalidInput("bool <false>".to_string())
    );
}

#[test]
fn float_conversion_by_kind_of_value() {
    assert_eq!(
        float_conversion(&Value::Number(Number::Integer(-4))),
        FloatConversion::Widen(-4)
    );
    assert_eq!(
        float_conversion(&Value::String("1e3".to_string())),
        FloatConversion::Parse("1e3".to_string())
    );
    assert_eq!(float_conversion(&float(0.5)), FloatConversion::NotNeeded);
    assert_eq!(float_conversion(&Value::Bool(true)), FloatConversion::NotNeeded);
    assert_eq!(float_conversion(&Value::Null), FloatConversion::NotNeeded);
    assert_eq!(
        float_conversion(&Value::Number(Number::BigInteger("99".to_string()))),
        FloatConversion::NotNeeded
    );
}

fn shown(value: Value) -> String {
    value.display().unwrap()
}

#[test]
fn display_of_values() {
    assert_eq!(shown(Value::Bool(false)), "bool <false>");
    assert_eq!(shown(Value::Null), "null");
    assert_eq!(shown(Value::Unit), "unit");
    assert_eq!(shown(Value::String("a b".to_string())), "string <a b>");
    assert_eq!(shown(Value::String(String::new())), "string <>");
    assert_eq!(shown(Value::Number(Number::Integer(0))), "int <0>");
    assert_eq!(shown(Value::Number(Number::Integer(1234))), "int <1234>");
    assert_eq!(shown(Value::Number(Number::Integer(-12))), "int <-12>");
    assert_eq!(
        shown(Value::Number(Number::Integer(i64::MIN))),
        "int <-9223372036854775808>"
    );
    assert_eq!(
        shown(Value::Number(Number::Integer(i64::MAX))),
        "int <9223372036854775807>"
    );
    assert_eq!(
        shown(Value::Number(Number::BigInteger(
            "10000000000000000000000".to_string()
        ))),
        "number <10000000000000000000000>"
    );
    assert_eq!(float(1.5).display(), None);
}

#[test]
fn to_float_fails_on_a_number_too_large_for_an_integer() {
    let place = SourceInfo::new(Pos::new(1, 1), Pos::new(1, 1));
    let value = Value::Number(Number::BigInteger("10000000000000000000000".to_string()));
    let out = eval_to_float(&value, place, false, None);
    assert_eq!(
        out.err().unwrap().inner,
        RunnerError::FilterInvalidInput("number <10000000000000000000000>".to_string())
    );
}

#[test]
fn to_float_widens_every_integer() {
    let place = SourceInfo::new(Pos::new(1, 1), Pos::new(1, 1));
    for v in [0i64, 1, -1, 3, i64::MAX, i64::MIN] {
        let bits = (v as f64).to_bits();
        let out = eval_to_float(&Value::Number(Number::Integer(v)), place, false, Some(bits));
        assert_eq!(out.unwrap(), Some(float(v as f64)));
    }
}
