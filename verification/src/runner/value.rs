//! The values that queries and filters produce.

use vstd::prelude::*;
use vstd::string::*;
use crate::text::{bool_str, bool_text, decimal, push_char, push_decimal};

verus! {

/// A number. A float is held as its IEEE 754 binary64 bit pattern, which
/// keeps the value exactly and lets it pass through code that does no
/// floating-point arithmetic.
#[derive(Clone, Debug, PartialEq, Eq)]
pub enum Number {
    Float(u64),
    Integer(i64),
    BigInteger(String),
}

/// A value.
#[derive(Clone, Debug, PartialEq, Eq)]
pub enum Value {
    Bool(bool),
    Null,
    Number(Number),
    String(String),
    Unit,
}

/// The integer `v` in decimal, with `-` before it where it is negative.
pub open spec fn signed_decimal(v: int) -> Seq<char> {
    if v < 0 {
        seq!['-'] + decimal((-v) as nat)
    } else {
        decimal(v as nat)
    }
}

/// `text` after `kind`, a space and `<`, and before `>`.
pub open spec fn labelled(kind: Seq<char>, text: Seq<char>) -> Seq<char> {
    kind + seq![' ', '<'] + text + seq!['>']
}

impl Value {
    /// Whether the value is a floating-point number.
    pub open spec fn is_float(&self) -> bool {
        self matches Value::Number(Number::Float(_))
    }

    /// How an error message shows the value: its kind, and the value between
    /// `<` and `>`. There is none for a floating-point number: to write one
    /// in decimal takes floating-point arithmetic.
    pub open spec fn display_text(&self) -> Option<Seq<char>> {
        match self {
            Value::Bool(v) => Some(labelled("bool"@, bool_text(*v))),
            Value::Null => Some("null"@),
            Value::Number(Number::Integer(v)) => Some(
                labelled("int"@, signed_decimal(*v as int)),
            ),
            Value::Number(Number::BigInteger(v)) => Some(labelled("number"@, v@)),
            Value::Number(Number::Float(_)) => None,
            Value::String(v) => Some(labelled("string"@, v@)),
            Value::Unit => Some("unit"@),
        }
    }

    /// How an error message shows the value; `None` for a floating-point
    /// number.
    pub fn display(&self) -> (text: Option<String>)
        ensures
            match self.display_text() {
                Some(shown) => text matches Some(t) && t@ == shown,
                None => text is None,
            },
    {
        match self {
            Value::Bool(v) => Some(label("bool", bool_str(*v))),
            Value::Null => Some("null".to_string()),
            Value::Number(Number::Integer(v)) => {
                let mut digits = String::new();
                if *v < 0 {
                    push_char(&mut digits, '-');
                    let magnitude: i128 = -(*v as i128);
                    push_decimal(&mut digits, magnitude as u64);
                } else {
                    push_decimal(&mut digits, *v as u64);
                }
                proof {
                    assert(digits@ =~= signed_decimal(*v as int));
                }
                Some(label("int", digits.as_str()))
            },
            Value::Number(Number::BigInteger(v)) => Some(label("number", v.as_str())),
            Value::Number(Number::Float(_)) => None,
            Value::String(v) => Some(label("string", v.as_str())),
            Value::Unit => Some("unit".to_string()),
        }
    }
}

fn label(kind: &str, text: &str) -> (out: String)
    ensures
        out@ == labelled(kind@, text@),
{
    let mut out = kind.to_string();
    push_char(&mut out, ' ');
    push_char(&mut out, '<');
    out.append(text);
    push_char(&mut out, '>');
    proof {
        assert(out@ =~= labelled(kind@, text@));
    }
    out
}

} // verus!
