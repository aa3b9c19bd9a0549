//! Literal values: numbers, regular expressions, byte strings, file names.

use vstd::prelude::*;
use vstd::string::*;
use crate::ast::primitive::Whitespace;
use crate::ast::template::Template;
use crate::text::decimal;

verus! {

/// A signed integer literal, with the digits the document wrote.
#[derive(Clone, Debug, PartialEq, Eq)]
pub struct I64 {
    pub value: i64,
    pub source: String,
}

impl I64 {
    pub fn new(value: i64, source: String) -> (n: I64)
        ensures
            n.value == value,
            n.source == source,
    {
        I64 { value, source }
    }

    pub open spec fn source(&self) -> Seq<char> {
        self.source@
    }

    /// The literal as the document writes it.
    pub fn to_source(&self) -> (s: String)
        ensures
            s@ == self.source(),
    {
        self.source.clone()
    }
}

/// An unsigned integer literal, with the digits the document wrote.
#[derive(Clone, Debug, PartialEq, Eq)]
pub struct U64 {
    pub value: u64,
    pub source: String,
}

impl U64 {
    pub fn new(value: u64, source: String) -> (n: U64)
        ensures
            n.value == value,
            n.source == source,
    {
        U64 { value, source }
    }

    pub open spec fn source(&self) -> Seq<char> {
        self.source@
    }

    /// The literal as the document writes it.
    pub fn to_source(&self) -> (s: String)
        ensures
            s@ == self.source(),
    {
        self.source.clone()
    }
}

/// A floating-point literal. `bits` is the value as an IEEE 754 binary64 bit
/// pattern; `source` is the spelling the document used.
#[derive(Clone, Debug, PartialEq, Eq)]
pub struct Float {
    pub bits: u64,
    pub source: String,
}

impl Float {
    pub fn new(bits: u64, source: String) -> (n: Float)
        ensures
            n.bits == bits,
            n.source == source,
    {
        Float { bits, source }
    }

    pub open spec fn source(&self) -> Seq<char> {
        self.source@
    }

    /// The literal as the document writes it.
    pub fn to_source(&self) -> (s: String)
        ensures
            s@ == self.source(),
    {
        self.source.clone()
    }
}

/// A number literal. One too large for 64 bits is kept as its digits.
#[derive(Clone, Debug, PartialEq, Eq)]
pub enum Number {
    Float(Float),
    Integer(I64),
    BigInteger(String),
}

impl Number {
    /// The number as the document writes it. This is the author's spelling,
    /// never digits computed from the value: a sign, an exponent or trailing
    /// zeros stay as they were.
    pub open spec fn source(&self) -> Seq<char> {
        match self {
            Number::Float(v) => v.source(),
            Number::Integer(v) => v.source(),
            Number::BigInteger(v) => v@,
        }
    }

    /// The number as the document writes it.
    pub fn to_source(&self) -> (s: String)
        ensures
            s@ == self.source(),
    {
        match self {
            Number::Float(v) => v.to_source(),
            Number::Integer(v) => v.to_source(),
            Number::BigInteger(v) => v.clone(),
        }
    }
}

/// A regular expression literal. `source` is the literal as written, slashes
/// included.
#[derive(Clone, Debug, PartialEq, Eq)]
pub struct Regex {
    pub source: String,
}

impl Regex {
    pub open spec fn source(&self) -> Seq<char> {
        self.source@
    }

    /// The literal as the document writes it.
    pub fn to_source(&self) -> (s: String)
        ensures
            s@ == self.source(),
    {
        self.source.clone()
    }
}

/// Bytes written in base 64: `base64,` the digits and `;`.
#[derive(Clone, Debug, PartialEq, Eq)]
pub struct Base64 {
    pub space0: Whitespace,
    pub value: Vec<u8>,
    pub source: String,
    pub space1: Whitespace,
}

impl Base64 {
    pub open spec fn source(&self) -> Seq<char> {
        "base64,"@ + self.space0.source() + self.source@ + self.space1.source() + seq![';']
    }
}

/// Bytes written in hexadecimal: `hex,` the digits and `;`.
#[derive(Clone, Debug, PartialEq, Eq)]
pub struct Hex {
    pub space0: Whitespace,
    pub value: Vec<u8>,
    pub source: String,
    pub space1: Whitespace,
}

impl Hex {
    pub open spec fn source(&self) -> Seq<char> {
        "hex,"@ + self.space0.source() + self.source@ + self.space1.source() + seq![';']
    }
}

/// The content of a file: `file,` the file's name and `;`.
#[derive(Clone, Debug, PartialEq, Eq)]
pub struct File {
    pub space0: Whitespace,
    pub filename: Template,
    pub space1: Whitespace,
}

impl File {
    pub open spec fn source(&self) -> Seq<char> {
        "file,"@ + self.space0.source() + self.filename.source() + self.space1.source() + seq![';']
    }
}

/// How many times: a number, or without end.
#[derive(Clone, Copy, Debug, PartialEq, Eq)]
pub enum Count {
    Finite(usize),
    Infinite,
}

impl Count {
    /// The count as a document writes it. A document writes `-1` for a count
    /// without end.
    pub open spec fn source(&self) -> Seq<char> {
        match self {
            Count::Finite(n) => decimal(*n as nat),
            Count::Infinite => seq!['-', '1'],
        }
    }
}

/// The unit of a duration.
#[derive(Clone, Copy, Debug, PartialEq, Eq)]
pub enum DurationUnit {
    MilliSecond,
    Second,
    Minute,
}

impl DurationUnit {
    pub open spec fn name(&self) -> Seq<char> {
        match self {
            DurationUnit::MilliSecond => "ms"@,
            DurationUnit::Second => "s"@,
            DurationUnit::Minute => "m"@,
        }
    }

    /// The unit as a document writes it.
    pub fn identifier(&self) -> (s: &'static str)
        ensures
            s@ == self.name(),
    {
        match self {
            DurationUnit::MilliSecond => "ms",
            DurationUnit::Second => "s",
            DurationUnit::Minute => "m",
        }
    }
}

/// The text of an optional unit: nothing where there is none.
pub open spec fn unit_source(unit: Option<DurationUnit>) -> Seq<char> {
    match unit {
        Some(u) => u.name(),
        None => Seq::empty(),
    }
}

/// A duration: a number and, optionally, its unit.
#[derive(Clone, Debug, PartialEq, Eq)]
pub struct Duration {
    pub value: U64,
    pub unit: Option<DurationUnit>,
}

impl Duration {
    pub open spec fn source(&self) -> Seq<char> {
        self.value.source() + unit_source(self.unit)
    }
}

} // verus!
