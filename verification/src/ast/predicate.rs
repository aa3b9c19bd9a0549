//! Predicates: what an assert demands of the value it was given.

use vstd::prelude::*;
use vstd::string::*;
use crate::ast::multiline::MultilineString;
use crate::ast::primitive::{SourceInfo, Whitespace};
use crate::ast::template::{Placeholder, Template};
use crate::ast::value::{Base64, File, Hex, Number, Regex};
use crate::text::bool_text;

verus! {

/// The value that a predicate compares with.
#[derive(Clone, Debug, PartialEq, Eq)]
pub enum PredicateValue {
    Base64(Base64),
    Bool(bool),
    File(File),
    Hex(Hex),
    MultilineString(MultilineString),
    Null,
    Number(Number),
    Placeholder(Placeholder),
    Regex(Regex),
    String(Template),
}

impl PredicateValue {
    pub open spec fn source(&self) -> Seq<char> {
        match self {
            PredicateValue::Base64(v) => v.source(),
            PredicateValue::Bool(v) => bool_text(*v),
            PredicateValue::File(v) => v.source(),
            PredicateValue::Hex(v) => v.source(),
            PredicateValue::MultilineString(v) => v.source(),
            PredicateValue::Null => "null"@,
            PredicateValue::Number(v) => v.source(),
            PredicateValue::Placeholder(v) => v.source(),
            PredicateValue::Regex(v) => v.source(),
            PredicateValue::String(v) => v.source(),
        }
    }
}

/// The kinds of predicate, each with what it takes.
#[derive(Clone, Debug, PartialEq, Eq)]
pub enum PredicateFuncValue {
    Equal { space0: Whitespace, value: PredicateValue },
    NotEqual { space0: Whitespace, value: PredicateValue },
    GreaterThan { space0: Whitespace, value: PredicateValue },
    GreaterThanOrEqual { space0: Whitespace, value: PredicateValue },
    LessThan { space0: Whitespace, value: PredicateValue },
    LessThanOrEqual { space0: Whitespace, value: PredicateValue },
    StartWith { space0: Whitespace, value: PredicateValue },
    EndWith { space0: Whitespace, value: PredicateValue },
    Contain { space0: Whitespace, value: PredicateValue },
    Include { space0: Whitespace, value: PredicateValue },
    Match { space0: Whitespace, value: PredicateValue },
    IsInteger,
    IsFloat,
    IsBoolean,
    IsString,
    IsCollection,
    IsDate,
    IsIsoDate,
    Exist,
    IsEmpty,
    IsNumber,
    IsIpv4,
    IsIpv6,
}

impl PredicateFuncValue {
    /// The operator or keyword of this kind of predicate.
    pub open spec fn name(&self) -> Seq<char> {
        match self {
            PredicateFuncValue::Equal { .. } => "=="@,
            PredicateFuncValue::NotEqual { .. } => "!="@,
            PredicateFuncValue::GreaterThan { .. } => ">"@,
            PredicateFuncValue::GreaterThanOrEqual { .. } => ">="@,
            PredicateFuncValue::LessThan { .. } => "<"@,
            PredicateFuncValue::LessThanOrEqual { .. } => "<="@,
            PredicateFuncValue::StartWith { .. } => "startsWith"@,
            PredicateFuncValue::EndWith { .. } => "endsWith"@,
            PredicateFuncValue::Contain { .. } => "contains"@,
            PredicateFuncValue::Include { .. } => "includes"@,
            PredicateFuncValue::Match { .. } => "match"@,
            PredicateFuncValue::IsInteger => "isInteger"@,
            PredicateFuncValue::IsFloat => "isFloat"@,
            PredicateFuncValue::IsBoolean => "isBoolean"@,
            PredicateFuncValue::IsString => "isString"@,
            PredicateFuncValue::IsCollection => "isCollection"@,
            PredicateFuncValue::IsDate => "isDate"@,
            PredicateFuncValue::IsIsoDate => "isIsoDate"@,
            PredicateFuncValue::Exist => "exists"@,
            PredicateFuncValue::IsEmpty => "isEmpty"@,
            PredicateFuncValue::IsNumber => "isNumber"@,
            PredicateFuncValue::IsIpv4 => "isIpv4"@,
            PredicateFuncValue::IsIpv6 => "isIpv6"@,
        }
    }

    /// What follows the operator or keyword.
    pub open spec fn argument_source(&self) -> Seq<char> {
        match self {
            PredicateFuncValue::Equal { space0, value } => space0.source() + value.source(),
            PredicateFuncValue::NotEqual { space0, value } => space0.source() + value.source(),
            PredicateFuncValue::GreaterThan { space0, value } => space0.source() + value.source(),
            PredicateFuncValue::GreaterThanOrEqual { space0, value } => space0.source()
                + value.source(),
            PredicateFuncValue::LessThan { space0, value } => space0.source() + value.source(),
            PredicateFuncValue::LessThanOrEqual { space0, value } => space0.source()
                + value.source(),
            PredicateFuncValue::StartWith { space0, value } => space0.source() + value.source(),
            PredicateFuncValue::EndWith { space0, value } => space0.source() + value.source(),
            PredicateFuncValue::Contain { space0, value } => space0.source() + value.source(),
            PredicateFuncValue::Include { space0, value } => space0.source() + value.source(),
            PredicateFuncValue::Match { space0, value } => space0.source() + value.source(),
            _ => Seq::empty(),
        }
    }

    pub open spec fn source(&self) -> Seq<char> {
        self.name() + self.argument_source()
    }

    /// The operator or keyword of this kind of predicate.
    pub fn identifier(&self) -> (s: &'static str)
        ensures
            s@ == self.name(),
    {
        match self {
            PredicateFuncValue::Equal { .. } => "==",
            PredicateFuncValue::NotEqual { .. } => "!=",
            PredicateFuncValue::GreaterThan { .. } => ">",
            PredicateFuncValue::GreaterThanOrEqual { .. } => ">=",
            PredicateFuncValue::LessThan { .. } => "<",
            PredicateFuncValue::LessThanOrEqual { .. } => "<=",
            PredicateFuncValue::StartWith { .. } => "startsWith",
            PredicateFuncValue::EndWith { .. } => "endsWith",
            PredicateFuncValue::Contain { .. } => "contains",
            PredicateFuncValue::Include { .. } => "includes",
            PredicateFuncValue::Match { .. } => "match",
            PredicateFuncValue::IsInteger => "isInteger",
            PredicateFuncValue::IsFloat => "isFloat",
            PredicateFuncValue::IsBoolean => "isBoolean",
            PredicateFuncValue::IsString => "isString",
            PredicateFuncValue::IsCollection => "isCollection",
            PredicateFuncValue::IsDate => "isDate",
            PredicateFuncValue::IsIsoDate => "isIsoDate",
            PredicateFuncValue::Exist => "exists",
            PredicateFuncValue::IsEmpty => "isEmpty",
            PredicateFuncValue::IsNumber => "isNumber",
            PredicateFuncValue::IsIpv4 => "isIpv4",
            PredicateFuncValue::IsIpv6 => "isIpv6",
        }
    }
}

/// A predicate's test, with the place it was read from.
#[derive(Clone, Debug, PartialEq, Eq)]
pub struct PredicateFunc {
    pub source_info: SourceInfo,
    pub value: PredicateFuncValue,
}

impl PredicateFunc {
    pub open spec fn source(&self) -> Seq<char> {
        self.value.source()
    }
}

/// A predicate: a test, or `not` and a test.
#[derive(Clone, Debug, PartialEq, Eq)]
pub struct Predicate {
    pub not: bool,
    pub space0: Whitespace,
    pub predicate_func: PredicateFunc,
}

impl Predicate {
    /// The word `not` and the space after it, where the predicate is negated.
    pub open spec fn negation_source(&self) -> Seq<char> {
        if self.not {
            "not"@ + self.space0.source()
        } else {
            Seq::empty()
        }
    }

    pub open spec fn source(&self) -> Seq<char> {
        self.negation_source() + self.predicate_func.source()
    }
}

} // verus!
