//! Filters: steps that transform what a query found.

use vstd::prelude::*;
use vstd::string::*;
use crate::ast::primitive::{SourceInfo, Whitespace};
use crate::ast::query::RegexValue;
use crate::ast::template::Template;
use crate::ast::value::I64;
use crate::text::joined;

verus! {

/// The kinds of filter, each with what it takes.
#[derive(Clone, Debug, PartialEq, Eq)]
pub enum FilterValue {
    Base64Decode,
    Base64Encode,
    Base64UrlSafeDecode,
    Base64UrlSafeEncode,
    Count,
    DaysAfterNow,
    DaysBeforeNow,
    Decode { space0: Whitespace, encoding: Template },
    First,
    Format { space0: Whitespace, fmt: Template },
    HtmlEscape,
    HtmlUnescape,
    JsonPath { space0: Whitespace, expr: Template },
    Last,
    Location,
    Nth { space0: Whitespace, n: I64 },
    Regex { space0: Whitespace, value: RegexValue },
    Replace { space0: Whitespace, old_value: Template, space1: Whitespace, new_value: Template },
    ReplaceRegex {
        space0: Whitespace,
        pattern: RegexValue,
        space1: Whitespace,
        new_value: Template,
    },
    Split { space0: Whitespace, sep: Template },
    ToDate { space0: Whitespace, fmt: Template },
    ToFloat,
    ToHex,
    ToInt,
    ToString,
    UrlDecode,
    UrlEncode,
    UrlQueryParam { space0: Whitespace, param: Template },
    XPath { space0: Whitespace, expr: Template },
}

impl FilterValue {
    /// The keyword of this kind of filter.
    pub open spec fn name(&self) -> Seq<char> {
        match self {
            FilterValue::Base64Decode => "base64Decode"@,
            FilterValue::Base64Encode => "base64Encode"@,
            FilterValue::Base64UrlSafeDecode => "base64UrlSafeDecode"@,
            FilterValue::Base64UrlSafeEncode => "base64UrlSafeEncode"@,
            FilterValue::Count => "count"@,
            FilterValue::DaysAfterNow => "daysAfterNow"@,
            FilterValue::DaysBeforeNow => "daysBeforeNow"@,
            FilterValue::Decode { .. } => "decode"@,
            FilterValue::First => "first"@,
            FilterValue::Format { .. } => "format"@,
            FilterValue::HtmlEscape => "htmlEscape"@,
            FilterValue::HtmlUnescape => "htmlUnescape"@,
            FilterValue::JsonPath { .. } => "jsonpath"@,
            FilterValue::Last => "last"@,
            FilterValue::Location => "location"@,
            FilterValue::Nth { .. } => "nth"@,
            FilterValue::Regex { .. } => "regex"@,
            FilterValue::Replace { .. } => "replace"@,
            FilterValue::ReplaceRegex { .. } => "replaceRegex"@,
            FilterValue::Split { .. } => "split"@,
            FilterValue::ToDate { .. } => "toDate"@,
            FilterValue::ToFloat => "toFloat"@,
            FilterValue::ToHex => "toHex"@,
            FilterValue::ToInt => "toInt"@,
            FilterValue::ToString => "toString"@,
            FilterValue::UrlDecode => "urlDecode"@,
            FilterValue::UrlEncode => "urlEncode"@,
            FilterValue::UrlQueryParam { .. } => "urlQueryParam"@,
            FilterValue::XPath { .. } => "xpath"@,
        }
    }

    /// What follows the keyword.
    pub open spec fn argument_source(&self) -> Seq<char> {
        match self {
            FilterValue::Decode { space0, encoding } => space0.source() + encoding.source(),
            FilterValue::Format { space0, fmt } => space0.source() + fmt.source(),
            FilterValue::JsonPath { space0, expr } => space0.source() + expr.source(),
            FilterValue::Nth { space0, n } => space0.source() + n.source(),
            FilterValue::Regex { space0, value } => space0.source() + value.source(),
            FilterValue::Replace { space0, old_value, space1, new_value } => space0.source()
                + old_value.source() + space1.source() + new_value.source(),
            FilterValue::ReplaceRegex { space0, pattern, space1, new_value } => space0.source()
                + pattern.source() + space1.source() + new_value.source(),
            FilterValue::Split { space0, sep } => space0.source() + sep.source(),
            FilterValue::ToDate { space0, fmt } => space0.source() + fmt.source(),
            FilterValue::UrlQueryParam { space0, param } => space0.source() + param.source(),
            FilterValue::XPath { space0, expr } => space0.source() + expr.source(),
            _ => Seq::empty(),
        }
    }

    pub open spec fn source(&self) -> Seq<char> {
        self.name() + self.argument_source()
    }

    /// The keyword of this kind of filter.
    pub fn identifier(&self) -> (s: &'static str)
        ensures
            s@ == self.name(),
    {
        match self {
            FilterValue::Base64Decode => "base64Decode",
            FilterValue::Base64Encode => "base64Encode",
            FilterValue::Base64UrlSafeDecode => "base64UrlSafeDecode",
            FilterValue::Base64UrlSafeEncode => "base64UrlSafeEncode",
            FilterValue::Count => "count",
            FilterValue::DaysAfterNow => "daysAfterNow",
            FilterValue::DaysBeforeNow => "daysBeforeNow",
            FilterValue::Decode { .. } => "decode",
            FilterValue::First => "first",
            FilterValue::Format { .. } => "format",
            FilterValue::HtmlEscape => "htmlEscape",
            FilterValue::HtmlUnescape => "htmlUnescape",
            FilterValue::JsonPath { .. } => "jsonpath",
            FilterValue::Last => "last",
            FilterValue::Location => "location",
            FilterValue::Nth { .. } => "nth",
            FilterValue::Regex { .. } => "regex",
            FilterValue::Replace { .. } => "replace",
            FilterValue::ReplaceRegex { .. } => "replaceRegex",
            FilterValue::Split { .. } => "split",
            FilterValue::ToDate { .. } => "toDate",
            FilterValue::ToFloat => "toFloat",
            FilterValue::ToHex => "toHex",
            FilterValue::ToInt => "toInt",
            FilterValue::ToString => "toString",
            FilterValue::UrlDecode => "urlDecode",
            FilterValue::UrlEncode => "urlEncode",
            FilterValue::UrlQueryParam { .. } => "urlQueryParam",
            FilterValue::XPath { .. } => "xpath",
        }
    }
}

/// A filter, with the place it was read from.
#[derive(Clone, Debug, PartialEq, Eq)]
pub struct Filter {
    pub source_info: SourceInfo,
    pub value: FilterValue,
}

impl Filter {
    pub open spec fn source(&self) -> Seq<char> {
        self.value.source()
    }
}

/// The text of a chain of filters, each after the space that precedes it.
pub open spec fn filters_source(filters: Seq<(Whitespace, Filter)>) -> Seq<char> {
    joined(filters, |pair: (Whitespace, Filter)| pair.0.source() + pair.1.source())
}

} // verus!
