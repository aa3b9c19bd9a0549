//! Sections: the named blocks of a request or a response, and their lines.

use vstd::prelude::*;
use vstd::string::*;
use crate::ast::filter::{filters_source, Filter};
use crate::ast::option::EntryOption;
use crate::ast::predicate::Predicate;
use crate::ast::primitive::{line_terminators_source, LineTerminator, SourceInfo, Whitespace};
use crate::ast::query::Query;
use crate::ast::template::Template;
use crate::text::joined;

verus! {

/// A line `key: value`.
#[derive(Clone, Debug, PartialEq, Eq)]
pub struct KeyValue {
    pub line_terminators: Vec<LineTerminator>,
    pub space0: Whitespace,
    pub key: Template,
    pub space1: Whitespace,
    pub space2: Whitespace,
    pub value: Template,
    pub line_terminator0: LineTerminator,
}

impl KeyValue {
    pub open spec fn source(&self) -> Seq<char> {
        line_terminators_source(self.line_terminators@) + self.space0.source() + self.key.source()
            + self.space1.source() + seq![':'] + self.space2.source() + self.value.source()
            + self.line_terminator0.source()
    }
}

/// The text of an optional line `key: value`: nothing where there is none.
pub open spec fn optional_key_value_source(kv: Option<KeyValue>) -> Seq<char> {
    match kv {
        Some(kv) => kv.source(),
        None => Seq::empty(),
    }
}

/// A cookie: a line `name: value`.
#[derive(Clone, Debug, PartialEq, Eq)]
pub struct Cookie {
    pub line_terminators: Vec<LineTerminator>,
    pub space0: Whitespace,
    pub name: Template,
    pub space1: Whitespace,
    pub space2: Whitespace,
    pub value: Template,
    pub line_terminator0: LineTerminator,
}

impl Cookie {
    pub open spec fn source(&self) -> Seq<char> {
        line_terminators_source(self.line_terminators@) + self.space0.source() + self.name.source()
            + self.space1.source() + seq![':'] + self.space2.source() + self.value.source()
            + self.line_terminator0.source()
    }
}

/// The file of a multipart parameter: `file,` its name, `;` and, optionally,
/// its content type.
#[derive(Clone, Debug, PartialEq, Eq)]
pub struct FilenameValue {
    pub space0: Whitespace,
    pub filename: Template,
    pub space1: Whitespace,
    pub space2: Whitespace,
    pub content_type: Option<Template>,
}

/// The text of an optional template: nothing where there is none.
pub open spec fn optional_template_source(template: Option<Template>) -> Seq<char> {
    match template {
        Some(t) => t.source(),
        None => Seq::empty(),
    }
}

impl FilenameValue {
    pub open spec fn source(&self) -> Seq<char> {
        "file,"@ + self.space0.source() + self.filename.source() + self.space1.source() + seq![';']
            + self.space2.source() + optional_template_source(self.content_type)
    }
}

/// A multipart parameter that names a file.
#[derive(Clone, Debug, PartialEq, Eq)]
pub struct FilenameParam {
    pub line_terminators: Vec<LineTerminator>,
    pub space0: Whitespace,
    pub key: Template,
    pub space1: Whitespace,
    pub space2: Whitespace,
    pub value: FilenameValue,
    pub line_terminator0: LineTerminator,
}

impl FilenameParam {
    pub open spec fn source(&self) -> Seq<char> {
        line_terminators_source(self.line_terminators@) + self.space0.source() + self.key.source()
            + self.space1.source() + seq![':'] + self.space2.source() + self.value.source()
            + self.line_terminator0.source()
    }
}

/// A multipart parameter: a plain value, or a file.
#[derive(Clone, Debug, PartialEq, Eq)]
pub enum MultipartParam {
    Param(KeyValue),
    FilenameParam(FilenameParam),
}

impl MultipartParam {
    pub open spec fn source(&self) -> Seq<char> {
        match self {
            MultipartParam::Param(p) => p.source(),
            MultipartParam::FilenameParam(p) => p.source(),
        }
    }
}

/// A capture: a line `name: query filters`, optionally marked `redact`.
#[derive(Clone, Debug, PartialEq, Eq)]
pub struct Capture {
    pub line_terminators: Vec<LineTerminator>,
    pub space0: Whitespace,
    pub name: Template,
    pub space1: Whitespace,
    pub space2: Whitespace,
    pub query: Query,
    pub filters: Vec<(Whitespace, Filter)>,
    pub space3: Whitespace,
    pub redact: bool,
    pub line_terminator0: LineTerminator,
}

impl Capture {
    /// The word `redact`, where the capture is marked with it.
    pub open spec fn redact_source(&self) -> Seq<char> {
        if self.redact {
            "redact"@
        } else {
            Seq::empty()
        }
    }

    pub open spec fn source(&self) -> Seq<char> {
        line_terminators_source(self.line_terminators@) + self.space0.source() + self.name.source()
            + self.space1.source() + seq![':'] + self.space2.source() + self.query.source()
            + filters_source(self.filters@) + self.space3.source() + self.redact_source()
            + self.line_terminator0.source()
    }
}

/// An assert: a line `query filters predicate`.
#[derive(Clone, Debug, PartialEq, Eq)]
pub struct Assert {
    pub line_terminators: Vec<LineTerminator>,
    pub space0: Whitespace,
    pub query: Query,
    pub filters: Vec<(Whitespace, Filter)>,
    pub space1: Whitespace,
    pub predicate: Predicate,
    pub line_terminator0: LineTerminator,
}

impl Assert {
    pub open spec fn source(&self) -> Seq<char> {
        line_terminators_source(self.line_terminators@) + self.space0.source()
            + self.query.source() + filters_source(self.filters@) + self.space1.source()
            + self.predicate.source() + self.line_terminator0.source()
    }
}

/// What a section holds. The flag of the three parameter sections says
/// whether the document used the section's short name.
#[derive(Clone, Debug, PartialEq, Eq)]
pub enum SectionValue {
    QueryParams(Vec<KeyValue>, bool),
    BasicAuth(Option<KeyValue>),
    FormParams(Vec<KeyValue>, bool),
    MultipartFormData(Vec<MultipartParam>, bool),
    Cookies(Vec<Cookie>),
    Captures(Vec<Capture>),
    Asserts(Vec<Assert>),
    Options(Vec<EntryOption>),
}

impl SectionValue {
    /// The name of the section, as the document wrote it between brackets.
    pub open spec fn name(&self) -> Seq<char> {
        match self {
            SectionValue::Asserts(_) => "Asserts"@,
            SectionValue::QueryParams(_, short) => if *short {
                "Query"@
            } else {
                "QueryStringParams"@
            },
            SectionValue::BasicAuth(_) => "BasicAuth"@,
            SectionValue::FormParams(_, short) => if *short {
                "Form"@
            } else {
                "FormParams"@
            },
            SectionValue::Cookies(_) => "Cookies"@,
            SectionValue::Captures(_) => "Captures"@,
            SectionValue::MultipartFormData(_, short) => if *short {
                "Multipart"@
            } else {
                "MultipartFormData"@
            },
            SectionValue::Options(_) => "Options"@,
        }
    }

    /// The lines of the section.
    pub open spec fn source(&self) -> Seq<char> {
        match self {
            SectionValue::Asserts(items) => joined(items@, |item: Assert| item.source()),
            SectionValue::QueryParams(items, _) => joined(items@, |item: KeyValue| item.source()),
            SectionValue::BasicAuth(item) => optional_key_value_source(*item),
            SectionValue::FormParams(items, _) => joined(items@, |item: KeyValue| item.source()),
            SectionValue::MultipartFormData(items, _) => joined(
                items@,
                |item: MultipartParam| item.source(),
            ),
            SectionValue::Cookies(items) => joined(items@, |item: Cookie| item.source()),
            SectionValue::Captures(items) => joined(items@, |item: Capture| item.source()),
            SectionValue::Options(items) => joined(items@, |item: EntryOption| item.source()),
        }
    }

    /// The name of the section, as the document wrote it between brackets.
    pub fn identifier(&self) -> (s: &'static str)
        ensures
            s@ == self.name(),
    {
        match self {
            SectionValue::Asserts(_) => "Asserts",
            SectionValue::QueryParams(_, short) => if *short {
                "Query"
            } else {
                "QueryStringParams"
            },
            SectionValue::BasicAuth(_) => "BasicAuth",
            SectionValue::FormParams(_, short) => if *short {
                "Form"
            } else {
                "FormParams"
            },
            SectionValue::Cookies(_) => "Cookies",
            SectionValue::Captures(_) => "Captures",
            SectionValue::MultipartFormData(_, short) => if *short {
                "Multipart"
            } else {
                "MultipartFormData"
            },
            SectionValue::Options(_) => "Options",
        }
    }
}

/// A section: its name in brackets on a line of its own, then its lines.
#[derive(Clone, Debug, PartialEq, Eq)]
pub struct Section {
    pub line_terminators: Vec<LineTerminator>,
    pub space0: Whitespace,
    pub line_terminator0: LineTerminator,
    pub value: SectionValue,
    pub source_info: SourceInfo,
}

impl Section {
    /// The name of the section between its brackets.
    pub open spec fn header(&self) -> Seq<char> {
        seq!['['] + self.value.name() + seq![']']
    }

    pub open spec fn source(&self) -> Seq<char> {
        line_terminators_source(self.line_terminators@) + self.space0.source() + self.header()
            + self.line_terminator0.source() + self.value.source()
    }

    /// The name of the section, as the document wrote it between brackets.
    pub fn identifier(&self) -> (s: &'static str)
        ensures
            s@ == self.value.name(),
    {
        self.value.identifier()
    }
}

} // verus!
