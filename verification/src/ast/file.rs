//! The top of the tree: file, entries, requests and responses.

use vstd::prelude::*;
use vstd::string::*;
use crate::ast::json::JsonValue;
use crate::ast::multiline::MultilineString;
use crate::ast::primitive::{line_terminators_source, LineTerminator, SourceInfo, Whitespace};
use crate::ast::section::{KeyValue, Section};
use crate::ast::template::Template;
use crate::ast::value::{Base64, File, Hex};
use crate::text::{decimal, joined};

verus! {

/// An HTTP method, as the document wrote it.
#[derive(Clone, Debug, PartialEq, Eq)]
pub struct Method(pub String);

impl Method {
    pub fn new(method: &str) -> (m: Method)
        ensures
            m.source() == method@,
    {
        Method(method.to_string())
    }

    pub open spec fn source(&self) -> Seq<char> {
        self.0@
    }

    pub fn as_str(&self) -> (s: &str)
        ensures
            s@ == self.source(),
    {
        self.0.as_str()
    }
}

/// The HTTP version that a response is expected to have.
#[derive(Clone, Copy, Debug, PartialEq, Eq)]
pub enum VersionValue {
    Version1,
    Version11,
    Version2,
    Version3,
    VersionAny,
}

impl VersionValue {
    pub open spec fn name(&self) -> Seq<char> {
        match self {
            VersionValue::Version1 => "HTTP/1.0"@,
            VersionValue::Version11 => "HTTP/1.1"@,
            VersionValue::Version2 => "HTTP/2"@,
            VersionValue::Version3 => "HTTP/3"@,
            VersionValue::VersionAny => "HTTP"@,
        }
    }

    /// The version as a document writes it.
    pub fn identifier(&self) -> (s: &'static str)
        ensures
            s@ == self.name(),
    {
        match self {
            VersionValue::Version1 => "HTTP/1.0",
            VersionValue::Version11 => "HTTP/1.1",
            VersionValue::Version2 => "HTTP/2",
            VersionValue::Version3 => "HTTP/3",
            VersionValue::VersionAny => "HTTP",
        }
    }
}

/// An expected HTTP version, with the place it was read from.
#[derive(Clone, Debug, PartialEq, Eq)]
pub struct Version {
    pub value: VersionValue,
    pub source_info: SourceInfo,
}

impl Version {
    pub open spec fn source(&self) -> Seq<char> {
        self.value.name()
    }
}

/// The status that a response is expected to have: any, or a given code.
#[derive(Clone, Copy, Debug, PartialEq, Eq)]
pub enum StatusValue {
    Any,
    Specific(u64),
}

impl StatusValue {
    /// The status as a document writes it: `*` for any, else the code in
    /// decimal.
    pub open spec fn source(&self) -> Seq<char> {
        match self {
            StatusValue::Any => seq!['*'],
            StatusValue::Specific(code) => decimal(*code as nat),
        }
    }
}

/// An expected status, with the place it was read from.
#[derive(Clone, Debug, PartialEq, Eq)]
pub struct Status {
    pub value: StatusValue,
    pub source_info: SourceInfo,
}

impl Status {
    pub open spec fn source(&self) -> Seq<char> {
        self.value.source()
    }
}

/// The payload of a body.
#[derive(Clone, Debug, PartialEq, Eq)]
pub enum Bytes {
    Json(JsonValue),
    Xml(String),
    MultilineString(MultilineString),
    OnelineString(Template),
    Base64(Base64),
    File(File),
    Hex(Hex),
}

impl Bytes {
    pub open spec fn source(&self) -> Seq<char> {
        match self {
            Bytes::Json(v) => v.source(),
            Bytes::Xml(v) => v@,
            Bytes::MultilineString(v) => v.source(),
            Bytes::OnelineString(v) => v.source(),
            Bytes::Base64(v) => v.source(),
            Bytes::File(v) => v.source(),
            Bytes::Hex(v) => v.source(),
        }
    }
}

/// The body of a request or a response.
#[derive(Clone, Debug, PartialEq, Eq)]
pub struct Body {
    pub line_terminators: Vec<LineTerminator>,
    pub space0: Whitespace,
    pub value: Bytes,
    pub line_terminator0: LineTerminator,
}

impl Body {
    pub open spec fn source(&self) -> Seq<char> {
        line_terminators_source(self.line_terminators@) + self.space0.source()
            + self.value.source() + self.line_terminator0.source()
    }
}

/// The text of an optional body: nothing where there is none.
pub open spec fn optional_body_source(body: Option<Body>) -> Seq<char> {
    match body {
        Some(b) => b.source(),
        None => Seq::empty(),
    }
}

/// A request: method and URL, headers, sections, body.
#[derive(Clone, Debug, PartialEq, Eq)]
pub struct Request {
    pub line_terminators: Vec<LineTerminator>,
    pub space0: Whitespace,
    pub method: Method,
    pub space1: Whitespace,
    pub url: Template,
    pub line_terminator0: LineTerminator,
    pub headers: Vec<KeyValue>,
    pub sections: Vec<Section>,
    pub body: Option<Body>,
    pub source_info: SourceInfo,
}

impl Request {
    pub open spec fn source(&self) -> Seq<char> {
        line_terminators_source(self.line_terminators@) + self.space0.source()
            + self.method.source() + self.space1.source() + self.url.source()
            + self.line_terminator0.source() + joined(self.headers@, |h: KeyValue| h.source())
            + joined(self.sections@, |s: Section| s.source()) + optional_body_source(self.body)
    }
}

/// A response: version and status, headers, sections, body.
#[derive(Clone, Debug, PartialEq, Eq)]
pub struct Response {
    pub line_terminators: Vec<LineTerminator>,
    pub space0: Whitespace,
    pub version: Version,
    pub space1: Whitespace,
    pub status: Status,
    pub line_terminator0: LineTerminator,
    pub headers: Vec<KeyValue>,
    pub sections: Vec<Section>,
    pub body: Option<Body>,
    pub source_info: SourceInfo,
}

impl Response {
    pub open spec fn source(&self) -> Seq<char> {
        line_terminators_source(self.line_terminators@) + self.space0.source()
            + self.version.source() + self.space1.source() + self.status.source()
            + self.line_terminator0.source() + joined(self.headers@, |h: KeyValue| h.source())
            + joined(self.sections@, |s: Section| s.source()) + optional_body_source(self.body)
    }
}

/// The text of an optional response: nothing where there is none.
pub open spec fn optional_response_source(response: Option<Response>) -> Seq<char> {
    match response {
        Some(r) => r.source(),
        None => Seq::empty(),
    }
}

/// An entry: a request and, optionally, the response expected for it.
#[derive(Clone, Debug, PartialEq, Eq)]
pub struct Entry {
    pub request: Request,
    pub response: Option<Response>,
}

impl Entry {
    pub open spec fn source(&self) -> Seq<char> {
        self.request.source() + optional_response_source(self.response)
    }
}

/// A Hurl file: its entries, and the line ends that follow the last of them.
#[derive(Clone, Debug, PartialEq, Eq)]
pub struct HurlFile {
    pub entries: Vec<Entry>,
    pub line_terminators: Vec<LineTerminator>,
}

impl HurlFile {
    /// The text of the whole file.
    pub open spec fn source(&self) -> Seq<char> {
        joined(self.entries@, |e: Entry| e.source()) + line_terminators_source(
            self.line_terminators@,
        )
    }
}

} // verus!
