//! Queries: what a capture or an assert reads from a response.

use vstd::prelude::*;
use vstd::string::*;
use crate::ast::primitive::{SourceInfo, Whitespace};
use crate::ast::template::Template;
use crate::ast::value::Regex;

verus! {

/// A pattern given as a quoted template or as a regular expression literal.
#[derive(Clone, Debug, PartialEq, Eq)]
pub enum RegexValue {
    Template(Template),
    Regex(Regex),
}

impl RegexValue {
    pub open spec fn source(&self) -> Seq<char> {
        match self {
            RegexValue::Template(t) => t.source(),
            RegexValue::Regex(r) => r.source(),
        }
    }
}

/// The name of a cookie attribute, as the document spelled it.
#[derive(Clone, Debug, PartialEq, Eq)]
pub enum CookieAttributeName {
    Value(String),
    Expires(String),
    MaxAge(String),
    Domain(String),
    Path(String),
    Secure(String),
    HttpOnly(String),
    SameSite(String),
}

impl CookieAttributeName {
    pub open spec fn spelling(&self) -> Seq<char> {
        match self {
            CookieAttributeName::Value(s) => s@,
            CookieAttributeName::Expires(s) => s@,
            CookieAttributeName::MaxAge(s) => s@,
            CookieAttributeName::Domain(s) => s@,
            CookieAttributeName::Path(s) => s@,
            CookieAttributeName::Secure(s) => s@,
            CookieAttributeName::HttpOnly(s) => s@,
            CookieAttributeName::SameSite(s) => s@,
        }
    }

    /// The name as the document spelled it.
    pub fn value(&self) -> (s: String)
        ensures
            s@ == self.spelling(),
    {
        match self {
            CookieAttributeName::Value(s) => s.clone(),
            CookieAttributeName::Expires(s) => s.clone(),
            CookieAttributeName::MaxAge(s) => s.clone(),
            CookieAttributeName::Domain(s) => s.clone(),
            CookieAttributeName::Path(s) => s.clone(),
            CookieAttributeName::Secure(s) => s.clone(),
            CookieAttributeName::HttpOnly(s) => s.clone(),
            CookieAttributeName::SameSite(s) => s.clone(),
        }
    }
}

/// A cookie attribute inside the brackets of a cookie path.
#[derive(Clone, Debug, PartialEq, Eq)]
pub struct CookieAttribute {
    pub space0: Whitespace,
    pub name: CookieAttributeName,
    pub space1: Whitespace,
}

impl CookieAttribute {
    pub open spec fn source(&self) -> Seq<char> {
        self.space0.source() + self.name.spelling() + self.space1.source()
    }
}

/// The bracketed attribute of a cookie path: nothing where there is none.
pub open spec fn bracketed_attribute_source(attribute: Option<CookieAttribute>) -> Seq<char> {
    match attribute {
        Some(a) => seq!['['] + a.source() + seq![']'],
        None => Seq::empty(),
    }
}

/// A cookie's name, optionally followed by one of its attributes in brackets.
#[derive(Clone, Debug, PartialEq, Eq)]
pub struct CookiePath {
    pub name: Template,
    pub attribute: Option<CookieAttribute>,
}

impl CookiePath {
    /// The path as a quoted string: `"name"` or `"name[attribute]"`.
    pub open spec fn source(&self) -> Seq<char> {
        seq!['"'] + self.name.source() + bracketed_attribute_source(self.attribute) + seq!['"']
    }
}

/// A field of a certificate.
#[derive(Clone, Copy, Debug, PartialEq, Eq)]
pub enum CertificateAttributeName {
    Subject,
    Issuer,
    StartDate,
    ExpireDate,
    SerialNumber,
}

impl CertificateAttributeName {
    pub open spec fn name(&self) -> Seq<char> {
        match self {
            CertificateAttributeName::Subject => "Subject"@,
            CertificateAttributeName::Issuer => "Issuer"@,
            CertificateAttributeName::StartDate => "Start-Date"@,
            CertificateAttributeName::ExpireDate => "Expire-Date"@,
            CertificateAttributeName::SerialNumber => "Serial-Number"@,
        }
    }

    /// The field as a quoted string.
    pub open spec fn source(&self) -> Seq<char> {
        seq!['"'] + self.name() + seq!['"']
    }

    /// The name that a document gives this field.
    pub fn identifier(&self) -> (s: &'static str)
        ensures
            s@ == self.name(),
    {
        match self {
            CertificateAttributeName::Subject => "Subject",
            CertificateAttributeName::Issuer => "Issuer",
            CertificateAttributeName::StartDate => "Start-Date",
            CertificateAttributeName::ExpireDate => "Expire-Date",
            CertificateAttributeName::SerialNumber => "Serial-Number",
        }
    }
}

/// The kinds of query, each with what it takes.
#[derive(Clone, Debug, PartialEq, Eq)]
pub enum QueryValue {
    Status,
    Version,
    Url,
    Header { space0: Whitespace, name: Template },
    Cookie { space0: Whitespace, expr: CookiePath },
    Body,
    Xpath { space0: Whitespace, expr: Template },
    Jsonpath { space0: Whitespace, expr: Template },
    Regex { space0: Whitespace, value: RegexValue },
    Variable { space0: Whitespace, name: Template },
    Duration,
    Bytes,
    Sha256,
    Md5,
    Certificate { space0: Whitespace, attribute_name: CertificateAttributeName },
    Ip,
    Redirects,
}

impl QueryValue {
    /// The keyword of this kind of query.
    pub open spec fn name(&self) -> Seq<char> {
        match self {
            QueryValue::Status => "status"@,
            QueryValue::Version => "version"@,
            QueryValue::Url => "url"@,
            QueryValue::Header { .. } => "header"@,
            QueryValue::Cookie { .. } => "cookie"@,
            QueryValue::Body => "body"@,
            QueryValue::Xpath { .. } => "xpath"@,
            QueryValue::Jsonpath { .. } => "jsonpath"@,
            QueryValue::Regex { .. } => "regex"@,
            QueryValue::Variable { .. } => "variable"@,
            QueryValue::Duration => "duration"@,
            QueryValue::Bytes => "bytes"@,
            QueryValue::Sha256 => "sha256"@,
            QueryValue::Md5 => "md5"@,
            QueryValue::Certificate { .. } => "certificate"@,
            QueryValue::Ip => "ip"@,
            QueryValue::Redirects => "redirects"@,
        }
    }

    /// What follows the keyword.
    pub open spec fn argument_source(&self) -> Seq<char> {
        match self {
            QueryValue::Header { space0, name } => space0.source() + name.source(),
            QueryValue::Cookie { space0, expr } => space0.source() + expr.source(),
            QueryValue::Xpath { space0, expr } => space0.source() + expr.source(),
            QueryValue::Jsonpath { space0, expr } => space0.source() + expr.source(),
            QueryValue::Regex { space0, value } => space0.source() + value.source(),
            QueryValue::Variable { space0, name } => space0.source() + name.source(),
            QueryValue::Certificate { space0, attribute_name } => space0.source()
                + attribute_name.source(),
            _ => Seq::empty(),
        }
    }

    pub open spec fn source(&self) -> Seq<char> {
        self.name() + self.argument_source()
    }

    /// The keyword of this kind of query.
    pub fn identifier(&self) -> (s: &'static str)
        ensures
            s@ == self.name(),
    {
        match self {
            QueryValue::Status => "status",
            QueryValue::Version => "version",
            QueryValue::Url => "url",
            QueryValue::Header { .. } => "header",
            QueryValue::Cookie { .. } => "cookie",
            QueryValue::Body => "body",
            QueryValue::Xpath { .. } => "xpath",
            QueryValue::Jsonpath { .. } => "jsonpath",
            QueryValue::Regex { .. } => "regex",
            QueryValue::Variable { .. } => "variable",
            QueryValue::Duration => "duration",
            QueryValue::Bytes => "bytes",
            QueryValue::Sha256 => "sha256",
            QueryValue::Md5 => "md5",
            QueryValue::Certificate { .. } => "certificate",
            QueryValue::Ip => "ip",
            QueryValue::Redirects => "redirects",
        }
    }
}

/// A query, with the place it was read from.
#[derive(Clone, Debug, PartialEq, Eq)]
pub struct Query {
    pub source_info: SourceInfo,
    pub value: QueryValue,
}

impl Query {
    pub open spec fn source(&self) -> Seq<char> {
        self.value.source()
    }
}

} // verus!
