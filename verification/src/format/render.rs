//! The HTML of each node of a document tree.
//!
//! Every node writes the characters it was read from, in the order in which
//! they stood in the document, and wraps each token in a span whose class
//! names the token's kind. Text that an author wrote freely (templates,
//! comments, bodies) is escaped; keywords and numbers are written as they are.

use vstd::prelude::*;
use vstd::string::*;
use crate::ast::file::{Body, Bytes, Entry, HurlFile, Method, Request, Response, Status, Version};
use crate::ast::filter::{Filter, FilterValue};
use crate::ast::json::JsonValue;
use crate::ast::multiline::MultilineString;
use crate::ast::option::{
    BooleanOption, CountOption, DurationOption, EntryOption, NaturalOption, OptionKind,
    VariableDefinition, VariableValue,
};
use crate::ast::predicate::{Predicate, PredicateFunc, PredicateFuncValue, PredicateValue};
use crate::ast::primitive::{Comment, LineTerminator, Whitespace};
use crate::ast::query::{
    CertificateAttributeName, CookieAttribute, CookiePath, Query, QueryValue, RegexValue,
};
use crate::ast::section::{
    Assert, Capture, Cookie, FilenameParam, FilenameValue, KeyValue, MultipartParam, Section,
    SectionValue,
};
use crate::ast::template::{Placeholder, Template};
use crate::ast::value::{Base64, Count, Duration, File, Hex, Regex};
use crate::format::spans::{pre, span};
use crate::markup::escape;
use crate::text::{bool_text, encode_angles, escape_spaces, joined};

verus! {

impl Whitespace {
    /// Blank space is written as it is.
    pub open spec fn html(&self) -> Seq<char> {
        self.value@
    }
}

impl Comment {
    /// A comment is escaped and written, `#` included, in a `comment` span.
    pub open spec fn html(&self) -> Seq<char> {
        span("comment"@, seq!['#'] + escape(self.value@))
    }
}

/// The HTML of an optional comment: nothing where there is none.
pub open spec fn comment_html(comment: Option<Comment>) -> Seq<char> {
    match comment {
        Some(c) => c.html(),
        None => Seq::empty(),
    }
}

impl LineTerminator {
    #[verifier::opaque]
    pub open spec fn html(&self) -> Seq<char> {
        self.space0.html() + comment_html(self.comment) + self.newline.html()
    }
}

/// The HTML of a run of line ends.
pub open spec fn line_terminators_html(lts: Seq<LineTerminator>) -> Seq<char> {
    joined(lts, |lt: LineTerminator| lt.html())
}

/// A number, given as the document spells it, in a `number` span.
pub open spec fn number_html(spelling: Seq<char>) -> Seq<char> {
    span("number"@, spelling)
}

/// A boolean in a `boolean` span.
pub open spec fn bool_html(value: bool) -> Seq<char> {
    span("boolean"@, bool_text(value))
}

/// The word `null` in a `null` span.
pub open spec fn null_html() -> Seq<char> {
    span("null"@, "null"@)
}

/// Text in a `string` span, written as it is.
pub open spec fn string_html(text: Seq<char>) -> Seq<char> {
    span("string"@, text)
}

/// XML, escaped, in an `xml` span.
pub open spec fn xml_html(xml: Seq<char>) -> Seq<char> {
    span("xml"@, escape(xml))
}

/// The name of a file in a `filename` span: the name as it reads, a backslash
/// before each of its spaces. It is not escaped for HTML.
pub open spec fn filename_html(filename: Template) -> Seq<char> {
    span("filename"@, escape_spaces(filename.display()))
}

impl Template {
    /// A template is escaped and written, delimiters included, in a `string`
    /// span.
    pub open spec fn html(&self) -> Seq<char> {
        string_html(escape(self.source()))
    }
}

/// The HTML of an optional template: nothing where there is none.
pub open spec fn optional_template_html(template: Option<Template>) -> Seq<char> {
    match template {
        Some(t) => t.html(),
        None => Seq::empty(),
    }
}

impl Placeholder {
    /// A placeholder is written as it is in an `expr` span.
    pub open spec fn html(&self) -> Seq<char> {
        span("expr"@, self.source())
    }
}

impl Regex {
    /// A regular expression literal is written as it is in a `regex` span.
    pub open spec fn html(&self) -> Seq<char> {
        span("regex"@, self.source())
    }
}

impl RegexValue {
    pub open spec fn html(&self) -> Seq<char> {
        match self {
            RegexValue::Template(t) => t.html(),
            RegexValue::Regex(r) => r.html(),
        }
    }
}

impl MultilineString {
    /// A multiline string is escaped and written whole, backticks included,
    /// in a `multiline` span.
    pub open spec fn html(&self) -> Seq<char> {
        span("multiline"@, escape(self.source()))
    }
}

impl JsonValue {
    /// A JSON value is escaped and written whole in a `json` span.
    pub open spec fn html(&self) -> Seq<char> {
        span("json"@, escape(self.source()))
    }
}

impl Base64 {
    #[verifier::opaque]
    pub open spec fn html(&self) -> Seq<char> {
        "base64,"@ + self.space0.html() + span("base64"@, self.source@) + self.space1.html()
            + seq![';']
    }
}

impl Hex {
    #[verifier::opaque]
    pub open spec fn html(&self) -> Seq<char> {
        "hex,"@ + self.space0.html() + span("hex"@, self.source@) + self.space1.html() + seq![';']
    }
}

impl File {
    #[verifier::opaque]
    pub open spec fn html(&self) -> Seq<char> {
        "file,"@ + self.space0.html() + filename_html(self.filename) + self.space1.html()
            + seq![';']
    }
}

impl Count {
    /// A count is written as a number; one without end as `-1`.
    pub open spec fn html(&self) -> Seq<char> {
        number_html(self.source())
    }
}

/// The HTML of an optional unit: a `unit` span, or nothing.
pub open spec fn unit_html(unit: Option<crate::ast::value::DurationUnit>) -> Seq<char> {
    match unit {
        Some(u) => span("unit"@, u.name()),
        None => Seq::empty(),
    }
}

impl Duration {
    #[verifier::opaque]
    pub open spec fn html(&self) -> Seq<char> {
        number_html(self.value.source()) + unit_html(self.unit)
    }
}

impl BooleanOption {
    pub open spec fn html(&self) -> Seq<char> {
        match self {
            BooleanOption::Literal(v) => bool_html(*v),
            BooleanOption::Placeholder(p) => p.html(),
        }
    }
}

impl NaturalOption {
    pub open spec fn html(&self) -> Seq<char> {
        match self {
            NaturalOption::Literal(v) => number_html(v.source()),
            NaturalOption::Placeholder(p) => p.html(),
        }
    }
}

impl CountOption {
    pub open spec fn html(&self) -> Seq<char> {
        match self {
            CountOption::Literal(v) => v.html(),
            CountOption::Placeholder(p) => p.html(),
        }
    }
}

impl DurationOption {
    pub open spec fn html(&self) -> Seq<char> {
        match self {
            DurationOption::Literal(v) => v.html(),
            DurationOption::Placeholder(p) => p.html(),
        }
    }
}

impl VariableValue {
    pub open spec fn html(&self) -> Seq<char> {
        match self {
            VariableValue::Null => null_html(),
            VariableValue::Bool(v) => bool_html(*v),
            VariableValue::Number(v) => number_html(v.source()),
            VariableValue::String(v) => v.html(),
        }
    }
}

impl VariableDefinition {
    /// The variable's name is written as it is, outside any span.
    #[verifier::opaque]
    pub open spec fn html(&self) -> Seq<char> {
        self.name@ + self.space0.html() + seq!['='] + self.space1.html() + self.value.html()
    }
}

impl OptionKind {
    /// The name of the setting in a `string` span.
    pub open spec fn label_html(&self) -> Seq<char> {
        string_html(self.name())
    }

    /// The HTML of the setting's value: by the kind of value, whatever the
    /// setting.
    pub open spec fn value_html(&self) -> Seq<char> {
        match self {
            OptionKind::AwsSigV4(v) => v.html(),
            OptionKind::CaCertificate(v) => filename_html(*v),
            OptionKind::ClientCert(v) => filename_html(*v),
            OptionKind::ClientKey(v) => filename_html(*v),
            OptionKind::Compressed(v) => v.html(),
            OptionKind::ConnectTo(v) => v.html(),
            OptionKind::ConnectTimeout(v) => v.html(),
            OptionKind::Delay(v) => v.html(),
            OptionKind::FollowLocation(v) => v.html(),
            OptionKind::FollowLocationTrusted(v) => v.html(),
            OptionKind::Header(v) => v.html(),
            OptionKind::Http10(v) => v.html(),
            OptionKind::Http11(v) => v.html(),
            OptionKind::Http2(v) => v.html(),
            OptionKind::Http3(v) => v.html(),
            OptionKind::Insecure(v) => v.html(),
            OptionKind::IpV4(v) => v.html(),
            OptionKind::IpV6(v) => v.html(),
            OptionKind::LimitRate(v) => v.html(),
            OptionKind::MaxRedirect(v) => v.html(),
            OptionKind::MaxTime(v) => v.html(),
            OptionKind::NetRc(v) => v.html(),
            OptionKind::NetRcFile(v) => filename_html(*v),
            OptionKind::NetRcOptional(v) => v.html(),
            OptionKind::Output(v) => filename_html(*v),
            OptionKind::PathAsIs(v) => v.html(),
            OptionKind::PinnedPublicKey(v) => v.html(),
            OptionKind::Proxy(v) => v.html(),
            OptionKind::Repeat(v) => v.html(),
            OptionKind::Resolve(v) => v.html(),
            OptionKind::Retry(v) => v.html(),
            OptionKind::RetryInterval(v) => v.html(),
            OptionKind::Skip(v) => v.html(),
            OptionKind::UnixSocket(v) => filename_html(*v),
            OptionKind::User(v) => v.html(),
            OptionKind::Variable(v) => v.html(),
            OptionKind::Verbose(v) => v.html(),
            OptionKind::VeryVerbose(v) => v.html(),
        }
    }
}

impl EntryOption {
    #[verifier::opaque]
    pub open spec fn html(&self) -> Seq<char> {
        line_terminators_html(self.line_terminators@) + self.space0.html()
            + self.kind.label_html() + self.space1.html() + seq![':'] + self.space2.html()
            + self.kind.value_html() + self.line_terminator0.html()
    }
}

impl KeyValue {
    #[verifier::opaque]
    pub open spec fn html(&self) -> Seq<char> {
        line_terminators_html(self.line_terminators@) + self.space0.html() + self.key.html()
            + self.space1.html() + seq![':'] + self.space2.html() + self.value.html()
            + self.line_terminator0.html()
    }
}

/// The HTML of an optional line `key: value`: nothing where there is none.
pub open spec fn optional_key_value_html(kv: Option<KeyValue>) -> Seq<char> {
    match kv {
        Some(kv) => kv.html(),
        None => Seq::empty(),
    }
}

impl Cookie {
    #[verifier::opaque]
    pub open spec fn html(&self) -> Seq<char> {
        line_terminators_html(self.line_terminators@) + self.space0.html() + self.name.html()
            + self.space1.html() + seq![':'] + self.space2.html() + self.value.html()
            + self.line_terminator0.html()
    }
}

impl FilenameValue {
    #[verifier::opaque]
    pub open spec fn html(&self) -> Seq<char> {
        "file,"@ + self.space0.html() + filename_html(self.filename) + self.space1.html()
            + seq![';'] + self.space2.html() + optional_template_html(self.content_type)
    }
}

impl FilenameParam {
    #[verifier::opaque]
    pub open spec fn html(&self) -> Seq<char> {
        line_terminators_html(self.line_terminators@) + self.space0.html() + self.key.html()
            + self.space1.html() + seq![':'] + self.space2.html() + self.value.html()
            + self.line_terminator0.html()
    }
}

impl MultipartParam {
    pub open spec fn html(&self) -> Seq<char> {
        match self {
            MultipartParam::Param(p) => p.html(),
            MultipartParam::FilenameParam(p) => p.html(),
        }
    }
}

impl CookieAttribute {
    /// A cookie attribute is written as it is, with the space around it.
    #[verifier::opaque]
    pub open spec fn html(&self) -> Seq<char> {
        self.space0.html() + self.name.spelling() + self.space1.html()
    }
}

/// The HTML of the bracketed attribute of a cookie path: nothing where there
/// is none.
pub open spec fn bracketed_attribute_html(attribute: Option<CookieAttribute>) -> Seq<char> {
    match attribute {
        Some(a) => seq!['['] + a.html() + seq![']'],
        None => Seq::empty(),
    }
}

impl CookiePath {
    /// A cookie path is written as one quoted string, `"name"` or
    /// `"name[attribute]"`, in a `string` span. The name is not escaped.
    pub open spec fn html(&self) -> Seq<char> {
        string_html(
            seq!['"'] + self.name.source() + bracketed_attribute_html(self.attribute) + seq!['"'],
        )
    }
}

impl CertificateAttributeName {
    /// A certificate field is written as a quoted string in a `string` span.
    pub open spec fn html(&self) -> Seq<char> {
        string_html(seq!['"'] + self.name() + seq!['"'])
    }
}

impl QueryValue {
    /// The keyword of the query in a `query-type` span.
    pub open spec fn label_html(&self) -> Seq<char> {
        span("query-type"@, self.name())
    }

    /// The HTML of what follows the keyword.
    pub open spec fn argument_html(&self) -> Seq<char> {
        match self {
            QueryValue::Header { space0, name } => space0.html() + name.html(),
            QueryValue::Cookie { space0, expr } => space0.html() + expr.html(),
            QueryValue::Xpath { space0, expr } => space0.html() + expr.html(),
            QueryValue::Jsonpath { space0, expr } => space0.html() + expr.html(),
            QueryValue::Regex { space0, value } => space0.html() + value.html(),
            QueryValue::Variable { space0, name } => space0.html() + name.html(),
            QueryValue::Certificate { space0, attribute_name } => space0.html()
                + attribute_name.html(),
            _ => Seq::empty(),
        }
    }

    #[verifier::opaque]
    pub open spec fn html(&self) -> Seq<char> {
        self.label_html() + self.argument_html()
    }
}

impl Query {
    pub open spec fn html(&self) -> Seq<char> {
        self.value.html()
    }
}

impl FilterValue {
    /// The keyword of the filter in a `filter-type` span.
    pub open spec fn label_html(&self) -> Seq<char> {
        span("filter-type"@, self.name())
    }

    /// The HTML of what follows the keyword.
    pub open spec fn argument_html(&self) -> Seq<char> {
        match self {
            FilterValue::Decode { space0, encoding } => space0.html() + encoding.html(),
            FilterValue::Format { space0, fmt } => space0.html() + fmt.html(),
            FilterValue::JsonPath { space0, expr } => space0.html() + expr.html(),
            FilterValue::Nth { space0, n } => space0.html() + number_html(n.source()),
            FilterValue::Regex { space0, value } => space0.html() + value.html(),
            FilterValue::Replace { space0, old_value, space1, new_value } => space0.html()
                + old_value.html() + space1.html() + new_value.html(),
            FilterValue::ReplaceRegex { space0, pattern, space1, new_value } => space0.html()
                + pattern.html() + space1.html() + new_value.html(),
            FilterValue::Split { space0, sep } => space0.html() + sep.html(),
            FilterValue::ToDate { space0, fmt } => space0.html() + fmt.html(),
            FilterValue::UrlQueryParam { space0, param } => space0.html() + param.html(),
            FilterValue::XPath { space0, expr } => space0.html() + expr.html(),
            _ => Seq::empty(),
        }
    }

    #[verifier::opaque]
    pub open spec fn html(&self) -> Seq<char> {
        self.label_html() + self.argument_html()
    }
}

impl Filter {
    pub open spec fn html(&self) -> Seq<char> {
        self.value.html()
    }
}

/// The HTML of a chain of filters, each after the space that precedes it.
pub open spec fn filters_html(filters: Seq<(Whitespace, Filter)>) -> Seq<char> {
    joined(filters, |pair: (Whitespace, Filter)| pair.0.html() + pair.1.html())
}

impl PredicateValue {
    pub open spec fn html(&self) -> Seq<char> {
        match self {
            PredicateValue::Base64(v) => v.html(),
            PredicateValue::Bool(v) => bool_html(*v),
            PredicateValue::File(v) => v.html(),
            PredicateValue::Hex(v) => v.html(),
            PredicateValue::MultilineString(v) => v.html(),
            PredicateValue::Null => null_html(),
            PredicateValue::Number(v) => number_html(v.source()),
            PredicateValue::Placeholder(v) => v.html(),
            PredicateValue::Regex(v) => v.html(),
            PredicateValue::String(v) => v.html(),
        }
    }
}

impl PredicateFuncValue {
    /// The operator or keyword of the predicate, its angle brackets encoded,
    /// in a `predicate-type` span.
    pub open spec fn label_html(&self) -> Seq<char> {
        span("predicate-type"@, encode_angles(self.name()))
    }

    /// The HTML of what follows the operator or keyword.
    pub open spec fn argument_html(&self) -> Seq<char> {
        match self {
            PredicateFuncValue::Equal { space0, value } => space0.html() + value.html(),
            PredicateFuncValue::NotEqual { space0, value } => space0.html() + value.html(),
            PredicateFuncValue::GreaterThan { space0, value } => space0.html() + value.html(),
            PredicateFuncValue::GreaterThanOrEqual { space0, value } => space0.html()
                + value.html(),
            PredicateFuncValue::LessThan { space0, value } => space0.html() + value.html(),
            PredicateFuncValue::LessThanOrEqual { space0, value } => space0.html() + value.html(),
            PredicateFuncValue::StartWith { space0, value } => space0.html() + value.html(),
            PredicateFuncValue::EndWith { space0, value } => space0.html() + value.html(),
            PredicateFuncValue::Contain { space0, value } => space0.html() + value.html(),
            PredicateFuncValue::Include { space0, value } => space0.html() + value.html(),
            PredicateFuncValue::Match { space0, value } => space0.html() + value.html(),
            _ => Seq::empty(),
        }
    }

    #[verifier::opaque]
    pub open spec fn html(&self) -> Seq<char> {
        self.label_html() + self.argument_html()
    }
}

impl PredicateFunc {
    pub open spec fn html(&self) -> Seq<char> {
        self.value.html()
    }
}

impl Predicate {
    /// The word `not` in a `not` span and the space after it, where the
    /// predicate is negated.
    pub open spec fn negation_html(&self) -> Seq<char> {
        if self.not {
            span("not"@, "not"@) + self.space0.html()
        } else {
            Seq::empty()
        }
    }

    #[verifier::opaque]
    pub open spec fn html(&self) -> Seq<char> {
        self.negation_html() + self.predicate_func.html()
    }
}

impl Capture {
    /// The word `redact`, written as it is and outside any span, where the
    /// capture is marked with it.
    pub open spec fn redact_html(&self) -> Seq<char> {
        if self.redact {
            "redact"@
        } else {
            Seq::empty()
        }
    }

    #[verifier::opaque]
    pub open spec fn html(&self) -> Seq<char> {
        line_terminators_html(self.line_terminators@) + self.space0.html() + self.name.html()
            + self.space1.html() + seq![':'] + self.space2.html() + self.query.html()
            + filters_html(self.filters@) + self.space3.html() + self.redact_html()
            + self.line_terminator0.html()
    }
}

impl Assert {
    #[verifier::opaque]
    pub open spec fn html(&self) -> Seq<char> {
        line_terminators_html(self.line_terminators@) + self.space0.html() + self.query.html()
            + filters_html(self.filters@) + self.space1.html() + self.predicate.html()
            + self.line_terminator0.html()
    }
}

impl SectionValue {
    /// The HTML of the lines of the section.
    pub open spec fn html(&self) -> Seq<char> {
        match self {
            SectionValue::Asserts(items) => joined(items@, |item: Assert| item.html()),
            SectionValue::QueryParams(items, _) => joined(items@, |item: KeyValue| item.html()),
            SectionValue::BasicAuth(item) => optional_key_value_html(*item),
            SectionValue::FormParams(items, _) => joined(items@, |item: KeyValue| item.html()),
            SectionValue::MultipartFormData(items, _) => joined(
                items@,
                |item: MultipartParam| item.html(),
            ),
            SectionValue::Cookies(items) => joined(items@, |item: Cookie| item.html()),
            SectionValue::Captures(items) => joined(items@, |item: Capture| item.html()),
            SectionValue::Options(items) => joined(items@, |item: EntryOption| item.html()),
        }
    }
}

impl Section {
    /// The name of the section between its brackets, in a `section-header`
    /// span.
    pub open spec fn label_html(&self) -> Seq<char> {
        span("section-header"@, self.header())
    }

    #[verifier::opaque]
    pub open spec fn html(&self) -> Seq<char> {
        line_terminators_html(self.line_terminators@) + self.space0.html() + self.label_html()
            + self.line_terminator0.html() + self.value.html()
    }
}

impl Bytes {
    pub open spec fn html(&self) -> Seq<char> {
        match self {
            Bytes::Json(v) => v.html(),
            Bytes::Xml(v) => xml_html(v@),
            Bytes::MultilineString(v) => v.html(),
            Bytes::OnelineString(v) => v.html(),
            Bytes::Base64(v) => v.html(),
            Bytes::File(v) => v.html(),
            Bytes::Hex(v) => v.html(),
        }
    }
}

impl Body {
    #[verifier::opaque]
    pub open spec fn html(&self) -> Seq<char> {
        line_terminators_html(self.line_terminators@) + self.space0.html() + self.value.html()
            + self.line_terminator0.html()
    }
}

/// The HTML of an optional body: nothing where there is none.
pub open spec fn optional_body_html(body: Option<Body>) -> Seq<char> {
    match body {
        Some(b) => b.html(),
        None => Seq::empty(),
    }
}

impl Method {
    /// The method is written as it is in a `method` span.
    pub open spec fn html(&self) -> Seq<char> {
        span("method"@, self.source())
    }
}

impl Version {
    pub open spec fn html(&self) -> Seq<char> {
        span("version"@, self.source())
    }
}

impl Status {
    pub open spec fn html(&self) -> Seq<char> {
        number_html(self.source())
    }
}

impl Request {
    /// What stands inside the `request` span. The URL is escaped and written
    /// in a `url` span.
    #[verifier::opaque]
    pub open spec fn inner_html(&self) -> Seq<char> {
        line_terminators_html(self.line_terminators@) + self.space0.html() + self.method.html()
            + self.space1.html() + span("url"@, escape(self.url.source()))
            + self.line_terminator0.html() + joined(self.headers@, |h: KeyValue| h.html())
            + joined(self.sections@, |s: Section| s.html()) + optional_body_html(self.body)
    }

    #[verifier::opaque]
    pub open spec fn html(&self) -> Seq<char> {
        span("request"@, self.inner_html())
    }
}

impl Response {
    /// What stands inside the `response` span.
    #[verifier::opaque]
    pub open spec fn inner_html(&self) -> Seq<char> {
        line_terminators_html(self.line_terminators@) + self.space0.html() + self.version.html()
            + self.space1.html() + self.status.html() + self.line_terminator0.html() + joined(
            self.headers@,
            |h: KeyValue| h.html(),
        ) + joined(self.sections@, |s: Section| s.html()) + optional_body_html(self.body)
    }

    #[verifier::opaque]
    pub open spec fn html(&self) -> Seq<char> {
        span("response"@, self.inner_html())
    }
}

/// The HTML of an optional response: nothing where there is none.
pub open spec fn optional_response_html(response: Option<Response>) -> Seq<char> {
    match response {
        Some(r) => r.html(),
        None => Seq::empty(),
    }
}

impl Entry {
    #[verifier::opaque]
    pub open spec fn html(&self) -> Seq<char> {
        span("entry"@, self.request.html() + optional_response_html(self.response))
    }
}

impl HurlFile {
    /// What stands inside the block of code: the entries, then the line ends
    /// that follow the last of them.
    #[verifier::opaque]
    pub open spec fn inner_html(&self) -> Seq<char> {
        joined(self.entries@, |e: Entry| e.html()) + line_terminators_html(self.line_terminators@)
    }

    /// The file as a block of code of the class `language-hurl`.
    #[verifier::opaque]
    pub open spec fn html(&self) -> Seq<char> {
        pre("language-hurl"@, self.inner_html())
    }
}

} // verus!
