//! The HTML formatter.

use vstd::prelude::*;
use vstd::string::*;
use crate::ast::file::{
    Body, Bytes, Entry, HurlFile, Method, Request, Response, Status, StatusValue, Version,
};
use crate::ast::filter::{Filter, FilterValue};
use crate::ast::json::JsonValue;
use crate::ast::multiline::MultilineString;
use crate::ast::option::{
    BooleanOption, CountOption, DurationOption, EntryOption, NaturalOption, OptionKind,
    VariableDefinition, VariableValue,
};
use crate::ast::predicate::{Predicate, PredicateFunc, PredicateFuncValue, PredicateValue};
use crate::ast::primitive::{Comment, LineTerminator, Whitespace};
use crate::ast::query::{
    CertificateAttributeName, CookieAttribute, CookiePath, Query, QueryValue, RegexValue,
};
use crate::ast::section::{
    Assert, Capture, Cookie, FilenameParam, FilenameValue, KeyValue, MultipartParam, Section,
    SectionValue,
};
use crate::ast::template::{Placeholder, Template};
use crate::ast::value::{Base64, Count, Duration, File, Hex, Regex};
use crate::format::render::{
    bool_html, filename_html, filters_html, line_terminators_html, number_html, string_html,
    xml_html,
};
use crate::format::style::{page, HURL_CSS, PAGE_FOOT, PAGE_HEAD, PAGE_MIDDLE};
use crate::format::spans::{pre, pre_close, pre_open, span, span_close, span_open};
use crate::markup::{amp_entity, contains, doubled_amp_entity, strip_markup};
use crate::text::{
    backslash_spaces, bool_str, decimal_string, encode_html, escape_xml, joined, group_concat,
    lemma_joined_step, push_char,
};

verus! {

broadcast use group_concat;

/// An HTML formatter for Hurl content. Each `fmt_` method appends the HTML of
/// one node to `buffer` and leaves what was there before untouched.
pub struct HtmlFormatter {
    pub buffer: String,
}

impl HtmlFormatter {
    /// A formatter with an empty buffer.
    pub fn new() -> (fmt: HtmlFormatter)
        ensures
            fmt.buffer@ == Seq::<char>::empty(),
    {
        HtmlFormatter { buffer: String::new() }
    }

    /// Appends the one character `c`.
    fn push(&mut self, c: char)
        ensures
            final(self).buffer@ == old(self).buffer@ + seq![c],
    {
        push_char(&mut self.buffer, c);
        proof {
            assert(self.buffer@ =~= old(self).buffer@ + seq![c]);
        }
    }

    pub fn fmt_pre_open(&mut self, class: &str)
        ensures
            final(self).buffer@ == old(self).buffer@ + pre_open(class@),
    {
        self.buffer.append("<pre><code class=\"");
        self.buffer.append(class);
        self.buffer.append("\">");
        proof {
            assert(self.buffer@ == old(self).buffer@ + pre_open(class@));
        }
    }

    pub fn fmt_pre_close(&mut self)
        ensures
            final(self).buffer@ == old(self).buffer@ + pre_close(),
    {
        self.buffer.append("</code></pre>");
    }

    pub fn fmt_span_open(&mut self, class: &str)
        ensures
            final(self).buffer@ == old(self).buffer@ + span_open(class@),
    {
        self.buffer.append("<span class=\"");
        self.buffer.append(class);
        self.buffer.append("\">");
        proof {
            assert(self.buffer@ == old(self).buffer@ + span_open(class@));
        }
    }

    pub fn fmt_span_close(&mut self)
        ensures
            final(self).buffer@ == old(self).buffer@ + span_close(),
    {
        self.buffer.append("</span>");
    }

    /// Appends `value`, as it is, inside a span of the class `class`.
    pub fn fmt_span(&mut self, class: &str, value: &str)
        ensures
            final(self).buffer@ == old(self).buffer@ + span(class@, value@),
    {
        proof {
            reveal(span);
        }
        self.buffer.append("<span class=\"");
        self.buffer.append(class);
        self.buffer.append("\">");
        self.buffer.append(value);
        self.buffer.append("</span>");
        proof {
            assert(self.buffer@ == old(self).buffer@ + span(class@, value@));
        }
    }

    pub fn fmt_string(&mut self, value: &str)
        ensures
            final(self).buffer@ == old(self).buffer@ + string_html(value@),
    {
        self.fmt_span("string", value);
    }

    pub fn fmt_bool(&mut self, value: bool)
        ensures
            final(self).buffer@ == old(self).buffer@ + bool_html(value),
    {
        self.fmt_span("boolean", bool_str(value));
    }

    /// Appends a number, given as the document spells it.
    pub fn fmt_number(&mut self, value: &str)
        ensures
            final(self).buffer@ == old(self).buffer@ + number_html(value@),
    {
        self.fmt_span("number", value);
    }

    pub fn fmt_xml(&mut self, value: &str)
        ensures
            final(self).buffer@ == old(self).buffer@ + xml_html(value@),
    {
        let value = escape_xml(value);
        self.fmt_span("xml", value.as_str());
    }

    pub fn fmt_json_value(&mut self, json_value: &JsonValue)
        ensures
            final(self).buffer@ == old(self).buffer@ + json_value.html(),
    {
        let json = json_value.to_source();
        let json = escape_xml(json.as_str());
        self.fmt_span("json", json.as_str());
    }

    pub fn fmt_multiline_string(&mut self, multiline_string: &MultilineString)
        ensures
            final(self).buffer@ == old(self).buffer@ + multiline_string.html(),
    {
        let body = multiline_string.to_source();
        let body = escape_xml(body.as_str());
        self.fmt_span("multiline", body.as_str());
    }

    /// Appends blank space as it is; nothing where it is empty.
    pub fn fmt_space(&mut self, space: &Whitespace)
        ensures
            final(self).buffer@ == old(self).buffer@ + space.html(),
    {
        if !space.value.as_str().is_empty() {
            self.buffer.append(space.value.as_str());
        } else {
            proof {
                assert(self.buffer@ == old(self).buffer@ + space.html());
            }
        }
    }

    pub fn fmt_comment(&mut self, comment: &Comment)
        ensures
            final(self).buffer@ == old(self).buffer@ + comment.html(),
    {
        let escaped = escape_xml(comment.value.as_str());
        let mut text = String::new();
        push_char(&mut text, '#');
        text.append(escaped.as_str());
        proof {
            assert(text@ =~= seq!['#'] + crate::markup::escape(comment.value@));
        }
        self.fmt_span("comment", text.as_str());
    }

    /// Appends the end of a line: space, comment, line break.
    pub fn fmt_lt(&mut self, lt: &LineTerminator)
        ensures
            final(self).buffer@ == old(self).buffer@ + lt.html(),
    {
        proof {
            reveal(LineTerminator::html);
        }
        self.fmt_space(&lt.space0);
        if let Some(v) = &lt.comment {
            self.fmt_comment(v);
        }
        self.buffer.append(lt.newline.as_str());
        proof {
            assert(self.buffer@ == old(self).buffer@ + lt.html());
        }
    }

    /// Appends a run of line ends. An empty line break is skipped, which
    /// changes nothing in what is written.
    pub fn fmt_lts(&mut self, line_terminators: &Vec<LineTerminator>)
        ensures
            final(self).buffer@ == old(self).buffer@ + line_terminators_html(line_terminators@),
    {
        proof {
            reveal(LineTerminator::html);
        }
        let ghost f = |lt: LineTerminator| lt.html();
        let mut i: usize = 0;
        proof {
            assert(self.buffer@ == old(self).buffer@ + joined(line_terminators@.take(0), f));
        }
        while i < line_terminators.len()
            invariant
                i <= line_terminators@.len(),
                f == (|lt: LineTerminator| lt.html()),
                self.buffer@ == old(self).buffer@ + joined(line_terminators@.take(i as int), f),
            decreases line_terminators@.len() - i,
        {
            let lt = &line_terminators[i];
            let ghost before = self.buffer@;
            self.fmt_space(&lt.space0);
            if let Some(v) = &lt.comment {
                self.fmt_comment(v);
            }
            if !lt.newline.value.as_str().is_empty() {
                self.buffer.append(lt.newline.as_str());
            }
            proof {
                reveal(LineTerminator::html);
                assert(self.buffer@ =~= before + lt.html());
                lemma_joined_step(line_terminators@, f, i as int);
                assert(self.buffer@ == old(self).buffer@ + joined(
                    line_terminators@.take(i + 1),
                    f,
                ));
            }
            i = i + 1;
        }
        proof {
            assert(line_terminators@.take(i as int) =~= line_terminators@);
        }
    }

    pub fn fmt_template(&mut self, template: &Template)
        ensures
            final(self).buffer@ == old(self).buffer@ + template.html(),
    {
        let s = template.to_source();
        let escaped = escape_xml(s.as_str());
        self.fmt_string(escaped.as_str());
    }

    pub fn fmt_placeholder(&mut self, placeholder: &Placeholder)
        ensures
            final(self).buffer@ == old(self).buffer@ + placeholder.html(),
    {
        let placeholder = placeholder.to_source();
        self.fmt_span("expr", placeholder.as_str());
    }

    pub fn fmt_regex(&mut self, regex: &Regex)
        ensures
            final(self).buffer@ == old(self).buffer@ + regex.html(),
    {
        let source = regex.to_source();
        self.fmt_span("regex", source.as_str());
    }

    pub fn fmt_regex_value(&mut self, regex_value: &RegexValue)
        ensures
            final(self).buffer@ == old(self).buffer@ + regex_value.html(),
    {
        match regex_value {
            RegexValue::Template(template) => self.fmt_template(template),
            RegexValue::Regex(regex) => self.fmt_regex(regex),
        }
    }

    /// Appends the name of a file, a backslash before each of its spaces.
    pub fn fmt_filename(&mut self, filename: &Template)
        ensures
            final(self).buffer@ == old(self).buffer@ + filename_html(*filename),
    {
        proof {
            reveal(span);
        }
        self.fmt_span_open("filename");
        let name = filename.to_display();
        let s = backslash_spaces(name.as_str());
        self.buffer.append(s.as_str());
        self.fmt_span_close();
        proof {
            assert(self.buffer@ == old(self).buffer@ + filename_html(*filename));
        }
    }

    pub fn fmt_file(&mut self, file: &File)
        ensures
            final(self).buffer@ == old(self).buffer@ + file.html(),
    {
        proof {
            reveal(File::html);
        }
        self.buffer.append("file,");
        self.fmt_space(&file.space0);
        self.fmt_filename(&file.filename);
        self.fmt_space(&file.space1);
        self.push(';');
        proof {
            assert(self.buffer@ == old(self).buffer@ + file.html());
        }
    }

    pub fn fmt_base64(&mut self, base64: &Base64)
        ensures
            final(self).buffer@ == old(self).buffer@ + base64.html(),
    {
        proof {
            reveal(Base64::html);
        }
        self.buffer.append("base64,");
        self.fmt_space(&base64.space0);
        self.fmt_span("base64", base64.source.as_str());
        self.fmt_space(&base64.space1);
        self.push(';');
        proof {
            assert(self.buffer@ == old(self).buffer@ + base64.html());
        }
    }

    pub fn fmt_hex(&mut self, hex: &Hex)
        ensures
            final(self).buffer@ == old(self).buffer@ + hex.html(),
    {
        proof {
            reveal(Hex::html);
        }
        self.buffer.append("hex,");
        self.fmt_space(&hex.space0);
        self.fmt_span("hex", hex.source.as_str());
        self.fmt_space(&hex.space1);
        self.push(';');
        proof {
            assert(self.buffer@ == old(self).buffer@ + hex.html());
        }
    }
}

impl HtmlFormatter {
    /// Appends a count as a number; one without end as `-1`.
    pub fn fmt_count(&mut self, count: Count)
        ensures
            final(self).buffer@ == old(self).buffer@ + count.html(),
    {
        match count {
            Count::Finite(n) => {
                let digits = decimal_string(n as u64);
                self.fmt_number(digits.as_str());
            },
            Count::Infinite => {
                proof {
                    reveal_strlit("-1");
                    assert("-1"@ =~= seq!['-', '1']);
                }
                self.fmt_number("-1");
            },
        }
    }

    pub fn fmt_count_option(&mut self, count_option: &CountOption)
        ensures
            final(self).buffer@ == old(self).buffer@ + count_option.html(),
    {
        match count_option {
            CountOption::Literal(repeat) => self.fmt_count(*repeat),
            CountOption::Placeholder(placeholder) => self.fmt_placeholder(placeholder),
        }
    }

    pub fn fmt_bool_option(&mut self, value: &BooleanOption)
        ensures
            final(self).buffer@ == old(self).buffer@ + value.html(),
    {
        match value {
            BooleanOption::Literal(value) => self.fmt_span("boolean", bool_str(*value)),
            BooleanOption::Placeholder(value) => self.fmt_placeholder(value),
        }
    }

    pub fn fmt_natural_option(&mut self, value: &NaturalOption)
        ensures
            final(self).buffer@ == old(self).buffer@ + value.html(),
    {
        match value {
            NaturalOption::Literal(value) => {
                let source = value.to_source();
                self.fmt_span("number", source.as_str());
            },
            NaturalOption::Placeholder(value) => self.fmt_placeholder(value),
        }
    }

    pub fn fmt_duration_option(&mut self, value: &DurationOption)
        ensures
            final(self).buffer@ == old(self).buffer@ + value.html(),
    {
        proof {
            reveal(Duration::html);
        }
        match value {
            DurationOption::Literal(literal) => {
                let source = literal.value.to_source();
                self.fmt_span("number", source.as_str());
                if let Some(unit) = literal.unit {
                    self.fmt_span("unit", unit.identifier());
                }
                proof {
                    assert(self.buffer@ == old(self).buffer@ + value.html());
                }
            },
            DurationOption::Placeholder(value) => self.fmt_placeholder(value),
        }
    }

    pub fn fmt_variable_value(&mut self, option: &VariableValue)
        ensures
            final(self).buffer@ == old(self).buffer@ + option.html(),
    {
        match option {
            VariableValue::Null => self.fmt_span("null", "null"),
            VariableValue::Bool(v) => self.fmt_bool(*v),
            VariableValue::Number(v) => {
                let source = v.to_source();
                self.fmt_number(source.as_str());
            },
            VariableValue::String(t) => self.fmt_template(t),
        }
    }

    pub fn fmt_variable_definition(&mut self, option: &VariableDefinition)
        ensures
            final(self).buffer@ == old(self).buffer@ + option.html(),
    {
        proof {
            reveal(VariableDefinition::html);
        }
        self.buffer.append(option.name.as_str());
        self.fmt_space(&option.space0);
        self.push('=');
        self.fmt_space(&option.space1);
        self.fmt_variable_value(&option.value);
        proof {
            assert(self.buffer@ == old(self).buffer@ + option.html());
        }
    }

    /// Appends the value of a setting, by the kind of value it has.
    fn fmt_option_value(&mut self, kind: &OptionKind)
        ensures
            final(self).buffer@ == old(self).buffer@ + kind.value_html(),
    {
        match kind {
            OptionKind::AwsSigV4(value) => self.fmt_template(value),
            OptionKind::CaCertificate(filename) => self.fmt_filename(filename),
            OptionKind::ClientCert(filename) => self.fmt_filename(filename),
            OptionKind::ClientKey(filename) => self.fmt_filename(filename),
            OptionKind::Compressed(value) => self.fmt_bool_option(value),
            OptionKind::ConnectTo(value) => self.fmt_template(value),
            OptionKind::ConnectTimeout(value) => self.fmt_duration_option(value),
            OptionKind::Delay(value) => self.fmt_duration_option(value),
            OptionKind::FollowLocation(value) => self.fmt_bool_option(value),
            OptionKind::FollowLocationTrusted(value) => self.fmt_bool_option(value),
            OptionKind::Header(value) => self.fmt_template(value),
            OptionKind::Http10(value) => self.fmt_bool_option(value),
            OptionKind::Http11(value) => self.fmt_bool_option(value),
            OptionKind::Http2(value) => self.fmt_bool_option(value),
            OptionKind::Http3(value) => self.fmt_bool_option(value),
            OptionKind::Insecure(value) => self.fmt_bool_option(value),
            OptionKind::IpV4(value) => self.fmt_bool_option(value),
            OptionKind::IpV6(value) => self.fmt_bool_option(value),
            OptionKind::LimitRate(value) => self.fmt_natural_option(value),
            OptionKind::MaxRedirect(value) => self.fmt_count_option(value),
            OptionKind::MaxTime(value) => self.fmt_duration_option(value),
            OptionKind::NetRc(value) => self.fmt_bool_option(value),
            OptionKind::NetRcFile(filename) => self.fmt_filename(filename),
            OptionKind::NetRcOptional(value) => self.fmt_bool_option(value),
            OptionKind::Output(filename) => self.fmt_filename(filename),
            OptionKind::PathAsIs(value) => self.fmt_bool_option(value),
            OptionKind::PinnedPublicKey(value) => self.fmt_template(value),
            OptionKind::Proxy(value) => self.fmt_template(value),
            OptionKind::Repeat(value) => self.fmt_count_option(value),
            OptionKind::Resolve(value) => self.fmt_template(value),
            OptionKind::Retry(value) => self.fmt_count_option(value),
            OptionKind::RetryInterval(value) => self.fmt_duration_option(value),
            OptionKind::Skip(value) => self.fmt_bool_option(value),
            OptionKind::UnixSocket(value) => self.fmt_filename(value),
            OptionKind::User(value) => self.fmt_template(value),
            OptionKind::Variable(value) => self.fmt_variable_definition(value),
            OptionKind::Verbose(value) => self.fmt_bool_option(value),
            OptionKind::VeryVerbose(value) => self.fmt_bool_option(value),
        }
    }

    pub fn fmt_entry_option(&mut self, option: &EntryOption)
        ensures
            final(self).buffer@ == old(self).buffer@ + option.html(),
    {
        proof {
            reveal(EntryOption::html);
        }
        self.fmt_lts(&option.line_terminators);
        self.fmt_space(&option.space0);
        self.fmt_string(option.kind.identifier());
        self.fmt_space(&option.space1);
        self.push(':');
        self.fmt_space(&option.space2);
        self.fmt_option_value(&option.kind);
        self.fmt_lt(&option.line_terminator0);
        proof {
            assert(self.buffer@ == old(self).buffer@ + option.html());
        }
    }

    pub fn fmt_kv(&mut self, kv: &KeyValue)
        ensures
            final(self).buffer@ == old(self).buffer@ + kv.html(),
    {
        proof {
            reveal(KeyValue::html);
        }
        self.fmt_lts(&kv.line_terminators);
        self.fmt_space(&kv.space0);
        self.fmt_template(&kv.key);
        self.fmt_space(&kv.space1);
        self.push(':');
        self.fmt_space(&kv.space2);
        self.fmt_template(&kv.value);
        self.fmt_lt(&kv.line_terminator0);
        proof {
            assert(self.buffer@ == old(self).buffer@ + kv.html());
        }
    }

    pub fn fmt_cookie(&mut self, cookie: &Cookie)
        ensures
            final(self).buffer@ == old(self).buffer@ + cookie.html(),
    {
        proof {
            reveal(Cookie::html);
        }
        self.fmt_lts(&cookie.line_terminators);
        self.fmt_space(&cookie.space0);
        self.fmt_template(&cookie.name);
        self.fmt_space(&cookie.space1);
        self.push(':');
        self.fmt_space(&cookie.space2);
        self.fmt_template(&cookie.value);
        self.fmt_lt(&cookie.line_terminator0);
        proof {
            assert(self.buffer@ == old(self).buffer@ + cookie.html());
        }
    }

    pub fn fmt_file_value(&mut self, file_value: &FilenameValue)
        ensures
            final(self).buffer@ == old(self).buffer@ + file_value.html(),
    {
        proof {
            reveal(FilenameValue::html);
        }
        self.buffer.append("file,");
        self.fmt_space(&file_value.space0);
        self.fmt_filename(&file_value.filename);
        self.fmt_space(&file_value.space1);
        self.push(';');
        self.fmt_space(&file_value.space2);
        if let Some(content_type) = &file_value.content_type {
            self.fmt_template(content_type);
        }
        proof {
            assert(self.buffer@ == old(self).buffer@ + file_value.html());
        }
    }

    pub fn fmt_file_param(&mut self, param: &FilenameParam)
        ensures
            final(self).buffer@ == old(self).buffer@ + param.html(),
    {
        proof {
            reveal(FilenameParam::html);
        }
        self.fmt_lts(&param.line_terminators);
        self.fmt_space(&param.space0);
        self.fmt_template(&param.key);
        self.fmt_space(&param.space1);
        self.push(':');
        self.fmt_space(&param.space2);
        self.fmt_file_value(&param.value);
        self.fmt_lt(&param.line_terminator0);
        proof {
            assert(self.buffer@ == old(self).buffer@ + param.html());
        }
    }

    pub fn fmt_multipart_param(&mut self, param: &MultipartParam)
        ensures
            final(self).buffer@ == old(self).buffer@ + param.html(),
    {
        match param {
            MultipartParam::Param(param) => self.fmt_kv(param),
            MultipartParam::FilenameParam(param) => self.fmt_file_param(param),
        }
    }

    pub fn fmt_cookie_attribute(&mut self, cookie_attribute: &CookieAttribute)
        ensures
            final(self).buffer@ == old(self).buffer@ + cookie_attribute.html(),
    {
        proof {
            reveal(CookieAttribute::html);
        }
        self.fmt_space(&cookie_attribute.space0);
        let name = cookie_attribute.name.value();
        self.buffer.append(name.as_str());
        self.fmt_space(&cookie_attribute.space1);
        proof {
            assert(self.buffer@ == old(self).buffer@ + cookie_attribute.html());
        }
    }

    /// Appends a cookie path as one quoted string.
    pub fn fmt_cookie_path(&mut self, cookie_path: &CookiePath)
        ensures
            final(self).buffer@ == old(self).buffer@ + cookie_path.html(),
    {
        proof {
            reveal(span);
        }
        self.fmt_span_open("string");
        self.push('"');
        let name = cookie_path.name.to_source();
        self.buffer.append(name.as_str());
        if let Some(attribute) = &cookie_path.attribute {
            self.push('[');
            self.fmt_cookie_attribute(attribute);
            self.push(']');
        }
        self.push('"');
        self.fmt_span_close();
        proof {
            assert(self.buffer@ == old(self).buffer@ + cookie_path.html());
        }
    }

    pub fn fmt_certificate_attribute_name(&mut self, name: &CertificateAttributeName)
        ensures
            final(self).buffer@ == old(self).buffer@ + name.html(),
    {
        proof {
            reveal(span);
        }
        self.fmt_span_open("string");
        self.push('"');
        self.buffer.append(name.identifier());
        self.push('"');
        self.fmt_span_close();
        proof {
            assert(self.buffer@ == old(self).buffer@ + name.html());
        }
    }

    pub fn fmt_query(&mut self, query: &Query)
        ensures
            final(self).buffer@ == old(self).buffer@ + query.html(),
    {
        self.fmt_query_value(&query.value);
    }

    /// Appends a query: its keyword in a `query-type` span, then what the
    /// keyword takes.
    pub fn fmt_query_value(&mut self, query_value: &QueryValue)
        ensures
            final(self).buffer@ == old(self).buffer@ + query_value.html(),
    {
        proof {
            reveal(QueryValue::html);
        }
        let query_type = query_value.identifier();
        self.fmt_span("query-type", query_type);
        match query_value {
            QueryValue::Header { space0, name } => {
                self.fmt_space(space0);
                self.fmt_template(name);
            },
            QueryValue::Cookie { space0, expr } => {
                self.fmt_space(space0);
                self.fmt_cookie_path(expr);
            },
            QueryValue::Xpath { space0, expr } => {
                self.fmt_space(space0);
                self.fmt_template(expr);
            },
            QueryValue::Jsonpath { space0, expr } => {
                self.fmt_space(space0);
                self.fmt_template(expr);
            },
            QueryValue::Regex { space0, value } => {
                self.fmt_space(space0);
                self.fmt_regex_value(value);
            },
            QueryValue::Variable { space0, name } => {
                self.fmt_space(space0);
                self.fmt_template(name);
            },
            QueryValue::Certificate { space0, attribute_name: field } => {
                self.fmt_space(space0);
                self.fmt_certificate_attribute_name(field);
            },
            QueryValue::Status
            | QueryValue::Version
            | QueryValue::Url
            | QueryValue::Body
            | QueryValue::Duration
            | QueryValue::Bytes
            | QueryValue::Sha256
            | QueryValue::Md5
            | QueryValue::Ip
            | QueryValue::Redirects => {},
        }
        proof {
            assert(self.buffer@ == old(self).buffer@ + query_value.html());
        }
    }
}

impl HtmlFormatter {
    pub fn fmt_filter(&mut self, filter: &Filter)
        ensures
            final(self).buffer@ == old(self).buffer@ + filter.html(),
    {
        self.fmt_filter_value(&filter.value);
    }

    /// Appends a filter: its keyword in a `filter-type` span, then what the
    /// keyword takes.
    pub fn fmt_filter_value(&mut self, filter_value: &FilterValue)
        ensures
            final(self).buffer@ == old(self).buffer@ + filter_value.html(),
    {
        proof {
            reveal(FilterValue::html);
        }
        self.fmt_span("filter-type", filter_value.identifier());
        match filter_value {
            FilterValue::Decode { space0, encoding } => {
                self.fmt_space(space0);
                self.fmt_template(encoding);
            },
            FilterValue::Format { space0, fmt } => {
                self.fmt_space(space0);
                self.fmt_template(fmt);
            },
            FilterValue::JsonPath { space0, expr } => {
                self.fmt_space(space0);
                self.fmt_template(expr);
            },
            FilterValue::Nth { space0, n: value } => {
                self.fmt_space(space0);
                let source = value.to_source();
                self.fmt_number(source.as_str());
            },
            FilterValue::Regex { space0, value } => {
                self.fmt_space(space0);
                self.fmt_regex_value(value);
            },
            FilterValue::Replace { space0, old_value, space1, new_value } => {
                self.fmt_space(space0);
                self.fmt_template(old_value);
                self.fmt_space(space1);
                self.fmt_template(new_value);
            },
            FilterValue::ReplaceRegex { space0, pattern, space1, new_value } => {
                self.fmt_space(space0);
                self.fmt_regex_value(pattern);
                self.fmt_space(space1);
                self.fmt_template(new_value);
            },
            FilterValue::Split { space0, sep } => {
                self.fmt_space(space0);
                self.fmt_template(sep);
            },
            FilterValue::ToDate { space0, fmt } => {
                self.fmt_space(space0);
                self.fmt_template(fmt);
            },
            FilterValue::UrlQueryParam { space0, param } => {
                self.fmt_space(space0);
                self.fmt_template(param);
            },
            FilterValue::XPath { space0, expr } => {
                self.fmt_space(space0);
                self.fmt_template(expr);
            },
            FilterValue::Base64Decode
            | FilterValue::Base64Encode
            | FilterValue::Base64UrlSafeDecode
            | FilterValue::Base64UrlSafeEncode
            | FilterValue::Count
            | FilterValue::DaysAfterNow
            | FilterValue::DaysBeforeNow
            | FilterValue::First
            | FilterValue::HtmlEscape
            | FilterValue::HtmlUnescape
            | FilterValue::Last
            | FilterValue::Location
            | FilterValue::ToFloat
            | FilterValue::ToHex
            | FilterValue::ToInt
            | FilterValue::ToString
            | FilterValue::UrlDecode
            | FilterValue::UrlEncode => {},
        }
        proof {
            assert(self.buffer@ == old(self).buffer@ + filter_value.html());
        }
    }

    /// Appends a chain of filters, each after the space that precedes it.
    fn fmt_filters(&mut self, filters: &Vec<(Whitespace, Filter)>)
        ensures
            final(self).buffer@ == old(self).buffer@ + filters_html(filters@),
    {
        let ghost f = |pair: (Whitespace, Filter)| pair.0.html() + pair.1.html();
        let mut i: usize = 0;
        proof {
            assert(self.buffer@ == old(self).buffer@ + joined(filters@.take(0), f));
        }
        while i < filters.len()
            invariant
                i <= filters@.len(),
                f == (|pair: (Whitespace, Filter)| pair.0.html() + pair.1.html()),
                self.buffer@ == old(self).buffer@ + joined(filters@.take(i as int), f),
            decreases filters@.len() - i,
        {
            self.fmt_space(&filters[i].0);
            self.fmt_filter(&filters[i].1);
            proof {
                lemma_joined_step(filters@, f, i as int);
                assert(self.buffer@ == old(self).buffer@ + joined(filters@.take(i + 1), f));
            }
            i = i + 1;
        }
        proof {
            assert(filters@.take(i as int) =~= filters@);
        }
    }

    pub fn fmt_predicate_value(&mut self, predicate_value: &PredicateValue)
        ensures
            final(self).buffer@ == old(self).buffer@ + predicate_value.html(),
    {
        match predicate_value {
            PredicateValue::String(value) => self.fmt_template(value),
            PredicateValue::MultilineString(value) => self.fmt_multiline_string(value),
            PredicateValue::Number(value) => {
                let source = value.to_source();
                self.fmt_number(source.as_str());
            },
            PredicateValue::Bool(value) => self.fmt_bool(*value),
            PredicateValue::File(value) => self.fmt_file(value),
            PredicateValue::Hex(value) => self.fmt_hex(value),
            PredicateValue::Base64(value) => self.fmt_base64(value),
            PredicateValue::Placeholder(value) => self.fmt_placeholder(value),
            PredicateValue::Null => self.fmt_span("null", "null"),
            PredicateValue::Regex(value) => self.fmt_regex(value),
        }
    }

    /// Appends a predicate's test: its operator or keyword, angle brackets
    /// encoded, in a `predicate-type` span, then the value it compares with.
    pub fn fmt_predicate_func_value(&mut self, value: &PredicateFuncValue)
        ensures
            final(self).buffer@ == old(self).buffer@ + value.html(),
    {
        proof {
            reveal(span);
            reveal(PredicateFuncValue::html);
        }
        self.fmt_span_open("predicate-type");
        let label = encode_html(value.identifier());
        self.buffer.append(label.as_str());
        self.fmt_span_close();
        proof {
            assert(self.buffer@ == old(self).buffer@ + value.label_html());
        }
        match value {
            PredicateFuncValue::Equal { space0, value } => {
                self.fmt_space(space0);
                self.fmt_predicate_value(value);
            },
            PredicateFuncValue::NotEqual { space0, value } => {
                self.fmt_space(space0);
                self.fmt_predicate_value(value);
            },
            PredicateFuncValue::GreaterThan { space0, value } => {
                self.fmt_space(space0);
                self.fmt_predicate_value(value);
            },
            PredicateFuncValue::GreaterThanOrEqual { space0, value } => {
                self.fmt_space(space0);
                self.fmt_predicate_value(value);
            },
            PredicateFuncValue::LessThan { space0, value } => {
                self.fmt_space(space0);
                self.fmt_predicate_value(value);
            },
            PredicateFuncValue::LessThanOrEqual { space0, value } => {
                self.fmt_space(space0);
                self.fmt_predicate_value(value);
            },
            PredicateFuncValue::StartWith { space0, value } => {
                self.fmt_space(space0);
                self.fmt_predicate_value(value);
            },
            PredicateFuncValue::EndWith { space0, value } => {
                self.fmt_space(space0);
                self.fmt_predicate_value(value);
            },
            PredicateFuncValue::Contain { space0, value } => {
                self.fmt_space(space0);
                self.fmt_predicate_value(value);
            },
            PredicateFuncValue::Include { space0, value } => {
                self.fmt_space(space0);
                self.fmt_predicate_value(value);
            },
            PredicateFuncValue::Match { space0, value } => {
                self.fmt_space(space0);
                self.fmt_predicate_value(value);
            },
            PredicateFuncValue::IsInteger => {},
            PredicateFuncValue::IsFloat => {},
            PredicateFuncValue::IsBoolean => {},
            PredicateFuncValue::IsString => {},
            PredicateFuncValue::IsCollection => {},
            PredicateFuncValue::IsDate => {},
            PredicateFuncValue::IsIsoDate => {},
            PredicateFuncValue::Exist => {},
            PredicateFuncValue::IsEmpty => {},
            PredicateFuncValue::IsNumber => {},
            PredicateFuncValue::IsIpv4 => {},
            PredicateFuncValue::IsIpv6 => {},
        }
        proof {
            assert(self.buffer@ == old(self).buffer@ + value.html());
        }
    }

    pub fn fmt_predicate_func(&mut self, predicate_func: &PredicateFunc)
        ensures
            final(self).buffer@ == old(self).buffer@ + predicate_func.html(),
    {
        self.fmt_predicate_func_value(&predicate_func.value);
    }

    pub fn fmt_predicate(&mut self, predicate: &Predicate)
        ensures
            final(self).buffer@ == old(self).buffer@ + predicate.html(),
    {
        proof {
            reveal(Predicate::html);
        }
        if predicate.not {
            self.fmt_span("not", "not");
            self.fmt_space(&predicate.space0);
        }
        self.fmt_predicate_func(&predicate.predicate_func);
        proof {
            assert(self.buffer@ == old(self).buffer@ + predicate.html());
        }
    }

    /// Appends a capture. The word `redact`, where the capture is marked with
    /// it, is written as it is, outside any span.
    pub fn fmt_capture(&mut self, capture: &Capture)
        ensures
            final(self).buffer@ == old(self).buffer@ + capture.html(),
    {
        proof {
            reveal(Capture::html);
        }
        self.fmt_lts(&capture.line_terminators);
        self.fmt_space(&capture.space0);
        self.fmt_template(&capture.name);
        self.fmt_space(&capture.space1);
        self.push(':');
        self.fmt_space(&capture.space2);
        self.fmt_query(&capture.query);
        self.fmt_filters(&capture.filters);
        self.fmt_space(&capture.space3);
        if capture.redact {
            self.buffer.append("redact");
        }
        self.fmt_lt(&capture.line_terminator0);
        proof {
            assert(self.buffer@ == old(self).buffer@ + capture.html());
        }
    }

    pub fn fmt_assert(&mut self, assert: &Assert)
        ensures
            final(self).buffer@ == old(self).buffer@ + assert.html(),
    {
        proof {
            reveal(Assert::html);
        }
        self.fmt_lts(&assert.line_terminators);
        self.fmt_space(&assert.space0);
        self.fmt_query(&assert.query);
        self.fmt_filters(&assert.filters);
        self.fmt_space(&assert.space1);
        self.fmt_predicate(&assert.predicate);
        self.fmt_lt(&assert.line_terminator0);
        proof {
            assert(self.buffer@ == old(self).buffer@ + assert.html());
        }
    }

    pub fn fmt_bytes(&mut self, bytes: &Bytes)
        ensures
            final(self).buffer@ == old(self).buffer@ + bytes.html(),
    {
        match bytes {
            Bytes::Base64(value) => self.fmt_base64(value),
            Bytes::File(value) => self.fmt_file(value),
            Bytes::Hex(value) => self.fmt_hex(value),
            Bytes::OnelineString(value) => self.fmt_template(value),
            Bytes::Json(value) => self.fmt_json_value(value),
            Bytes::MultilineString(value) => self.fmt_multiline_string(value),
            Bytes::Xml(value) => self.fmt_xml(value.as_str()),
        }
    }

    pub fn fmt_body(&mut self, body: &Body)
        ensures
            final(self).buffer@ == old(self).buffer@ + body.html(),
    {
        proof {
            reveal(Body::html);
        }
        self.fmt_lts(&body.line_terminators);
        self.fmt_space(&body.space0);
        self.fmt_bytes(&body.value);
        self.fmt_lt(&body.line_terminator0);
        proof {
            assert(self.buffer@ == old(self).buffer@ + body.html());
        }
    }

    pub fn fmt_method(&mut self, method: &Method)
        ensures
            final(self).buffer@ == old(self).buffer@ + method.html(),
    {
        self.fmt_span("method", method.as_str());
    }

    pub fn fmt_version(&mut self, version: &Version)
        ensures
            final(self).buffer@ == old(self).buffer@ + version.html(),
    {
        self.fmt_span("version", version.value.identifier());
    }

    pub fn fmt_status(&mut self, status: &Status)
        ensures
            final(self).buffer@ == old(self).buffer@ + status.html(),
    {
        match status.value {
            StatusValue::Any => {
                proof {
                    reveal_strlit("*");
                    assert("*"@ =~= seq!['*']);
                }
                self.fmt_number("*");
            },
            StatusValue::Specific(code) => {
                let digits = decimal_string(code);
                self.fmt_number(digits.as_str());
            },
        }
    }
}

impl HtmlFormatter {
    /// Appends lines `key: value`, one after the other.
    fn fmt_key_values(&mut self, items: &Vec<KeyValue>)
        ensures
            final(self).buffer@ == old(self).buffer@ + joined(items@, |item: KeyValue| item.html()),
    {
        let ghost f = |item: KeyValue| item.html();
        let mut i: usize = 0;
        proof {
            assert(self.buffer@ == old(self).buffer@ + joined(items@.take(0), f));
        }
        while i < items.len()
            invariant
                i <= items@.len(),
                f == (|item: KeyValue| item.html()),
                self.buffer@ == old(self).buffer@ + joined(items@.take(i as int), f),
            decreases items@.len() - i,
        {
            self.fmt_kv(&items[i]);
            proof {
                lemma_joined_step(items@, f, i as int);
                assert(self.buffer@ == old(self).buffer@ + joined(items@.take(i + 1), f));
            }
            i = i + 1;
        }
        proof {
            assert(items@.take(i as int) =~= items@);
        }
    }

    /// Appends multipart parameters, one after the other.
    fn fmt_multipart_params(&mut self, items: &Vec<MultipartParam>)
        ensures
            final(self).buffer@ == old(self).buffer@ + joined(
                items@,
                |item: MultipartParam| item.html(),
            ),
    {
        let ghost f = |item: MultipartParam| item.html();
        let mut i: usize = 0;
        proof {
            assert(self.buffer@ == old(self).buffer@ + joined(items@.take(0), f));
        }
        while i < items.len()
            invariant
                i <= items@.len(),
                f == (|item: MultipartParam| item.html()),
                self.buffer@ == old(self).buffer@ + joined(items@.take(i as int), f),
            decreases items@.len() - i,
        {
            self.fmt_multipart_param(&items[i]);
            proof {
                lemma_joined_step(items@, f, i as int);
                assert(self.buffer@ == old(self).buffer@ + joined(items@.take(i + 1), f));
            }
            i = i + 1;
        }
        proof {
            assert(items@.take(i as int) =~= items@);
        }
    }

    /// Appends cookies, one after the other.
    fn fmt_cookies(&mut self, items: &Vec<Cookie>)
        ensures
            final(self).buffer@ == old(self).buffer@ + joined(items@, |item: Cookie| item.html()),
    {
        let ghost f = |item: Cookie| item.html();
        let mut i: usize = 0;
        proof {
            assert(self.buffer@ == old(self).buffer@ + joined(items@.take(0), f));
        }
        while i < items.len()
            invariant
                i <= items@.len(),
                f == (|item: Cookie| item.html()),
                self.buffer@ == old(self).buffer@ + joined(items@.take(i as int), f),
            decreases items@.len() - i,
        {
            self.fmt_cookie(&items[i]);
            proof {
                lemma_joined_step(items@, f, i as int);
                assert(self.buffer@ == old(self).buffer@ + joined(items@.take(i + 1), f));
            }
            i = i + 1;
        }
        proof {
            assert(items@.take(i as int) =~= items@);
        }
    }

    /// Appends captures, one after the other.
    fn fmt_captures(&mut self, items: &Vec<Capture>)
        ensures
            final(self).buffer@ == old(self).buffer@ + joined(items@, |item: Capture| item.html()),
    {
        let ghost f = |item: Capture| item.html();
        let mut i: usize = 0;
        proof {
            assert(self.buffer@ == old(self).buffer@ + joined(items@.take(0), f));
        }
        while i < items.len()
            invariant
                i <= items@.len(),
                f == (|item: Capture| item.html()),
                self.buffer@ == old(self).buffer@ + joined(items@.take(i as int), f),
            decreases items@.len() - i,
        {
            self.fmt_capture(&items[i]);
            proof {
                lemma_joined_step(items@, f, i as int);
                assert(self.buffer@ == old(self).buffer@ + joined(items@.take(i + 1), f));
            }
            i = i + 1;
        }
        proof {
            assert(items@.take(i as int) =~= items@);
        }
    }

    /// Appends asserts, one after the other.
    fn fmt_asserts(&mut self, items: &Vec<Assert>)
        ensures
            final(self).buffer@ == old(self).buffer@ + joined(items@, |item: Assert| item.html()),
    {
        let ghost f = |item: Assert| item.html();
        let mut i: usize = 0;
        proof {
            assert(self.buffer@ == old(self).buffer@ + joined(items@.take(0), f));
        }
        while i < items.len()
            invariant
                i <= items@.len(),
                f == (|item: Assert| item.html()),
                self.buffer@ == old(self).buffer@ + joined(items@.take(i as int), f),
            decreases items@.len() - i,
        {
            self.fmt_assert(&items[i]);
            proof {
                lemma_joined_step(items@, f, i as int);
                assert(self.buffer@ == old(self).buffer@ + joined(items@.take(i + 1), f));
            }
            i = i + 1;
        }
        proof {
            assert(items@.take(i as int) =~= items@);
        }
    }

    /// Appends options, one after the other.
    fn fmt_entry_options(&mut self, items: &Vec<EntryOption>)
        ensures
            final(self).buffer@ == old(self).buffer@ + joined(
                items@,
                |item: EntryOption| item.html(),
            ),
    {
        let ghost f = |item: EntryOption| item.html();
        let mut i: usize = 0;
        proof {
            assert(self.buffer@ == old(self).buffer@ + joined(items@.take(0), f));
        }
        while i < items.len()
            invariant
                i <= items@.len(),
                f == (|item: EntryOption| item.html()),
                self.buffer@ == old(self).buffer@ + joined(items@.take(i as int), f),
            decreases items@.len() - i,
        {
            self.fmt_entry_option(&items[i]);
            proof {
                lemma_joined_step(items@, f, i as int);
                assert(self.buffer@ == old(self).buffer@ + joined(items@.take(i + 1), f));
            }
            i = i + 1;
        }
        proof {
            assert(items@.take(i as int) =~= items@);
        }
    }

    /// Appends sections, one after the other.
    fn fmt_sections(&mut self, items: &Vec<Section>)
        ensures
            final(self).buffer@ == old(self).buffer@ + joined(items@, |item: Section| item.html()),
    {
        let ghost f = |item: Section| item.html();
        let mut i: usize = 0;
        proof {
            assert(self.buffer@ == old(self).buffer@ + joined(items@.take(0), f));
        }
        while i < items.len()
            invariant
                i <= items@.len(),
                f == (|item: Section| item.html()),
                self.buffer@ == old(self).buffer@ + joined(items@.take(i as int), f),
            decreases items@.len() - i,
        {
            self.fmt_section(&items[i]);
            proof {
                lemma_joined_step(items@, f, i as int);
                assert(self.buffer@ == old(self).buffer@ + joined(items@.take(i + 1), f));
            }
            i = i + 1;
        }
        proof {
            assert(items@.take(i as int) =~= items@);
        }
    }

    /// Appends entries, one after the other.
    fn fmt_entries(&mut self, items: &Vec<Entry>)
        ensures
            final(self).buffer@ == old(self).buffer@ + joined(items@, |item: Entry| item.html()),
    {
        let ghost f = |item: Entry| item.html();
        let mut i: usize = 0;
        proof {
            assert(self.buffer@ == old(self).buffer@ + joined(items@.take(0), f));
        }
        while i < items.len()
            invariant
                i <= items@.len(),
                f == (|item: Entry| item.html()),
                self.buffer@ == old(self).buffer@ + joined(items@.take(i as int), f),
            decreases items@.len() - i,
        {
            self.fmt_entry(&items[i]);
            proof {
                lemma_joined_step(items@, f, i as int);
                assert(self.buffer@ == old(self).buffer@ + joined(items@.take(i + 1), f));
            }
            i = i + 1;
        }
        proof {
            assert(items@.take(i as int) =~= items@);
        }
    }

    /// Appends the lines of a section.
    pub fn fmt_section_value(&mut self, section_value: &SectionValue)
        ensures
            final(self).buffer@ == old(self).buffer@ + section_value.html(),
    {
        match section_value {
            SectionValue::Asserts(items) => self.fmt_asserts(items),
            SectionValue::QueryParams(items, _) => self.fmt_key_values(items),
            SectionValue::BasicAuth(item) => {
                if let Some(kv) = item {
                    self.fmt_kv(kv);
                } else {
                    proof {
                        assert(self.buffer@ == old(self).buffer@ + section_value.html());
                    }
                }
            },
            SectionValue::FormParams(items, _) => self.fmt_key_values(items),
            SectionValue::MultipartFormData(items, _) => self.fmt_multipart_params(items),
            SectionValue::Cookies(items) => self.fmt_cookies(items),
            SectionValue::Captures(items) => self.fmt_captures(items),
            SectionValue::Options(items) => self.fmt_entry_options(items),
        }
    }

    /// Appends a section: its name between brackets in a `section-header`
    /// span, then its lines.
    pub fn fmt_section(&mut self, section: &Section)
        ensures
            final(self).buffer@ == old(self).buffer@ + section.html(),
    {
        proof {
            reveal(Section::html);
        }
        self.fmt_lts(&section.line_terminators);
        self.fmt_space(&section.space0);
        let mut name = String::new();
        push_char(&mut name, '[');
        name.append(section.identifier());
        push_char(&mut name, ']');
        proof {
            assert(name@ =~= section.header());
        }
        self.fmt_span("section-header", name.as_str());
        self.fmt_lt(&section.line_terminator0);
        self.fmt_section_value(&section.value);
        proof {
            assert(self.buffer@ == old(self).buffer@ + section.html());
        }
    }

    pub fn fmt_request(&mut self, request: &Request)
        ensures
            final(self).buffer@ == old(self).buffer@ + request.html(),
    {
        proof {
            reveal(span);
            reveal(Request::html);
            reveal(Request::inner_html);
        }
        self.fmt_span_open("request");
        self.fmt_lts(&request.line_terminators);
        self.fmt_space(&request.space0);
        self.fmt_method(&request.method);
        self.fmt_space(&request.space1);
        let source = request.url.to_source();
        let url = escape_xml(source.as_str());
        self.fmt_span("url", url.as_str());
        self.fmt_lt(&request.line_terminator0);
        self.fmt_key_values(&request.headers);
        self.fmt_sections(&request.sections);
        if let Some(body) = &request.body {
            self.fmt_body(body);
        }
        self.fmt_span_close();
        proof {
            assert(self.buffer@ == old(self).buffer@ + request.html());
        }
    }

    pub fn fmt_response(&mut self, response: &Response)
        ensures
            final(self).buffer@ == old(self).buffer@ + response.html(),
    {
        proof {
            reveal(span);
            reveal(Response::html);
            reveal(Response::inner_html);
        }
        self.fmt_span_open("response");
        self.fmt_lts(&response.line_terminators);
        self.fmt_space(&response.space0);
        self.fmt_version(&response.version);
        self.fmt_space(&response.space1);
        self.fmt_status(&response.status);
        self.fmt_lt(&response.line_terminator0);
        self.fmt_key_values(&response.headers);
        self.fmt_sections(&response.sections);
        if let Some(body) = &response.body {
            self.fmt_body(body);
        }
        self.fmt_span_close();
        proof {
            assert(self.buffer@ == old(self).buffer@ + response.html());
        }
    }

    pub fn fmt_entry(&mut self, entry: &Entry)
        ensures
            final(self).buffer@ == old(self).buffer@ + entry.html(),
    {
        proof {
            reveal(span);
            reveal(Entry::html);
        }
        self.fmt_span_open("entry");
        self.fmt_request(&entry.request);
        if let Some(response) = &entry.response {
            self.fmt_response(response);
        }
        self.fmt_span_close();
        proof {
            assert(self.buffer@ == old(self).buffer@ + entry.html());
        }
    }

    /// Renders a whole file. What the buffer held before is dropped: after
    /// the call it holds the file's HTML and nothing else. Where the file is
    /// plain, the HTML without its markup is the text of the file, and the
    /// HTML holds the doubled entity `&amp;amp;` only if the file held the
    /// entity `&amp;`.
    pub fn fmt_hurl_file(&mut self, hurl_file: &HurlFile) -> (html: &str)
        ensures
            html@ == hurl_file.html(),
            final(self).buffer@ == hurl_file.html(),
            hurl_file.plain() ==> strip_markup(html@) == hurl_file.source(),
            hurl_file.plain() && contains(html@, doubled_amp_entity()) ==> contains(
                hurl_file.source(),
                amp_entity(),
            ),
    {
        proof {
            reveal(pre);
            reveal(HurlFile::html);
            reveal(HurlFile::inner_html);
        }
        self.buffer = String::new();
        self.fmt_pre_open("language-hurl");
        self.fmt_entries(&hurl_file.entries);
        self.fmt_lts(&hurl_file.line_terminators);
        self.fmt_pre_close();
        proof {
            assert(self.buffer@ == hurl_file.html());
            if hurl_file.plain() {
                hurl_file.lemma_round_trip();
                hurl_file.lemma_doubled_entity_was_entity();
            }
        }
        self.buffer.as_str()
    }
}

/// Returns the HTML of the Hurl file `hurl_file`.
///
/// If `standalone` is true, the result is a complete HTML page with the
/// stylesheet in its head. Otherwise it is the `<pre>` block alone, without
/// styling; where the file is plain, that block without its markup is the text
/// of the file, and the block holds the doubled entity `&amp;amp;` only if the
/// file held the entity `&amp;`.
pub fn format(hurl_file: &HurlFile, standalone: bool) -> (html: String)
    ensures
        html@ == if standalone {
            page(HURL_CSS@, hurl_file.html())
        } else {
            hurl_file.html()
        },
        !standalone && hurl_file.plain() ==> strip_markup(html@) == hurl_file.source(),
        !standalone && hurl_file.plain() && contains(html@, doubled_amp_entity()) ==> contains(
            hurl_file.source(),
            amp_entity(),
        ),
{
    let mut fmt = HtmlFormatter::new();
    let body = fmt.fmt_hurl_file(hurl_file);
    if standalone {
        let mut out = String::new();
        out.append(PAGE_HEAD);
        out.append(HURL_CSS);
        out.append(PAGE_MIDDLE);
        out.append(body);
        out.append(PAGE_FOOT);
        out
    } else {
        body.to_string()
    }
}

} // verus!
