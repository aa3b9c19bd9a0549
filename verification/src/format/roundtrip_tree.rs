//! The round trip for the lines and blocks of a document, up to the whole
//! file.

use vstd::prelude::*;
use vstd::string::*;
use crate::ast::file::{
    optional_body_source, optional_response_source, Body, Bytes, Entry, HurlFile, Method, Request,
    Response, Status, StatusValue, Version,
};
use crate::ast::filter::{filters_source, Filter, FilterValue};
use crate::ast::option::{
    BooleanOption, CountOption, DurationOption, EntryOption, NaturalOption, OptionKind,
    VariableDefinition, VariableValue,
};
use crate::ast::predicate::{Predicate, PredicateFuncValue, PredicateValue};
use crate::ast::primitive::Whitespace;
use crate::ast::query::{
    bracketed_attribute_source, CertificateAttributeName, CookieAttribute, CookiePath, Query,
    QueryValue, RegexValue,
};
use crate::ast::section::{
    optional_key_value_source, optional_template_source, Assert, Capture, Cookie, FilenameParam,
    FilenameValue, KeyValue, MultipartParam, Section, SectionValue,
};
use crate::ast::template::Template;
use crate::format::render::{
    bracketed_attribute_html, filters_html, optional_body_html, optional_key_value_html,
    optional_response_html, optional_template_html,
};
use crate::format::roundtrip::{
    lemma_bool_round_trip, lemma_char_reads_as_itself, lemma_classes_tag_safe,
    lemma_line_terminators_round_trip, lemma_null_round_trip, lemma_number_round_trip,
    lemma_words_markup_free, lemma_xml_round_trip, line_terminators_plain,
};
use crate::format::spans::{lemma_pre_reads_as, lemma_span_reads_as};
use crate::markup::{
    amp_entity, contains, doubled_amp_entity, lemma_no_entity_no_doubled_entity,
    escape, lemma_escape_reads_as, lemma_markup_free_reads_as_itself, lemma_reads_as_concat,
    lemma_reads_as_empty, markup_free, reads_as,
};
use crate::text::{
    joined, lemma_decimal_markup_free, lemma_encode_angles_is_escape, lemma_joined_reads_as,
};

verus! {

impl RegexValue {
    /// A regular expression literal is plain; a template needs nothing.
    pub open spec fn plain(&self) -> bool {
        match self {
            RegexValue::Template(_) => true,
            RegexValue::Regex(r) => r.plain(),
        }
    }

    /// Without its markup, the HTML reads as the text it was written from.
    pub proof fn lemma_round_trip(self)
        requires
            self.plain(),
        ensures
            reads_as(self.html(), self.source()),
    {
        match self {
            RegexValue::Template(t) => t.lemma_round_trip(),
            RegexValue::Regex(r) => r.lemma_round_trip(),
        }
    }
}

impl BooleanOption {
    /// Every part that is written unescaped is plain.
    pub open spec fn plain(&self) -> bool {
        match self {
            BooleanOption::Literal(_) => true,
            BooleanOption::Placeholder(p) => p.plain(),
        }
    }

    /// Without its markup, the HTML reads as the text it was written from.
    pub proof fn lemma_round_trip(self)
        requires
            self.plain(),
        ensures
            reads_as(self.html(), self.source()),
    {
        match self {
            BooleanOption::Literal(v) => lemma_bool_round_trip(v),
            BooleanOption::Placeholder(p) => p.lemma_round_trip(),
        }
    }
}

impl NaturalOption {
    /// Every part that is written unescaped is plain.
    pub open spec fn plain(&self) -> bool {
        match self {
            NaturalOption::Literal(v) => markup_free(v.source()),
            NaturalOption::Placeholder(p) => p.plain(),
        }
    }

    /// Without its markup, the HTML reads as the text it was written from.
    pub proof fn lemma_round_trip(self)
        requires
            self.plain(),
        ensures
            reads_as(self.html(), self.source()),
    {
        match self {
            NaturalOption::Literal(v) => lemma_number_round_trip(v.source()),
            NaturalOption::Placeholder(p) => p.lemma_round_trip(),
        }
    }
}

impl CountOption {
    /// Every part that is written unescaped is plain.
    pub open spec fn plain(&self) -> bool {
        match self {
            CountOption::Literal(_) => true,
            CountOption::Placeholder(p) => p.plain(),
        }
    }

    /// Without its markup, the HTML reads as the text it was written from.
    pub proof fn lemma_round_trip(self)
        requires
            self.plain(),
        ensures
            reads_as(self.html(), self.source()),
    {
        match self {
            CountOption::Literal(v) => v.lemma_round_trip(),
            CountOption::Placeholder(p) => p.lemma_round_trip(),
        }
    }
}

impl DurationOption {
    /// Every part that is written unescaped is plain.
    pub open spec fn plain(&self) -> bool {
        match self {
            DurationOption::Literal(v) => v.plain(),
            DurationOption::Placeholder(p) => p.plain(),
        }
    }

    /// Without its markup, the HTML reads as the text it was written from.
    pub proof fn lemma_round_trip(self)
        requires
            self.plain(),
        ensures
            reads_as(self.html(), self.source()),
    {
        match self {
            DurationOption::Literal(v) => v.lemma_round_trip(),
            DurationOption::Placeholder(p) => p.lemma_round_trip(),
        }
    }
}

impl VariableValue {
    /// Every part that is written unescaped is plain.
    pub open spec fn plain(&self) -> bool {
        match self {
            VariableValue::Number(v) => markup_free(v.source()),
            _ => true,
        }
    }

    /// Without its markup, the HTML reads as the text it was written from.
    pub proof fn lemma_round_trip(self)
        requires
            self.plain(),
        ensures
            reads_as(self.html(), self.source()),
    {
        match self {
            VariableValue::Null => lemma_null_round_trip(),
            VariableValue::Bool(v) => lemma_bool_round_trip(v),
            VariableValue::Number(v) => lemma_number_round_trip(v.source()),
            VariableValue::String(v) => v.lemma_round_trip(),
        }
    }
}

impl VariableDefinition {
    /// The variable's name, the space around `=` and the value are plain.
    pub open spec fn plain(&self) -> bool {
        markup_free(self.name@) && self.space0.plain() && self.space1.plain()
            && self.value.plain()
    }

    /// Without its markup, the HTML reads as the text it was written from.
    pub proof fn lemma_round_trip(self)
        requires
            self.plain(),
        ensures
            reads_as(self.html(), self.source()),
    {
        broadcast use lemma_reads_as_concat;

        reveal(VariableDefinition::html);
        lemma_markup_free_reads_as_itself(self.name@);
        self.space0.lemma_round_trip();
        lemma_char_reads_as_itself('=');
        self.space1.lemma_round_trip();
        self.value.lemma_round_trip();
    }
}

impl OptionKind {
    /// The name of a setting holds neither `<` nor `&`.
    pub proof fn lemma_name_markup_free(self)
        ensures
            markup_free(self.name()),
    {
        reveal_strlit("aws-sigv4");
        reveal_strlit("cacert");
        reveal_strlit("cert");
        reveal_strlit("key");
        reveal_strlit("compressed");
        reveal_strlit("connect-to");
        reveal_strlit("connect-timeout");
        reveal_strlit("delay");
        reveal_strlit("location");
        reveal_strlit("location-trusted");
        reveal_strlit("header");
        reveal_strlit("http1.0");
        reveal_strlit("http1.1");
        reveal_strlit("http2");
        reveal_strlit("http3");
        reveal_strlit("insecure");
        reveal_strlit("ipv4");
        reveal_strlit("ipv6");
        reveal_strlit("limit-rate");
        reveal_strlit("max-redirs");
        reveal_strlit("max-time");
        reveal_strlit("netrc");
        reveal_strlit("netrc-file");
        reveal_strlit("netrc-optional");
        reveal_strlit("output");
        reveal_strlit("path-as-is");
        reveal_strlit("pinned-pubkey");
        reveal_strlit("proxy");
        reveal_strlit("repeat");
        reveal_strlit("resolve");
        reveal_strlit("retry");
        reveal_strlit("retry-interval");
        reveal_strlit("skip");
        reveal_strlit("unix-socket");
        reveal_strlit("user");
        reveal_strlit("variable");
        reveal_strlit("verbose");
        reveal_strlit("very-verbose");
    }

    /// The value of the setting is plain.
    pub open spec fn plain(&self) -> bool {
        match self {
            OptionKind::AwsSigV4(_) => true,
            OptionKind::CaCertificate(v) => v.plain_filename(),
            OptionKind::ClientCert(v) => v.plain_filename(),
            OptionKind::ClientKey(v) => v.plain_filename(),
            OptionKind::Compressed(v) => v.plain(),
            OptionKind::ConnectTo(_) => true,
            OptionKind::ConnectTimeout(v) => v.plain(),
            OptionKind::Delay(v) => v.plain(),
            OptionKind::FollowLocation(v) => v.plain(),
            OptionKind::FollowLocationTrusted(v) => v.plain(),
            OptionKind::Header(_) => true,
            OptionKind::Http10(v) => v.plain(),
            OptionKind::Http11(v) => v.plain(),
            OptionKind::Http2(v) => v.plain(),
            OptionKind::Http3(v) => v.plain(),
            OptionKind::Insecure(v) => v.plain(),
            OptionKind::IpV4(v) => v.plain(),
            OptionKind::IpV6(v) => v.plain(),
            OptionKind::LimitRate(v) => v.plain(),
            OptionKind::MaxRedirect(v) => v.plain(),
            OptionKind::MaxTime(v) => v.plain(),
            OptionKind::NetRc(v) => v.plain(),
            OptionKind::NetRcFile(v) => v.plain_filename(),
            OptionKind::NetRcOptional(v) => v.plain(),
            OptionKind::Output(v) => v.plain_filename(),
            OptionKind::PathAsIs(v) => v.plain(),
            OptionKind::PinnedPublicKey(_) => true,
            OptionKind::Proxy(_) => true,
            OptionKind::Repeat(v) => v.plain(),
            OptionKind::Resolve(_) => true,
            OptionKind::Retry(v) => v.plain(),
            OptionKind::RetryInterval(v) => v.plain(),
            OptionKind::Skip(v) => v.plain(),
            OptionKind::UnixSocket(v) => v.plain_filename(),
            OptionKind::User(_) => true,
            OptionKind::Variable(v) => v.plain(),
            OptionKind::Verbose(v) => v.plain(),
            OptionKind::VeryVerbose(v) => v.plain(),
        }
    }

    /// Without its markup, the HTML reads as the text it was written from.
    pub proof fn lemma_value_round_trip(self)
        requires
            self.plain(),
        ensures
            reads_as(self.value_html(), self.value_source()),
    {
        match self {
            OptionKind::AwsSigV4(v) => v.lemma_round_trip(),
            OptionKind::CaCertificate(v) => v.lemma_filename_round_trip(),
            OptionKind::ClientCert(v) => v.lemma_filename_round_trip(),
            OptionKind::ClientKey(v) => v.lemma_filename_round_trip(),
            OptionKind::Compressed(v) => v.lemma_round_trip(),
            OptionKind::ConnectTo(v) => v.lemma_round_trip(),
            OptionKind::ConnectTimeout(v) => v.lemma_round_trip(),
            OptionKind::Delay(v) => v.lemma_round_trip(),
            OptionKind::FollowLocation(v) => v.lemma_round_trip(),
            OptionKind::FollowLocationTrusted(v) => v.lemma_round_trip(),
            OptionKind::Header(v) => v.lemma_round_trip(),
            OptionKind::Http10(v) => v.lemma_round_trip(),
            OptionKind::Http11(v) => v.lemma_round_trip(),
            OptionKind::Http2(v) => v.lemma_round_trip(),
            OptionKind::Http3(v) => v.lemma_round_trip(),
            OptionKind::Insecure(v) => v.lemma_round_trip(),
            OptionKind::IpV4(v) => v.lemma_round_trip(),
            OptionKind::IpV6(v) => v.lemma_round_trip(),
            OptionKind::LimitRate(v) => v.lemma_round_trip(),
            OptionKind::MaxRedirect(v) => v.lemma_round_trip(),
            OptionKind::MaxTime(v) => v.lemma_round_trip(),
            OptionKind::NetRc(v) => v.lemma_round_trip(),
            OptionKind::NetRcFile(v) => v.lemma_filename_round_trip(),
            OptionKind::NetRcOptional(v) => v.lemma_round_trip(),
            OptionKind::Output(v) => v.lemma_filename_round_trip(),
            OptionKind::PathAsIs(v) => v.lemma_round_trip(),
            OptionKind::PinnedPublicKey(v) => v.lemma_round_trip(),
            OptionKind::Proxy(v) => v.lemma_round_trip(),
            OptionKind::Repeat(v) => v.lemma_round_trip(),
            OptionKind::Resolve(v) => v.lemma_round_trip(),
            OptionKind::Retry(v) => v.lemma_round_trip(),
            OptionKind::RetryInterval(v) => v.lemma_round_trip(),
            OptionKind::Skip(v) => v.lemma_round_trip(),
            OptionKind::UnixSocket(v) => v.lemma_filename_round_trip(),
            OptionKind::User(v) => v.lemma_round_trip(),
            OptionKind::Variable(v) => v.lemma_round_trip(),
            OptionKind::Verbose(v) => v.lemma_round_trip(),
            OptionKind::VeryVerbose(v) => v.lemma_round_trip(),
        }
    }

    /// The label of a setting reads as the setting's name, whatever its value.
    pub proof fn lemma_label_fidelity(self)
        ensures
            reads_as(self.label_html(), self.name()),
    {
        broadcast use lemma_span_reads_as;

        lemma_classes_tag_safe();
        self.lemma_name_markup_free();
        lemma_markup_free_reads_as_itself(self.name());
    }
}

impl EntryOption {
    /// Every part that is written unescaped is plain.
    pub open spec fn plain(&self) -> bool {
        line_terminators_plain(self.line_terminators@) && self.space0.plain()
            && self.space1.plain() && self.space2.plain() && self.kind.plain()
            && self.line_terminator0.plain()
    }

    /// Without its markup, the HTML reads as the text it was written from.
    pub proof fn lemma_round_trip(self)
        requires
            self.plain(),
        ensures
            reads_as(self.html(), self.source()),
    {
        broadcast use lemma_reads_as_concat;

        reveal(EntryOption::html);
        lemma_line_terminators_round_trip(self.line_terminators@);
        self.space0.lemma_round_trip();
        self.kind.lemma_label_fidelity();
        self.space1.lemma_round_trip();
        lemma_char_reads_as_itself(':');
        self.space2.lemma_round_trip();
        self.kind.lemma_value_round_trip();
        self.line_terminator0.lemma_round_trip();
    }
}

impl KeyValue {
    /// Every part that is written unescaped is plain.
    pub open spec fn plain(&self) -> bool {
        line_terminators_plain(self.line_terminators@) && self.space0.plain()
            && self.space1.plain() && self.space2.plain() && self.line_terminator0.plain()
    }

    /// Without its markup, the HTML reads as the text it was written from.
    pub proof fn lemma_round_trip(self)
        requires
            self.plain(),
        ensures
            reads_as(self.html(), self.source()),
    {
        broadcast use lemma_reads_as_concat;

        reveal(KeyValue::html);
        lemma_line_terminators_round_trip(self.line_terminators@);
        self.space0.lemma_round_trip();
        self.key.lemma_round_trip();
        self.space1.lemma_round_trip();
        lemma_char_reads_as_itself(':');
        self.space2.lemma_round_trip();
        self.value.lemma_round_trip();
        self.line_terminator0.lemma_round_trip();
    }
}

/// Each of the lines `key: value` is plain.
pub open spec fn key_values_plain(items: Seq<KeyValue>) -> bool {
    forall|i: int| 0 <= i < items.len() ==> (#[trigger] items[i]).plain()
}

/// Without its markup, the HTML reads as the text it was written from.
pub proof fn lemma_key_values_round_trip(items: Seq<KeyValue>)
    requires
        key_values_plain(items),
    ensures
        reads_as(
            joined(items, |item: KeyValue| item.html()),
            joined(items, |item: KeyValue| item.source()),
        ),
{
    let f = |item: KeyValue| item.html();
    let g = |item: KeyValue| item.source();
    assert forall|i: int| 0 <= i < items.len() implies reads_as(
        f(#[trigger] items[i]),
        g(items[i]),
    ) by {
        items[i].lemma_round_trip();
    }
    lemma_joined_reads_as(items, f, g);
}

impl Cookie {
    /// Every part that is written unescaped is plain.
    pub open spec fn plain(&self) -> bool {
        line_terminators_plain(self.line_terminators@) && self.space0.plain()
            && self.space1.plain() && self.space2.plain() && self.line_terminator0.plain()
    }

    /// Without its markup, the HTML reads as the text it was written from.
    pub proof fn lemma_round_trip(self)
        requires
            self.plain(),
        ensures
            reads_as(self.html(), self.source()),
    {
        broadcast use lemma_reads_as_concat;

        reveal(Cookie::html);
        lemma_line_terminators_round_trip(self.line_terminators@);
        self.space0.lemma_round_trip();
        self.name.lemma_round_trip();
        self.space1.lemma_round_trip();
        lemma_char_reads_as_itself(':');
        self.space2.lemma_round_trip();
        self.value.lemma_round_trip();
        self.line_terminator0.lemma_round_trip();
    }
}

impl FilenameValue {
    /// Every part that is written unescaped is plain.
    pub open spec fn plain(&self) -> bool {
        self.space0.plain() && self.filename.plain_filename() && self.space1.plain()
            && self.space2.plain()
    }

    /// Without its markup, the HTML reads as the text it was written from.
    pub proof fn lemma_round_trip(self)
        requires
            self.plain(),
        ensures
            reads_as(self.html(), self.source()),
    {
        broadcast use lemma_reads_as_concat;

        reveal(FilenameValue::html);
        lemma_words_markup_free();
        lemma_markup_free_reads_as_itself("file,"@);
        self.space0.lemma_round_trip();
        self.filename.lemma_filename_round_trip();
        self.space1.lemma_round_trip();
        lemma_char_reads_as_itself(';');
        self.space2.lemma_round_trip();
        match self.content_type {
            Some(t) => t.lemma_round_trip(),
            None => lemma_reads_as_empty(),
        }
        assert(reads_as(
            optional_template_html(self.content_type),
            optional_template_source(self.content_type),
        ));
    }
}

impl FilenameParam {
    /// Every part that is written unescaped is plain.
    pub open spec fn plain(&self) -> bool {
        line_terminators_plain(self.line_terminators@) && self.space0.plain()
            && self.space1.plain() && self.space2.plain() && self.value.plain()
            && self.line_terminator0.plain()
    }

    /// Without its markup, the HTML reads as the text it was written from.
    pub proof fn lemma_round_trip(self)
        requires
            self.plain(),
        ensures
            reads_as(self.html(), self.source()),
    {
        broadcast use lemma_reads_as_concat;

        reveal(FilenameParam::html);
        lemma_line_terminators_round_trip(self.line_terminators@);
        self.space0.lemma_round_trip();
        self.key.lemma_round_trip();
        self.space1.lemma_round_trip();
        lemma_char_reads_as_itself(':');
        self.space2.lemma_round_trip();
        self.value.lemma_round_trip();
        self.line_terminator0.lemma_round_trip();
    }
}

impl MultipartParam {
    /// Every part that is written unescaped is plain.
    pub open spec fn plain(&self) -> bool {
        match self {
            MultipartParam::Param(p) => p.plain(),
            MultipartParam::FilenameParam(p) => p.plain(),
        }
    }

    /// Without its markup, the HTML reads as the text it was written from.
    pub proof fn lemma_round_trip(self)
        requires
            self.plain(),
        ensures
            reads_as(self.html(), self.source()),
    {
        match self {
            MultipartParam::Param(p) => p.lemma_round_trip(),
            MultipartParam::FilenameParam(p) => p.lemma_round_trip(),
        }
    }
}

impl CookieAttribute {
    /// The attribute's name and the space around it are plain.
    pub open spec fn plain(&self) -> bool {
        self.space0.plain() && markup_free(self.name.spelling()) && self.space1.plain()
    }

    /// Without its markup, the HTML reads as the text it was written from.
    pub proof fn lemma_round_trip(self)
        requires
            self.plain(),
        ensures
            reads_as(self.html(), self.source()),
    {
        broadcast use lemma_reads_as_concat;

        reveal(CookieAttribute::html);
        self.space0.lemma_round_trip();
        lemma_markup_free_reads_as_itself(self.name.spelling());
        self.space1.lemma_round_trip();
    }
}

impl CookiePath {
    /// The cookie's name, which is not escaped, and the attribute are plain.
    pub open spec fn plain(&self) -> bool {
        markup_free(self.name.source()) && match self.attribute {
            Some(a) => a.plain(),
            None => true,
        }
    }

    /// Without its markup, the HTML reads as the text it was written from.
    pub proof fn lemma_round_trip(self)
        requires
            self.plain(),
        ensures
            reads_as(self.html(), self.source()),
    {
        broadcast use lemma_reads_as_concat, lemma_span_reads_as;

        lemma_classes_tag_safe();
        lemma_char_reads_as_itself('"');
        lemma_markup_free_reads_as_itself(self.name.source());
        match self.attribute {
            Some(a) => {
                a.lemma_round_trip();
                lemma_char_reads_as_itself('[');
                lemma_char_reads_as_itself(']');
                assert(reads_as(
                    seq!['['] + a.html() + seq![']'],
                    seq!['['] + a.source() + seq![']'],
                ));
            },
            None => lemma_reads_as_empty(),
        }
        assert(reads_as(
            bracketed_attribute_html(self.attribute),
            bracketed_attribute_source(self.attribute),
        ));
        assert(reads_as(
            seq!['"'] + self.name.source() + bracketed_attribute_html(self.attribute) + seq!['"'],
            self.source(),
        ));
    }
}

impl CertificateAttributeName {
    /// The name holds neither `<` nor `&`.
    pub proof fn lemma_name_markup_free(self)
        ensures
            markup_free(self.name()),
    {
        reveal_strlit("Subject");
        reveal_strlit("Issuer");
        reveal_strlit("Start-Date");
        reveal_strlit("Expire-Date");
        reveal_strlit("Serial-Number");
    }

    /// A certificate field's HTML reads as the quoted field.
    pub proof fn lemma_round_trip(self)
        ensures
            reads_as(self.html(), self.source()),
    {
        broadcast use lemma_reads_as_concat, lemma_span_reads_as;

        lemma_classes_tag_safe();
        lemma_char_reads_as_itself('"');
        self.lemma_name_markup_free();
        lemma_markup_free_reads_as_itself(self.name());
        assert(reads_as(seq!['"'] + self.name() + seq!['"'], self.source()));
    }
}

impl QueryValue {
    /// The keyword of a query holds neither `<` nor `&`.
    pub proof fn lemma_name_markup_free(self)
        ensures
            markup_free(self.name()),
    {
        reveal_strlit("status");
        reveal_strlit("version");
        reveal_strlit("url");
        reveal_strlit("header");
        reveal_strlit("cookie");
        reveal_strlit("body");
        reveal_strlit("xpath");
        reveal_strlit("jsonpath");
        reveal_strlit("regex");
        reveal_strlit("variable");
        reveal_strlit("duration");
        reveal_strlit("bytes");
        reveal_strlit("sha256");
        reveal_strlit("md5");
        reveal_strlit("certificate");
        reveal_strlit("ip");
        reveal_strlit("redirects");
    }

    /// The label of a query reads as the query's keyword, whatever the
    /// keyword takes.
    pub proof fn lemma_label_fidelity(self)
        ensures
            reads_as(self.label_html(), self.name()),
    {
        broadcast use lemma_span_reads_as;

        lemma_classes_tag_safe();
        self.lemma_name_markup_free();
        lemma_markup_free_reads_as_itself(self.name());
    }

    /// What the keyword takes is plain.
    pub open spec fn plain(&self) -> bool {
        match self {
            QueryValue::Header { space0, name } => space0.plain(),
            QueryValue::Cookie { space0, expr } => space0.plain() && expr.plain(),
            QueryValue::Xpath { space0, expr } => space0.plain(),
            QueryValue::Jsonpath { space0, expr } => space0.plain(),
            QueryValue::Regex { space0, value } => space0.plain() && value.plain(),
            QueryValue::Variable { space0, name } => space0.plain(),
            QueryValue::Certificate { space0, attribute_name } => space0.plain(),
            _ => true,
        }
    }

    /// Without its markup, the HTML reads as the text it was written from.
    pub proof fn lemma_argument_round_trip(self)
        requires
            self.plain(),
        ensures
            reads_as(self.argument_html(), self.argument_source()),
    {
        broadcast use lemma_reads_as_concat;

        match self {
            QueryValue::Header { space0, name } => {
                space0.lemma_round_trip();
                name.lemma_round_trip();
            },
            QueryValue::Cookie { space0, expr } => {
                space0.lemma_round_trip();
                expr.lemma_round_trip();
            },
            QueryValue::Xpath { space0, expr } => {
                space0.lemma_round_trip();
                expr.lemma_round_trip();
            },
            QueryValue::Jsonpath { space0, expr } => {
                space0.lemma_round_trip();
                expr.lemma_round_trip();
            },
            QueryValue::Regex { space0, value } => {
                space0.lemma_round_trip();
                value.lemma_round_trip();
            },
            QueryValue::Variable { space0, name } => {
                space0.lemma_round_trip();
                name.lemma_round_trip();
            },
            QueryValue::Certificate { space0, attribute_name } => {
                space0.lemma_round_trip();
                attribute_name.lemma_round_trip();
            },
            _ => lemma_reads_as_empty(),
        }
    }

    /// Without its markup, the HTML reads as the text it was written from.
    pub proof fn lemma_round_trip(self)
        requires
            self.plain(),
        ensures
            reads_as(self.html(), self.source()),
    {
        broadcast use lemma_reads_as_concat;

        reveal(QueryValue::html);
        self.lemma_label_fidelity();
        self.lemma_argument_round_trip();
    }
}

impl Query {
    /// Every part that is written unescaped is plain.
    pub open spec fn plain(&self) -> bool {
        self.value.plain()
    }

    /// Without its markup, the HTML reads as the text it was written from.
    pub proof fn lemma_round_trip(self)
        requires
            self.plain(),
        ensures
            reads_as(self.html(), self.source()),
    {
        self.value.lemma_round_trip();
    }
}

impl FilterValue {
    /// The keyword of a filter holds neither `<` nor `&`.
    pub proof fn lemma_name_markup_free(self)
        ensures
            markup_free(self.name()),
    {
        reveal_strlit("base64Decode");
        reveal_strlit("base64Encode");
        reveal_strlit("base64UrlSafeDecode");
        reveal_strlit("base64UrlSafeEncode");
        reveal_strlit("count");
        reveal_strlit("daysAfterNow");
        reveal_strlit("daysBeforeNow");
        reveal_strlit("decode");
        reveal_strlit("first");
        reveal_strlit("format");
        reveal_strlit("htmlEscape");
        reveal_strlit("htmlUnescape");
        reveal_strlit("jsonpath");
        reveal_strlit("last");
        reveal_strlit("location");
        reveal_strlit("nth");
        reveal_strlit("regex");
        reveal_strlit("replace");
        reveal_strlit("replaceRegex");
        reveal_strlit("split");
        reveal_strlit("toDate");
        reveal_strlit("toFloat");
        reveal_strlit("toHex");
        reveal_strlit("toInt");
        reveal_strlit("toString");
        reveal_strlit("urlDecode");
        reveal_strlit("urlEncode");
        reveal_strlit("urlQueryParam");
        reveal_strlit("xpath");
    }

    /// The label of a filter reads as the filter's keyword, whatever the
    /// keyword takes.
    pub proof fn lemma_label_fidelity(self)
        ensures
            reads_as(self.label_html(), self.name()),
    {
        broadcast use lemma_span_reads_as;

        lemma_classes_tag_safe();
        self.lemma_name_markup_free();
        lemma_markup_free_reads_as_itself(self.name());
    }

    /// What the keyword takes is plain.
    pub open spec fn plain(&self) -> bool {
        match self {
            FilterValue::Decode { space0, encoding } => space0.plain(),
            FilterValue::Format { space0, fmt } => space0.plain(),
            FilterValue::JsonPath { space0, expr } => space0.plain(),
            FilterValue::Nth { space0, n } => space0.plain() && markup_free(n.source()),
            FilterValue::Regex { space0, value } => space0.plain() && value.plain(),
            FilterValue::Replace { space0, old_value, space1, new_value } => space0.plain()
                && space1.plain(),
            FilterValue::ReplaceRegex { space0, pattern, space1, new_value } => space0.plain()
                && pattern.plain() && space1.plain(),
            FilterValue::Split { space0, sep } => space0.plain(),
            FilterValue::ToDate { space0, fmt } => space0.plain(),
            FilterValue::UrlQueryParam { space0, param } => space0.plain(),
            FilterValue::XPath { space0, expr } => space0.plain(),
            _ => true,
        }
    }

    /// Without its markup, the HTML reads as the text it was written from.
    pub proof fn lemma_argument_round_trip(self)
        requires
            self.plain(),
        ensures
            reads_as(self.argument_html(), self.argument_source()),
    {
        broadcast use lemma_reads_as_concat;

        match self {
            FilterValue::Decode { space0, encoding } => {
                space0.lemma_round_trip();
                encoding.lemma_round_trip();
            },
            FilterValue::Format { space0, fmt } => {
                space0.lemma_round_trip();
                fmt.lemma_round_trip();
            },
            FilterValue::JsonPath { space0, expr } => {
                space0.lemma_round_trip();
                expr.lemma_round_trip();
            },
            FilterValue::Nth { space0, n } => {
                space0.lemma_round_trip();
                lemma_number_round_trip(n.source());
            },
            FilterValue::Regex { space0, value } => {
                space0.lemma_round_trip();
                value.lemma_round_trip();
            },
            FilterValue::Replace { space0, old_value, space1, new_value } => {
                space0.lemma_round_trip();
                old_value.lemma_round_trip();
                space1.lemma_round_trip();
                new_value.lemma_round_trip();
            },
            FilterValue::ReplaceRegex { space0, pattern, space1, new_value } => {
                space0.lemma_round_trip();
                pattern.lemma_round_trip();
                space1.lemma_round_trip();
                new_value.lemma_round_trip();
            },
            FilterValue::Split { space0, sep } => {
                space0.lemma_round_trip();
                sep.lemma_round_trip();
            },
            FilterValue::ToDate { space0, fmt } => {
                space0.lemma_round_trip();
                fmt.lemma_round_trip();
            },
            FilterValue::UrlQueryParam { space0, param } => {
                space0.lemma_round_trip();
                param.lemma_round_trip();
            },
            FilterValue::XPath { space0, expr } => {
                space0.lemma_round_trip();
                expr.lemma_round_trip();
            },
            _ => lemma_reads_as_empty(),
        }
    }

    /// Without its markup, the HTML reads as the text it was written from.
    pub proof fn lemma_round_trip(self)
        requires
            self.plain(),
        ensures
            reads_as(self.html(), self.source()),
    {
        broadcast use lemma_reads_as_concat;

        reveal(FilterValue::html);
        self.lemma_label_fidelity();
        self.lemma_argument_round_trip();
    }
}

impl Filter {
    /// Every part that is written unescaped is plain.
    pub open spec fn plain(&self) -> bool {
        self.value.plain()
    }

    /// Without its markup, the HTML reads as the text it was written from.
    pub proof fn lemma_round_trip(self)
        requires
            self.plain(),
        ensures
            reads_as(self.html(), self.source()),
    {
        self.value.lemma_round_trip();
    }
}

/// Each filter of the chain, and the space before it, is plain.
pub open spec fn filters_plain(filters: Seq<(Whitespace, Filter)>) -> bool {
    forall|i: int|
        0 <= i < filters.len() ==> (#[trigger] filters[i]).0.plain() && filters[i].1.plain()
}

/// Without its markup, the HTML reads as the text it was written from.
pub proof fn lemma_filters_round_trip(filters: Seq<(Whitespace, Filter)>)
    requires
        filters_plain(filters),
    ensures
        reads_as(filters_html(filters), filters_source(filters)),
{
    let f = |pair: (Whitespace, Filter)| pair.0.html() + pair.1.html();
    let g = |pair: (Whitespace, Filter)| pair.0.source() + pair.1.source();
    assert forall|i: int| 0 <= i < filters.len() implies reads_as(
        f(#[trigger] filters[i]),
        g(filters[i]),
    ) by {
        filters[i].0.lemma_round_trip();
        filters[i].1.lemma_round_trip();
        lemma_reads_as_concat(
            filters[i].0.html(),
            filters[i].0.source(),
            filters[i].1.html(),
            filters[i].1.source(),
        );
    }
    lemma_joined_reads_as(filters, f, g);
}

impl PredicateValue {
    /// Every part that is written unescaped is plain.
    pub open spec fn plain(&self) -> bool {
        match self {
            PredicateValue::Base64(v) => v.plain(),
            PredicateValue::File(v) => v.plain(),
            PredicateValue::Hex(v) => v.plain(),
            PredicateValue::Number(v) => markup_free(v.source()),
            PredicateValue::Placeholder(v) => v.plain(),
            PredicateValue::Regex(v) => v.plain(),
            _ => true,
        }
    }

    /// Without its markup, the HTML reads as the text it was written from.
    pub proof fn lemma_round_trip(self)
        requires
            self.plain(),
        ensures
            reads_as(self.html(), self.source()),
    {
        broadcast use lemma_span_reads_as;

        match self {
            PredicateValue::Base64(v) => v.lemma_round_trip(),
            PredicateValue::Bool(v) => lemma_bool_round_trip(v),
            PredicateValue::File(v) => v.lemma_round_trip(),
            PredicateValue::Hex(v) => v.lemma_round_trip(),
            PredicateValue::MultilineString(v) => {
                lemma_classes_tag_safe();
                lemma_escape_reads_as(v.source());
            },
            PredicateValue::Null => lemma_null_round_trip(),
            PredicateValue::Number(v) => lemma_number_round_trip(v.source()),
            PredicateValue::Placeholder(v) => v.lemma_round_trip(),
            PredicateValue::Regex(v) => v.lemma_round_trip(),
            PredicateValue::String(v) => v.lemma_round_trip(),
        }
    }
}

impl PredicateFuncValue {
    /// The operator or keyword of a predicate holds no `&`.
    pub proof fn lemma_name_without_ampersand(self)
        ensures
            forall|i: int| 0 <= i < self.name().len() ==> self.name()[i] != '&',
    {
        reveal_strlit("==");
        reveal_strlit("!=");
        reveal_strlit(">");
        reveal_strlit(">=");
        reveal_strlit("<");
        reveal_strlit("<=");
        reveal_strlit("startsWith");
        reveal_strlit("endsWith");
        reveal_strlit("contains");
        reveal_strlit("includes");
        reveal_strlit("match");
        reveal_strlit("isInteger");
        reveal_strlit("isFloat");
        reveal_strlit("isBoolean");
        reveal_strlit("isString");
        reveal_strlit("isCollection");
        reveal_strlit("isDate");
        reveal_strlit("isIsoDate");
        reveal_strlit("exists");
        reveal_strlit("isEmpty");
        reveal_strlit("isNumber");
        reveal_strlit("isIpv4");
        reveal_strlit("isIpv6");
    }

    /// The label of a predicate reads as the predicate's operator or
    /// keyword, whatever it compares with.
    pub proof fn lemma_label_fidelity(self)
        ensures
            reads_as(self.label_html(), self.name()),
    {
        broadcast use lemma_span_reads_as;

        lemma_classes_tag_safe();
        self.lemma_name_without_ampersand();
        lemma_encode_angles_is_escape(self.name());
        lemma_escape_reads_as(self.name());
    }

    /// What the predicate compares with, and the space before it, is plain.
    pub open spec fn plain(&self) -> bool {
        match self {
            PredicateFuncValue::Equal { space0, value } => space0.plain() && value.plain(),
            PredicateFuncValue::NotEqual { space0, value } => space0.plain() && value.plain(),
            PredicateFuncValue::GreaterThan { space0, value } => space0.plain() && value.plain(),
            PredicateFuncValue::GreaterThanOrEqual { space0, value } => space0.plain()
                && value.plain(),
            PredicateFuncValue::LessThan { space0, value } => space0.plain() && value.plain(),
            PredicateFuncValue::LessThanOrEqual { space0, value } => space0.plain()
                && value.plain(),
            PredicateFuncValue::StartWith { space0, value } => space0.plain() && value.plain(),
            PredicateFuncValue::EndWith { space0, value } => space0.plain() && value.plain(),
            PredicateFuncValue::Contain { space0, value } => space0.plain() && value.plain(),
            PredicateFuncValue::Include { space0, value } => space0.plain() && value.plain(),
            PredicateFuncValue::Match { space0, value } => space0.plain() && value.plain(),
            _ => true,
        }
    }

    /// Without its markup, the HTML reads as the text it was written from.
    pub proof fn lemma_argument_round_trip(self)
        requires
            self.plain(),
        ensures
            reads_as(self.argument_html(), self.argument_source()),
    {
        broadcast use lemma_reads_as_concat;

        match self {
            PredicateFuncValue::Equal { space0, value } => {
                space0.lemma_round_trip();
                value.lemma_round_trip();
            },
            PredicateFuncValue::NotEqual { space0, value } => {
                space0.lemma_round_trip();
                value.lemma_round_trip();
            },
            PredicateFuncValue::GreaterThan { space0, value } => {
                space0.lemma_round_trip();
                value.lemma_round_trip();
            },
            PredicateFuncValue::GreaterThanOrEqual { space0, value } => {
                space0.lemma_round_trip();
                value.lemma_round_trip();
            },
            PredicateFuncValue::LessThan { space0, value } => {
                space0.lemma_round_trip();
                value.lemma_round_trip();
            },
            PredicateFuncValue::LessThanOrEqual { space0, value } => {
                space0.lemma_round_trip();
                value.lemma_round_trip();
            },
            PredicateFuncValue::StartWith { space0, value } => {
                space0.lemma_round_trip();
                value.lemma_round_trip();
            },
            PredicateFuncValue::EndWith { space0, value } => {
                space0.lemma_round_trip();
                value.lemma_round_trip();
            },
            PredicateFuncValue::Contain { space0, value } => {
                space0.lemma_round_trip();
                value.lemma_round_trip();
            },
            PredicateFuncValue::Include { space0, value } => {
                space0.lemma_round_trip();
                value.lemma_round_trip();
            },
            PredicateFuncValue::Match { space0, value } => {
                space0.lemma_round_trip();
                value.lemma_round_trip();
            },
            _ => lemma_reads_as_empty(),
        }
    }

    /// Without its markup, the HTML reads as the text it was written from.
    pub proof fn lemma_round_trip(self)
        requires
            self.plain(),
        ensures
            reads_as(self.html(), self.source()),
    {
        broadcast use lemma_reads_as_concat;

        reveal(PredicateFuncValue::html);
        self.lemma_label_fidelity();
        self.lemma_argument_round_trip();
    }
}

impl Predicate {
    /// The space after `not`, where there is a `not`, and the test are plain.
    pub open spec fn plain(&self) -> bool {
        (self.not ==> self.space0.plain()) && self.predicate_func.value.plain()
    }

    /// Without its markup, the HTML reads as the text it was written from.
    pub proof fn lemma_round_trip(self)
        requires
            self.plain(),
        ensures
            reads_as(self.html(), self.source()),
    {
        broadcast use lemma_reads_as_concat, lemma_span_reads_as;

        reveal(Predicate::html);
        lemma_classes_tag_safe();
        lemma_words_markup_free();
        if self.not {
            lemma_markup_free_reads_as_itself("not"@);
            self.space0.lemma_round_trip();
        } else {
            lemma_reads_as_empty();
        }
        assert(reads_as(self.negation_html(), self.negation_source()));
        self.predicate_func.value.lemma_round_trip();
    }
}

impl Capture {
    /// Every part that is written unescaped is plain.
    pub open spec fn plain(&self) -> bool {
        line_terminators_plain(self.line_terminators@) && self.space0.plain()
            && self.space1.plain() && self.space2.plain() && self.query.plain() && filters_plain(
            self.filters@,
        ) && self.space3.plain() && self.line_terminator0.plain()
    }

    /// Without its markup, the HTML reads as the text it was written from.
    pub proof fn lemma_round_trip(self)
        requires
            self.plain(),
        ensures
            reads_as(self.html(), self.source()),
    {
        broadcast use lemma_reads_as_concat;

        reveal(Capture::html);
        lemma_words_markup_free();
        lemma_line_terminators_round_trip(self.line_terminators@);
        self.space0.lemma_round_trip();
        self.name.lemma_round_trip();
        self.space1.lemma_round_trip();
        lemma_char_reads_as_itself(':');
        self.space2.lemma_round_trip();
        self.query.lemma_round_trip();
        lemma_filters_round_trip(self.filters@);
        self.space3.lemma_round_trip();
        if self.redact {
            lemma_markup_free_reads_as_itself("redact"@);
        } else {
            lemma_reads_as_empty();
        }
        assert(reads_as(self.redact_html(), self.redact_source()));
        self.line_terminator0.lemma_round_trip();
    }
}

impl Assert {
    /// Every part that is written unescaped is plain.
    pub open spec fn plain(&self) -> bool {
        line_terminators_plain(self.line_terminators@) && self.space0.plain()
            && self.query.plain() && filters_plain(self.filters@) && self.space1.plain()
            && self.predicate.plain() && self.line_terminator0.plain()
    }

    /// Without its markup, the HTML reads as the text it was written from.
    pub proof fn lemma_round_trip(self)
        requires
            self.plain(),
        ensures
            reads_as(self.html(), self.source()),
    {
        broadcast use lemma_reads_as_concat;

        reveal(Assert::html);
        lemma_line_terminators_round_trip(self.line_terminators@);
        self.space0.lemma_round_trip();
        self.query.lemma_round_trip();
        lemma_filters_round_trip(self.filters@);
        self.space1.lemma_round_trip();
        self.predicate.lemma_round_trip();
        self.line_terminator0.lemma_round_trip();
    }
}

impl SectionValue {
    /// The name of a section holds neither `<` nor `&`.
    pub proof fn lemma_name_markup_free(self)
        ensures
            markup_free(self.name()),
    {
        reveal_strlit("Asserts");
        reveal_strlit("Query");
        reveal_strlit("QueryStringParams");
        reveal_strlit("BasicAuth");
        reveal_strlit("Form");
        reveal_strlit("FormParams");
        reveal_strlit("Cookies");
        reveal_strlit("Captures");
        reveal_strlit("Multipart");
        reveal_strlit("MultipartFormData");
        reveal_strlit("Options");
    }

    /// Each line of the section is plain.
    pub open spec fn plain(&self) -> bool {
        match self {
            SectionValue::Asserts(items) => forall|i: int|
                0 <= i < items@.len() ==> (#[trigger] items@[i]).plain(),
            SectionValue::QueryParams(items, _) => key_values_plain(items@),
            SectionValue::BasicAuth(item) => match item {
                Some(kv) => kv.plain(),
                None => true,
            },
            SectionValue::FormParams(items, _) => key_values_plain(items@),
            SectionValue::MultipartFormData(items, _) => forall|i: int|
                0 <= i < items@.len() ==> (#[trigger] items@[i]).plain(),
            SectionValue::Cookies(items) => forall|i: int|
                0 <= i < items@.len() ==> (#[trigger] items@[i]).plain(),
            SectionValue::Captures(items) => forall|i: int|
                0 <= i < items@.len() ==> (#[trigger] items@[i]).plain(),
            SectionValue::Options(items) => forall|i: int|
                0 <= i < items@.len() ==> (#[trigger] items@[i]).plain(),
        }
    }

    /// Without its markup, the HTML reads as the text it was written from.
    pub proof fn lemma_round_trip(self)
        requires
            self.plain(),
        ensures
            reads_as(self.html(), self.source()),
    {
        match self {
            SectionValue::Asserts(items) => {
                let f = |item: Assert| item.html();
                let g = |item: Assert| item.source();
                assert forall|i: int| 0 <= i < items@.len() implies reads_as(
                    f(#[trigger] items@[i]),
                    g(items@[i]),
                ) by {
                    items@[i].lemma_round_trip();
                }
                lemma_joined_reads_as(items@, f, g);
            },
            SectionValue::QueryParams(items, _) => lemma_key_values_round_trip(items@),
            SectionValue::BasicAuth(item) => {
                match item {
                    Some(kv) => kv.lemma_round_trip(),
                    None => lemma_reads_as_empty(),
                }
                assert(reads_as(optional_key_value_html(item), optional_key_value_source(item)));
            },
            SectionValue::FormParams(items, _) => lemma_key_values_round_trip(items@),
            SectionValue::MultipartFormData(items, _) => {
                let f = |item: MultipartParam| item.html();
                let g = |item: MultipartParam| item.source();
                assert forall|i: int| 0 <= i < items@.len() implies reads_as(
                    f(#[trigger] items@[i]),
                    g(items@[i]),
                ) by {
                    items@[i].lemma_round_trip();
                }
                lemma_joined_reads_as(items@, f, g);
            },
            SectionValue::Cookies(items) => {
                let f = |item: Cookie| item.html();
                let g = |item: Cookie| item.source();
                assert forall|i: int| 0 <= i < items@.len() implies reads_as(
                    f(#[trigger] items@[i]),
                    g(items@[i]),
                ) by {
                    items@[i].lemma_round_trip();
                }
                lemma_joined_reads_as(items@, f, g);
            },
            SectionValue::Captures(items) => {
                let f = |item: Capture| item.html();
                let g = |item: Capture| item.source();
                assert forall|i: int| 0 <= i < items@.len() implies reads_as(
                    f(#[trigger] items@[i]),
                    g(items@[i]),
                ) by {
                    items@[i].lemma_round_trip();
                }
                lemma_joined_reads_as(items@, f, g);
            },
            SectionValue::Options(items) => {
                let f = |item: EntryOption| item.html();
                let g = |item: EntryOption| item.source();
                assert forall|i: int| 0 <= i < items@.len() implies reads_as(
                    f(#[trigger] items@[i]),
                    g(items@[i]),
                ) by {
                    items@[i].lemma_round_trip();
                }
                lemma_joined_reads_as(items@, f, g);
            },
        }
    }
}

impl Section {
    /// The label of a section reads as the section's name between brackets,
    /// whatever lines the section holds.
    pub proof fn lemma_label_fidelity(self)
        ensures
            reads_as(self.label_html(), self.header()),
    {
        broadcast use lemma_reads_as_concat, lemma_span_reads_as;

        lemma_classes_tag_safe();
        self.value.lemma_name_markup_free();
        lemma_markup_free_reads_as_itself(self.value.name());
        lemma_char_reads_as_itself('[');
        lemma_char_reads_as_itself(']');
        assert(reads_as(self.header(), self.header()));
    }

    /// Every part that is written unescaped is plain.
    pub open spec fn plain(&self) -> bool {
        line_terminators_plain(self.line_terminators@) && self.space0.plain()
            && self.line_terminator0.plain() && self.value.plain()
    }

    /// Without its markup, the HTML reads as the text it was written from.
    pub proof fn lemma_round_trip(self)
        requires
            self.plain(),
        ensures
            reads_as(self.html(), self.source()),
    {
        broadcast use lemma_reads_as_concat;

        reveal(Section::html);
        lemma_line_terminators_round_trip(self.line_terminators@);
        self.space0.lemma_round_trip();
        self.lemma_label_fidelity();
        self.line_terminator0.lemma_round_trip();
        self.value.lemma_round_trip();
    }
}

/// Each of the sections is plain.
pub open spec fn sections_plain(sections: Seq<Section>) -> bool {
    forall|i: int| 0 <= i < sections.len() ==> (#[trigger] sections[i]).plain()
}

/// Without its markup, the HTML reads as the text it was written from.
pub proof fn lemma_sections_round_trip(sections: Seq<Section>)
    requires
        sections_plain(sections),
    ensures
        reads_as(
            joined(sections, |s: Section| s.html()),
            joined(sections, |s: Section| s.source()),
        ),
{
    let f = |s: Section| s.html();
    let g = |s: Section| s.source();
    assert forall|i: int| 0 <= i < sections.len() implies reads_as(
        f(#[trigger] sections[i]),
        g(sections[i]),
    ) by {
        sections[i].lemma_round_trip();
    }
    lemma_joined_reads_as(sections, f, g);
}

impl Bytes {
    /// Every part that is written unescaped is plain.
    pub open spec fn plain(&self) -> bool {
        match self {
            Bytes::Base64(v) => v.plain(),
            Bytes::File(v) => v.plain(),
            Bytes::Hex(v) => v.plain(),
            _ => true,
        }
    }

    /// Without its markup, the HTML reads as the text it was written from.
    pub proof fn lemma_round_trip(self)
        requires
            self.plain(),
        ensures
            reads_as(self.html(), self.source()),
    {
        broadcast use lemma_span_reads_as;

        lemma_classes_tag_safe();
        match self {
            Bytes::Json(v) => lemma_escape_reads_as(v.source()),
            Bytes::Xml(v) => lemma_xml_round_trip(v@),
            Bytes::MultilineString(v) => lemma_escape_reads_as(v.source()),
            Bytes::OnelineString(v) => v.lemma_round_trip(),
            Bytes::Base64(v) => v.lemma_round_trip(),
            Bytes::File(v) => v.lemma_round_trip(),
            Bytes::Hex(v) => v.lemma_round_trip(),
        }
    }
}

impl Body {
    /// Every part that is written unescaped is plain.
    pub open spec fn plain(&self) -> bool {
        line_terminators_plain(self.line_terminators@) && self.space0.plain()
            && self.value.plain() && self.line_terminator0.plain()
    }

    /// Without its markup, the HTML reads as the text it was written from.
    pub proof fn lemma_round_trip(self)
        requires
            self.plain(),
        ensures
            reads_as(self.html(), self.source()),
    {
        broadcast use lemma_reads_as_concat;

        reveal(Body::html);
        lemma_line_terminators_round_trip(self.line_terminators@);
        self.space0.lemma_round_trip();
        self.value.lemma_round_trip();
        self.line_terminator0.lemma_round_trip();
    }
}

/// The body, where there is one, is plain.
pub open spec fn optional_body_plain(body: Option<Body>) -> bool {
    match body {
        Some(b) => b.plain(),
        None => true,
    }
}

/// Without its markup, the HTML reads as the text it was written from.
pub proof fn lemma_optional_body_round_trip(body: Option<Body>)
    requires
        optional_body_plain(body),
    ensures
        reads_as(optional_body_html(body), optional_body_source(body)),
{
    match body {
        Some(b) => b.lemma_round_trip(),
        None => lemma_reads_as_empty(),
    }
}

impl Method {
    /// The method holds neither `<` nor `&`.
    pub open spec fn plain(&self) -> bool {
        markup_free(self.source())
    }

    /// Without its markup, the HTML reads as the text it was written from.
    pub proof fn lemma_round_trip(self)
        requires
            self.plain(),
        ensures
            reads_as(self.html(), self.source()),
    {
        broadcast use lemma_span_reads_as;

        lemma_classes_tag_safe();
        lemma_markup_free_reads_as_itself(self.source());
    }
}

impl Version {
    /// A version's HTML reads as the version.
    pub proof fn lemma_round_trip(self)
        ensures
            reads_as(self.html(), self.source()),
    {
        broadcast use lemma_span_reads_as;

        reveal_strlit("HTTP/1.0");
        reveal_strlit("HTTP/1.1");
        reveal_strlit("HTTP/2");
        reveal_strlit("HTTP/3");
        reveal_strlit("HTTP");
        lemma_classes_tag_safe();
        lemma_markup_free_reads_as_itself(self.source());
    }
}

impl Status {
    /// A status's HTML reads as the status.
    pub proof fn lemma_round_trip(self)
        ensures
            reads_as(self.html(), self.source()),
    {
        match self.value {
            StatusValue::Any => {},
            StatusValue::Specific(code) => lemma_decimal_markup_free(code as nat),
        }
        lemma_number_round_trip(self.source());
    }
}

impl Request {
    /// Every part that is written unescaped is plain.
    pub open spec fn plain(&self) -> bool {
        line_terminators_plain(self.line_terminators@) && self.space0.plain()
            && self.method.plain() && self.space1.plain() && self.line_terminator0.plain()
            && key_values_plain(self.headers@) && sections_plain(self.sections@)
            && optional_body_plain(self.body)
    }

    /// Without its markup, the HTML reads as the text it was written from.
    pub proof fn lemma_round_trip(self)
        requires
            self.plain(),
        ensures
            reads_as(self.html(), self.source()),
    {
        broadcast use lemma_reads_as_concat, lemma_span_reads_as;

        reveal(Request::html);
        reveal(Request::inner_html);
        lemma_classes_tag_safe();
        lemma_line_terminators_round_trip(self.line_terminators@);
        self.space0.lemma_round_trip();
        self.method.lemma_round_trip();
        self.space1.lemma_round_trip();
        lemma_escape_reads_as(self.url.source());
        self.line_terminator0.lemma_round_trip();
        lemma_key_values_round_trip(self.headers@);
        lemma_sections_round_trip(self.sections@);
        lemma_optional_body_round_trip(self.body);
        assert(reads_as(self.inner_html(), self.source()));
    }
}

impl Response {
    /// Every part that is written unescaped is plain.
    pub open spec fn plain(&self) -> bool {
        line_terminators_plain(self.line_terminators@) && self.space0.plain()
            && self.space1.plain() && self.line_terminator0.plain() && key_values_plain(
            self.headers@,
        ) && sections_plain(self.sections@) && optional_body_plain(self.body)
    }

    /// Without its markup, the HTML reads as the text it was written from.
    pub proof fn lemma_round_trip(self)
        requires
            self.plain(),
        ensures
            reads_as(self.html(), self.source()),
    {
        broadcast use lemma_reads_as_concat, lemma_span_reads_as;

        reveal(Response::html);
        reveal(Response::inner_html);
        lemma_classes_tag_safe();
        lemma_line_terminators_round_trip(self.line_terminators@);
        self.space0.lemma_round_trip();
        self.version.lemma_round_trip();
        self.space1.lemma_round_trip();
        self.status.lemma_round_trip();
        self.line_terminator0.lemma_round_trip();
        lemma_key_values_round_trip(self.headers@);
        lemma_sections_round_trip(self.sections@);
        lemma_optional_body_round_trip(self.body);
        assert(reads_as(self.inner_html(), self.source()));
    }
}

impl Entry {
    /// Every part that is written unescaped is plain.
    pub open spec fn plain(&self) -> bool {
        self.request.plain() && match self.response {
            Some(r) => r.plain(),
            None => true,
        }
    }

    /// Without its markup, the HTML reads as the text it was written from.
    pub proof fn lemma_round_trip(self)
        requires
            self.plain(),
        ensures
            reads_as(self.html(), self.source()),
    {
        broadcast use lemma_reads_as_concat, lemma_span_reads_as;

        reveal(Entry::html);
        lemma_classes_tag_safe();
        self.request.lemma_round_trip();
        match self.response {
            Some(r) => r.lemma_round_trip(),
            None => lemma_reads_as_empty(),
        }
        assert(reads_as(
            optional_response_html(self.response),
            optional_response_source(self.response),
        ));
        assert(reads_as(
            self.request.html() + optional_response_html(self.response),
            self.source(),
        ));
    }
}

impl HurlFile {
    /// Every part of the file that the renderer writes unescaped is plain:
    /// it holds neither `<` nor `&`, and each file name is spelled with a
    /// backslash before each space and no other escape.
    pub open spec fn plain(&self) -> bool {
        (forall|i: int| 0 <= i < self.entries@.len() ==> (#[trigger] self.entries@[i]).plain())
            && line_terminators_plain(self.line_terminators@)
    }

    /// Round trip: without its markup, the HTML of a file is the text of the
    /// file.
    pub proof fn lemma_round_trip(self)
        requires
            self.plain(),
        ensures
            reads_as(self.html(), self.source()),
            crate::markup::strip_markup(self.html()) == self.source(),
    {
        broadcast use lemma_reads_as_concat;

        reveal(HurlFile::html);
        reveal(HurlFile::inner_html);
        lemma_classes_tag_safe();
        let f = |e: Entry| e.html();
        let g = |e: Entry| e.source();
        assert forall|i: int| 0 <= i < self.entries@.len() implies reads_as(
            f(#[trigger] self.entries@[i]),
            g(self.entries@[i]),
        ) by {
            self.entries@[i].lemma_round_trip();
        }
        lemma_joined_reads_as(self.entries@, f, g);
        lemma_line_terminators_round_trip(self.line_terminators@);
        assert(reads_as(self.inner_html(), self.source()));
        lemma_pre_reads_as("language-hurl"@, self.inner_html(), self.source());
    }

    /// No text is escaped twice: where the doubled entity `&amp;amp;` stands
    /// in the HTML of a plain file, the entity `&amp;` stood in the file. So
    /// the HTML of a plain file without `&amp;` holds no `&amp;amp;`.
    pub proof fn lemma_doubled_entity_was_entity(self)
        requires
            self.plain(),
        ensures
            contains(self.html(), doubled_amp_entity()) ==> contains(self.source(), amp_entity()),
    {
        self.lemma_round_trip();
        if !contains(self.source(), amp_entity()) {
            lemma_no_entity_no_doubled_entity(self.html(), self.source());
        }
    }
}

} // verus!
