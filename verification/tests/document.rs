use hurl_html::ast::file::{
    Body, Bytes, Entry, HurlFile, Method, Request, Response, Status, StatusValue, Version,
    VersionValue,
};
use hurl_html::ast::filter::{Filter, FilterValue};
use hurl_html::ast::json::{JsonListElement, JsonObjectElement, JsonValue};
use hurl_html::ast::multiline::{
    GraphQl, GraphQlVariables, MultilineString, MultilineStringAttribute, MultilineStringKind,
};
use hurl_html::ast::option::{
    BooleanOption, CountOption, DurationOption, EntryOption, NaturalOption, OptionKind,
    VariableDefinition, VariableValue,
};
use hurl_html::ast::predicate::{Predicate, PredicateFunc, PredicateFuncValue, PredicateValue};
use hurl_html::ast::primitive::{Comment, LineTerminator, Pos, SourceInfo, Whitespace};
use hurl_html::ast::query::{
    CertificateAttributeName, CookieAttribute, CookieAttributeName, CookiePath, Query, QueryValue,
    RegexValue,
};
use hurl_html::ast::section::{
    Assert, Capture, Cookie, FilenameParam, FilenameValue, KeyValue, MultipartParam, Section,
    SectionValue,
};
use hurl_html::ast::template::{
    Expr, ExprKind, Function, Placeholder, Template, TemplateElement, Variable,
};
use hurl_html::ast::value::{
    Base64, Count, Duration, DurationUnit, File, Float, Hex, Number, Regex, I64, U64,
};
use hurl_html::format::html::HtmlFormatter;
use hurl_html::format::style::{hurl_css, HURL_CSS};
use hurl_html::markup::strip_tags;
use hurl_html::text::{
    backslash_spaces, bool_str, chars_of, decimal_string, encode_html, escape_xml, push_decimal,
};

fn render(file: &HurlFile, standalone: bool) -> String {
    hurl_html::format::html::format(file, standalone)
}

fn at() -> SourceInfo {
    SourceInfo::new(Pos::new(1, 1), Pos::new(1, 1))
}

fn ws(value: &str) -> Whitespace {
    Whitespace {
        value: value.to_string(),
        source_info: at(),
    }
}

fn lt(newline: &str) -> LineTerminator {
    LineTerminator {
        space0: ws(""),
        comment: None,
        newline: ws(newline),
    }
}

fn lt_with_comment(space: &str, comment: &str, newline: &str) -> LineTerminator {
    LineTerminator {
        space0: ws(space),
        comment: Some(Comment {
            value: comment.to_string(),
            source_info: at(),
        }),
        newline: ws(newline),
    }
}

fn literal(value: &str, source: &str) -> TemplateElement {
    TemplateElement::String {
        value: value.to_string(),
        source: source.to_string(),
    }
}

fn text(value: &str) -> Template {
    Template::new(None, vec![literal(value, value)], at())
}

fn quoted(value: &str) -> Template {
    Template::new(Some('"'), vec![literal(value, value)], at())
}

fn variable(name: &str, space0: &str, space1: &str) -> Placeholder {
    Placeholder {
        space0: ws(space0),
        expr: Expr {
            kind: ExprKind::Variable(Variable {
                name: name.to_string(),
                source_info: at(),
            }),
            source_info: at(),
        },
        space1: ws(space1),
    }
}

fn kv(key: &str, value: &str) -> KeyValue {
    KeyValue {
        line_terminators: vec![],
        space0: ws(""),
        key: text(key),
        space1: ws(""),
        space2: ws(" "),
        value: text(value),
        line_terminator0: lt("\n"),
    }
}

fn query(value: QueryValue) -> Query {
    Query {
        source_info: at(),
        value,
    }
}

fn filter(value: FilterValue) -> Filter {
    Filter {
        source_info: at(),
        value,
    }
}

fn predicate(not: bool, value: PredicateFuncValue) -> Predicate {
    Predicate {
        not,
        space0: ws(" "),
        predicate_func: PredicateFunc {
            source_info: at(),
            value,
        },
    }
}

fn section(value: SectionValue) -> Section {
    Section {
        line_terminators: vec![],
        space0: ws(""),
        line_terminator0: lt("\n"),
        value,
        source_info: at(),
    }
}

fn option(kind: OptionKind) -> EntryOption {
    EntryOption {
        line_terminators: vec![],
        space0: ws(""),
        space1: ws(""),
        space2: ws(" "),
        kind,
        line_terminator0: lt("\n"),
    }
}

fn request(method: &str, url: &str) -> Request {
    Request {
        line_terminators: vec![],
        space0: ws(""),
        method: Method::new(method),
        space1: ws(" "),
        url: text(url),
        line_terminator0: lt("\n"),
        headers: vec![],
        sections: vec![],
        body: None,
        source_info: at(),
    }
}

fn response(version: VersionValue, status: StatusValue) -> Response {
    Response {
        line_terminators: vec![],
        space0: ws(""),
        version: Version {
            value: version,
            source_info: at(),
        },
        space1: ws(" "),
        status: Status {
            value: status,
            source_info: at(),
        },
        line_terminator0: lt("\n"),
        headers: vec![],
        sections: vec![],
        body: None,
        source_info: at(),
    }
}

fn rendered(write: impl FnOnce(&mut HtmlFormatter)) -> String {
    let mut fmt = HtmlFormatter::new();
    write(&mut fmt);
    fmt.buffer
}

/// A file that uses most of the language.
fn sample_file() -> (HurlFile, String) {
    let mut req = request("POST", "http://localhost:8000/a?x=1&y=<2>");
    req.line_terminators = vec![lt_with_comment("", " first <entry> & more", "\n"), lt("\n")];
    req.headers = vec![kv("Accept", "text/html; q=0.9 <any>")];
    req.sections = vec![
        section(SectionValue::QueryParams(vec![kv("q", "a&b")], true)),
        section(SectionValue::Options(vec![
            option(OptionKind::Retry(CountOption::Literal(Count::Infinite))),
            option(OptionKind::Delay(DurationOption::Literal(Duration {
                value: U64::new(500, "500".to_string()),
                unit: Some(DurationUnit::MilliSecond),
            }))),
            option(OptionKind::Output(Template::new(
                None,
                vec![literal("my file.bin", "my\\ file.bin")],
                at(),
            ))),
            option(OptionKind::Verbose(BooleanOption::Placeholder(variable(
                "debug", " ", " ",
            )))),
        ])),
    ];
    req.body = Some(Body {
        line_terminators: vec![],
        space0: ws(""),
        value: Bytes::Json(JsonValue::Object {
            space0: "".to_string(),
            elements: vec![JsonObjectElement {
                space0: " ".to_string(),
                name: quoted("tag"),
                space1: "".to_string(),
                space2: " ".to_string(),
                value: JsonValue::String(quoted("<b>")),
                space3: " ".to_string(),
            }],
        }),
        line_terminator0: lt("\n"),
    });
    let mut resp = response(VersionValue::Version11, StatusValue::Specific(200));
    resp.sections = vec![
        section(SectionValue::Captures(vec![Capture {
            line_terminators: vec![],
            space0: ws(""),
            name: text("token"),
            space1: ws(""),
            space2: ws(" "),
            query: query(QueryValue::Jsonpath {
                space0: ws(" "),
                expr: quoted("$.token"),
            }),
            filters: vec![(ws(" "), filter(FilterValue::ToInt))],
            space3: ws(" "),
            redact: true,
            line_terminator0: lt("\n"),
        }])),
        section(SectionValue::Asserts(vec![Assert {
            line_terminators: vec![],
            space0: ws(""),
            query: query(QueryValue::Duration),
            filters: vec![],
            space1: ws(" "),
            predicate: predicate(
                false,
                PredicateFuncValue::LessThanOrEqual {
                    space0: ws(" "),
                    value: PredicateValue::Number(Number::Integer(I64::new(
                        1000,
                        "1000".to_string(),
                    ))),
                },
            ),
            line_terminator0: lt("\n"),
        }])),
    ];
    let file = HurlFile {
        entries: vec![Entry {
            request: req,
            response: Some(resp),
        }],
        line_terminators: vec![lt_with_comment("", " end", "")],
    };
    let source = "# first <entry> & more\n\nPOST http://localhost:8000/a?x=1&y=<2>\n\
Accept: text/html; q=0.9 <any>\n\
[Query]\nq: a&b\n\
[Options]\nretry: -1\ndelay: 500ms\noutput: my\\ file.bin\nverbose: {{ debug }}\n\
{ \"tag\": \"<b>\" }\n\
HTTP/1.1 200\n\
[Captures]\ntoken: jsonpath \"$.token\" toInt redact\n\
[Asserts]\nduration <= 1000\n\
# end";
    (file, source.to_string())
}

#[test]
fn round_trip_of_a_file() {
    let (file, source) = sample_file();
    let html = render(&file, false);
    assert_ne!(html, source);
    assert_eq!(strip_tags(&html), source);
}

#[test]
fn round_trip_through_the_formatter() {
    let (file, source) = sample_file();
    let mut fmt = HtmlFormatter::new();
    fmt.buffer.push_str("left over");
    let html = fmt.fmt_hurl_file(&file).to_string();
    assert_eq!(html, render(&file, false));
    assert_eq!(fmt.buffer, html);
    assert_eq!(strip_tags(&html), source);
}

#[test]
fn html_of_a_small_file() {
    let file = HurlFile {
        entries: vec![Entry {
            request: request("GET", "http://example.org"),
            response: Some(response(VersionValue::VersionAny, StatusValue::Any)),
        }],
        line_terminators: vec![],
    };
    assert_eq!(
        render(&file, false),
        "<pre><code class=\"language-hurl\"><span class=\"entry\"><span class=\"request\">\
<span class=\"method\">GET</span> <span class=\"url\">http://example.org</span>\n</span>\
<span class=\"response\"><span class=\"version\">HTTP</span> <span class=\"number\">*</span>\n\
</span></span></code></pre>"
    );
}

#[test]
fn html_of_an_empty_file() {
    let file = HurlFile {
        entries: vec![],
        line_terminators: vec![],
    };
    assert_eq!(
        render(&file, false),
        "<pre><code class=\"language-hurl\"></code></pre>"
    );
    assert_eq!(strip_tags(&render(&file, false)), "");
}

#[test]
fn standalone_page() {
    let file = HurlFile {
        entries: vec![],
        line_terminators: vec![lt("\n")],
    };
    let body = render(&file, false);
    let page = render(&file, true);
    let expected = format!(
        "<!DOCTYPE html>\n<html>\n    <head>\n        <meta charset=\"utf-8\">\n        \
<title>Hurl File</title>\n        <style>\n{}\n        </style>\n    </head>\n    <body>\n{}\n    \
</body>\n</html>\n",
        hurl_css(),
        body
    );
    assert_eq!(page, expected);
}

#[test]
fn stylesheet() {
    let css = hurl_css();
    assert_eq!(css, HURL_CSS);
    assert!(css.contains(".language-hurl .comment"));
    assert!(css.contains(".language-hurl .section-header"));
}

#[test]
fn escape_once_and_twice() {
    assert_eq!(escape_xml("a&b"), "a&amp;b");
    assert_eq!(escape_xml(&escape_xml("a&b")), "a&amp;amp;b");
    assert_eq!(escape_xml("<>"), "&lt;&gt;");
    assert_eq!(escape_xml(&escape_xml("<>")), "&amp;lt;&amp;gt;");
    // once escaped, the text comes back; twice escaped, the escaped text
    assert_eq!(strip_tags(&escape_xml("a&b<c>")), "a&b<c>");
    assert_eq!(strip_tags(&escape_xml(&escape_xml("a&b<c>"))), "a&amp;b&lt;c&gt;");
    // text that was `&amp;` in the document stays apart from an escaped `&`
    assert_eq!(escape_xml("&amp;"), "&amp;amp;");
    assert_eq!(strip_tags(&escape_xml("&amp;")), "&amp;");
    // without special characters escaping changes nothing, however often
    assert_eq!(escape_xml("plain text"), "plain text");
    assert_eq!(escape_xml(&escape_xml("plain text")), "plain text");
    assert_eq!(escape_xml(""), "");
}

#[test]
fn escape_leaves_quotes_and_other_scripts() {
    assert_eq!(escape_xml("\"it's\""), "\"it's\"");
    assert_eq!(escape_xml("caf\u{e9} \u{1F600} <"), "caf\u{e9} \u{1F600} &lt;");
}

#[test]
fn encode_html_leaves_ampersand() {
    assert_eq!(encode_html("<="), "&lt;=");
    assert_eq!(encode_html(">"), "&gt;");
    assert_eq!(encode_html("a&b"), "a&b");
    assert_eq!(encode_html("contains"), "contains");
}

#[test]
fn strip_tags_on_markup() {
    assert_eq!(strip_tags("<span class=\"a\">x</span>"), "x");
    assert_eq!(strip_tags("a<b>c</b>d"), "acd");
    assert_eq!(strip_tags("&amp;&lt;&gt;"), "&<>");
    assert_eq!(strip_tags("&amp;lt;"), "&lt;");
    assert_eq!(strip_tags("1 > 0"), "1 > 0");
    assert_eq!(strip_tags(""), "");
}

#[test]
fn strip_tags_on_broken_markup() {
    // an `&` that starts no entity stays
    assert_eq!(strip_tags("a & b"), "a & b");
    assert_eq!(strip_tags("&am"), "&am");
    assert_eq!(strip_tags("&"), "&");
    assert_eq!(strip_tags("&lt"), "&lt");
    // a tag that never ends takes the rest with it
    assert_eq!(strip_tags("a<b"), "a");
    // inside a tag nothing is decoded
    assert_eq!(strip_tags("<a title=\"&amp;\">x"), "x");
}

#[test]
fn query_labels() {
    let bare = [
        (QueryValue::Status, "status"),
        (QueryValue::Version, "version"),
        (QueryValue::Url, "url"),
        (QueryValue::Body, "body"),
        (QueryValue::Duration, "duration"),
        (QueryValue::Bytes, "bytes"),
        (QueryValue::Sha256, "sha256"),
        (QueryValue::Md5, "md5"),
        (QueryValue::Ip, "ip"),
        (QueryValue::Redirects, "redirects"),
    ];
    for (value, name) in bare {
        assert_eq!(value.identifier(), name);
        assert_eq!(
            rendered(|f| f.fmt_query_value(&value)),
            format!("<span class=\"query-type\">{name}</span>")
        );
    }
    let with_template = [
        (
            QueryValue::Header {
                space0: ws(" "),
                name: quoted("Location"),
            },
            "header",
        ),
        (
            QueryValue::Xpath {
                space0: ws(" "),
                expr: quoted("Location"),
            },
            "xpath",
        ),
        (
            QueryValue::Jsonpath {
                space0: ws(" "),
                expr: quoted("Location"),
            },
            "jsonpath",
        ),
        (
            QueryValue::Variable {
                space0: ws(" "),
                name: quoted("Location"),
            },
            "variable",
        ),
        (
            QueryValue::Regex {
                space0: ws(" "),
                value: RegexValue::Template(quoted("Location")),
            },
            "regex",
        ),
    ];
    for (value, name) in with_template {
        assert_eq!(
            rendered(|f| f.fmt_query_value(&value)),
            format!(
                "<span class=\"query-type\">{name}</span> <span class=\"string\">\"Location\"</span>"
            )
        );
    }
}

#[test]
fn query_label_does_not_depend_on_payload() {
    let one = QueryValue::Regex {
        space0: ws(" "),
        value: RegexValue::Template(quoted("a")),
    };
    let other = QueryValue::Regex {
        space0: ws("\t\t"),
        value: RegexValue::Regex(Regex {
            source: "/b+/".to_string(),
        }),
    };
    let label = "<span class=\"query-type\">regex</span>";
    assert!(rendered(|f| f.fmt_query_value(&one)).starts_with(label));
    assert!(rendered(|f| f.fmt_query_value(&other)).starts_with(label));
    assert_eq!(
        rendered(|f| f.fmt_query_value(&other)),
        "<span class=\"query-type\">regex</span>\t\t<span class=\"regex\">/b+/</span>"
    );
}

#[test]
fn certificate_query() {
    let names = [
        (CertificateAttributeName::Subject, "Subject"),
        (CertificateAttributeName::Issuer, "Issuer"),
        (CertificateAttributeName::StartDate, "Start-Date"),
        (CertificateAttributeName::ExpireDate, "Expire-Date"),
        (CertificateAttributeName::SerialNumber, "Serial-Number"),
    ];
    for (attribute_name, name) in names {
        let value = QueryValue::Certificate {
            space0: ws(" "),
            attribute_name,
        };
        assert_eq!(
            rendered(|f| f.fmt_query(&query(value.clone()))),
            format!(
                "<span class=\"query-type\">certificate</span> <span class=\"string\">\"{name}\"</span>"
            )
        );
    }
}

#[test]
fn cookie_path() {
    let plain = CookiePath {
        name: text("LSID"),
        attribute: None,
    };
    assert_eq!(
        rendered(|f| f.fmt_cookie_path(&plain)),
        "<span class=\"string\">\"LSID\"</span>"
    );
    let with_attribute = CookiePath {
        name: text("LSID"),
        attribute: Some(CookieAttribute {
            space0: ws(" "),
            name: CookieAttributeName::MaxAge("Max-Age".to_string()),
            space1: ws("  "),
        }),
    };
    assert_eq!(
        rendered(|f| f.fmt_cookie_path(&with_attribute)),
        "<span class=\"string\">\"LSID[ Max-Age  ]\"</span>"
    );
    let value = QueryValue::Cookie {
        space0: ws(" "),
        expr: with_attribute,
    };
    assert_eq!(
        rendered(|f| f.fmt_query_value(&value)),
        "<span class=\"query-type\">cookie</span> <span class=\"string\">\"LSID[ Max-Age  ]\"</span>"
    );
}

#[test]
fn cookie_attribute_names() {
    let names = [
        CookieAttributeName::Value("Value".to_string()),
        CookieAttributeName::Expires("Expires".to_string()),
        CookieAttributeName::MaxAge("max-age".to_string()),
        CookieAttributeName::Domain("Domain".to_string()),
        CookieAttributeName::Path("Path".to_string()),
        CookieAttributeName::Secure("Secure".to_string()),
        CookieAttributeName::HttpOnly("HttpOnly".to_string()),
        CookieAttributeName::SameSite("SameSite".to_string()),
    ];
    let spelled = [
        "Value", "Expires", "max-age", "Domain", "Path", "Secure", "HttpOnly", "SameSite",
    ];
    for (name, spelling) in names.iter().zip(spelled) {
        assert_eq!(name.value(), spelling);
    }
}

#[test]
fn filter_labels() {
    let bare = [
        (FilterValue::Base64Decode, "base64Decode"),
        (FilterValue::Base64Encode, "base64Encode"),
        (FilterValue::Base64UrlSafeDecode, "base64UrlSafeDecode"),
        (FilterValue::Base64UrlSafeEncode, "base64UrlSafeEncode"),
        (FilterValue::Count, "count"),
        (FilterValue::DaysAfterNow, "daysAfterNow"),
        (FilterValue::DaysBeforeNow, "daysBeforeNow"),
        (FilterValue::First, "first"),
        (FilterValue::HtmlEscape, "htmlEscape"),
        (FilterValue::HtmlUnescape, "htmlUnescape"),
        (FilterValue::Last, "last"),
        (FilterValue::Location, "location"),
        (FilterValue::ToFloat, "toFloat"),
        (FilterValue::ToHex, "toHex"),
        (FilterValue::ToInt, "toInt"),
        (FilterValue::ToString, "toString"),
        (FilterValue::UrlDecode, "urlDecode"),
        (FilterValue::UrlEncode, "urlEncode"),
    ];
    for (value, name) in bare {
        assert_eq!(value.identifier(), name);
        assert_eq!(
            rendered(|f| f.fmt_filter(&filter(value.clone()))),
            format!("<span class=\"filter-type\">{name}</span>")
        );
    }
    let with_template = [
        (
            FilterValue::Decode {
                space0: ws(" "),
                encoding: quoted("x"),
            },
            "decode",
        ),
        (
            FilterValue::Format {
                space0: ws(" "),
                fmt: quoted("x"),
            },
            "format",
        ),
        (
            FilterValue::JsonPath {
                space0: ws(" "),
                expr: quoted("x"),
            },
            "jsonpath",
        ),
        (
            FilterValue::Split {
                space0: ws(" "),
                sep: quoted("x"),
            },
            "split",
        ),
        (
            FilterValue::ToDate {
                space0: ws(" "),
                fmt: quoted("x"),
            },
            "toDate",
        ),
        (
            FilterValue::UrlQueryParam {
                space0: ws(" "),
                param: quoted("x"),
            },
            "urlQueryParam",
        ),
        (
            FilterValue::XPath {
                space0: ws(" "),
                expr: quoted("x"),
            },
            "xpath",
        ),
        (
            FilterValue::Regex {
                space0: ws(" "),
                value: RegexValue::Template(quoted("x")),
            },
            "regex",
        ),
    ];
    for (value, name) in with_template {
        assert_eq!(
            rendered(|f| f.fmt_filter_value(&value)),
            format!("<span class=\"filter-type\">{name}</span> <span class=\"string\">\"x\"</span>")
        );
    }
}

#[test]
fn filters_with_two_arguments() {
    let replace = FilterValue::Replace {
        space0: ws(" "),
        old_value: quoted("a"),
        space1: ws("  "),
        new_value: quoted("<b>"),
    };
    assert_eq!(
        rendered(|f| f.fmt_filter_value(&replace)),
        "<span class=\"filter-type\">replace</span> <span class=\"string\">\"a\"</span>  \
<span class=\"string\">\"&lt;b&gt;\"</span>"
    );
    let replace_regex = FilterValue::ReplaceRegex {
        space0: ws(" "),
        pattern: RegexValue::Regex(Regex {
            source: "/\\d+/".to_string(),
        }),
        space1: ws(" "),
        new_value: quoted("n"),
    };
    assert_eq!(
        rendered(|f| f.fmt_filter_value(&replace_regex)),
        "<span class=\"filter-type\">replaceRegex</span> <span class=\"regex\">/\\d+/</span> \
<span class=\"string\">\"n\"</span>"
    );
    let nth = FilterValue::Nth {
        space0: ws(" "),
        n: I64::new(-2, "-2".to_string()),
    };
    assert_eq!(
        rendered(|f| f.fmt_filter_value(&nth)),
        "<span class=\"filter-type\">nth</span> <span class=\"number\">-2</span>"
    );
}

#[test]
fn predicate_labels() {
    let with_value: Vec<(fn(Whitespace, PredicateValue) -> PredicateFuncValue, &str, &str)> = vec![
        (|space0, value| PredicateFuncValue::Equal { space0, value }, "==", "=="),
        (|space0, value| PredicateFuncValue::NotEqual { space0, value }, "!=", "!="),
        (|space0, value| PredicateFuncValue::GreaterThan { space0, value }, ">", "&gt;"),
        (
            |space0, value| PredicateFuncValue::GreaterThanOrEqual { space0, value },
            ">=",
            "&gt;=",
        ),
        (|space0, value| PredicateFuncValue::LessThan { space0, value }, "<", "&lt;"),
        (
            |space0, value| PredicateFuncValue::LessThanOrEqual { space0, value },
            "<=",
            "&lt;=",
        ),
        (
            |space0, value| PredicateFuncValue::StartWith { space0, value },
            "startsWith",
            "startsWith",
        ),
        (
            |space0, value| PredicateFuncValue::EndWith { space0, value },
            "endsWith",
            "endsWith",
        ),
        (
            |space0, value| PredicateFuncValue::Contain { space0, value },
            "contains",
            "contains",
        ),
        (
            |space0, value| PredicateFuncValue::Include { space0, value },
            "includes",
            "includes",
        ),
        (|space0, value| PredicateFuncValue::Match { space0, value }, "match", "match"),
    ];
    for (make, name, label) in with_value {
        let value = make(ws(" "), PredicateValue::Null);
        assert_eq!(value.identifier(), name);
        let html = rendered(|f| f.fmt_predicate_func_value(&value));
        assert_eq!(
            html,
            format!(
                "<span class=\"predicate-type\">{label}</span> <span class=\"null\">null</span>"
            )
        );
        assert_eq!(strip_tags(&html), format!("{name} null"));
    }
    let bare = [
        (PredicateFuncValue::IsInteger, "isInteger"),
        (PredicateFuncValue::IsFloat, "isFloat"),
        (PredicateFuncValue::IsBoolean, "isBoolean"),
        (PredicateFuncValue::IsString, "isString"),
        (PredicateFuncValue::IsCollection, "isCollection"),
        (PredicateFuncValue::IsDate, "isDate"),
        (PredicateFuncValue::IsIsoDate, "isIsoDate"),
        (PredicateFuncValue::Exist, "exists"),
        (PredicateFuncValue::IsEmpty, "isEmpty"),
        (PredicateFuncValue::IsNumber, "isNumber"),
        (PredicateFuncValue::IsIpv4, "isIpv4"),
        (PredicateFuncValue::IsIpv6, "isIpv6"),
    ];
    for (value, name) in bare {
        assert_eq!(value.identifier(), name);
        assert_eq!(
            rendered(|f| f.fmt_predicate_func_value(&value)),
            format!("<span class=\"predicate-type\">{name}</span>")
        );
    }
}

#[test]
fn negated_predicate() {
    let negated = predicate(true, PredicateFuncValue::Exist);
    assert_eq!(
        rendered(|f| f.fmt_predicate(&negated)),
        "<span class=\"not\">not</span> <span class=\"predicate-type\">exists</span>"
    );
    // without `not` the space that would follow it is not written
    let plain = predicate(false, PredicateFuncValue::Exist);
    assert_eq!(
        rendered(|f| f.fmt_predicate(&plain)),
        "<span class=\"predicate-type\">exists</span>"
    );
}

#[test]
fn predicate_values() {
    let cases = [
        (
            PredicateValue::String(quoted("a<b")),
            "<span class=\"string\">\"a&lt;b\"</span>",
        ),
        (
            PredicateValue::Number(Number::Float(Float::new(
                1.0f64.to_bits(),
                "+1.0e0".to_string(),
            ))),
            "<span class=\"number\">+1.0e0</span>",
        ),
        (
            PredicateValue::Number(Number::BigInteger("10000000000000000000000".to_string())),
            "<span class=\"number\">10000000000000000000000</span>",
        ),
        (
            PredicateValue::Bool(true),
            "<span class=\"boolean\">true</span>",
        ),
        (
            PredicateValue::Bool(false),
            "<span class=\"boolean\">false</span>",
        ),
        (PredicateValue::Null, "<span class=\"null\">null</span>"),
        (
            PredicateValue::Placeholder(variable("x", "", "")),
            "<span class=\"expr\">{{x}}</span>",
        ),
        (
            PredicateValue::Regex(Regex {
                source: "/a.c/".to_string(),
            }),
            "<span class=\"regex\">/a.c/</span>",
        ),
        (
            PredicateValue::Hex(Hex {
                space0: ws(" "),
                value: vec![255, 1],
                source: "ff01".to_string(),
                space1: ws(""),
            }),
            "hex, <span class=\"hex\">ff01</span>;",
        ),
        (
            PredicateValue::Base64(Base64 {
                space0: ws(""),
                value: vec![1],
                source: "AQ==".to_string(),
                space1: ws(" "),
            }),
            "base64,<span class=\"base64\">AQ==</span> ;",
        ),
        (
            PredicateValue::File(File {
                space0: ws(""),
                filename: text("data.bin"),
                space1: ws(""),
            }),
            "file,<span class=\"filename\">data.bin</span>;",
        ),
    ];
    for (value, html) in cases {
        assert_eq!(rendered(|f| f.fmt_predicate_value(&value)), html);
    }
}

#[test]
fn option_labels_and_values() {
    let t = || text("v");
    let b = || BooleanOption::Literal(true);
    let d = || {
        DurationOption::Literal(Duration {
            value: U64::new(2, "2".to_string()),
            unit: None,
        })
    };
    let c = || CountOption::Literal(Count::Finite(3));
    let string = "<span class=\"string\">v</span>";
    let file = "<span class=\"filename\">v</span>";
    let boolean = "<span class=\"boolean\">true</span>";
    let duration = "<span class=\"number\">2</span>";
    let count = "<span class=\"number\">3</span>";
    let cases = vec![
        (OptionKind::AwsSigV4(t()), "aws-sigv4", string),
        (OptionKind::CaCertificate(t()), "cacert", file),
        (OptionKind::ClientCert(t()), "cert", file),
        (OptionKind::ClientKey(t()), "key", file),
        (OptionKind::Compressed(b()), "compressed", boolean),
        (OptionKind::ConnectTo(t()), "connect-to", string),
        (OptionKind::ConnectTimeout(d()), "connect-timeout", duration),
        (OptionKind::Delay(d()), "delay", duration),
        (OptionKind::FollowLocation(b()), "location", boolean),
        (OptionKind::FollowLocationTrusted(b()), "location-trusted", boolean),
        (OptionKind::Header(t()), "header", string),
        (OptionKind::Http10(b()), "http1.0", boolean),
        (OptionKind::Http11(b()), "http1.1", boolean),
        (OptionKind::Http2(b()), "http2", boolean),
        (OptionKind::Http3(b()), "http3", boolean),
        (OptionKind::Insecure(b()), "insecure", boolean),
        (OptionKind::IpV4(b()), "ipv4", boolean),
        (OptionKind::IpV6(b()), "ipv6", boolean),
        (
            OptionKind::LimitRate(NaturalOption::Literal(U64::new(10, "10".to_string()))),
            "limit-rate",
            "<span class=\"number\">10</span>",
        ),
        (OptionKind::MaxRedirect(c()), "max-redirs", count),
        (OptionKind::MaxTime(d()), "max-time", duration),
        (OptionKind::NetRc(b()), "netrc", boolean),
        (OptionKind::NetRcFile(t()), "netrc-file", file),
        (OptionKind::NetRcOptional(b()), "netrc-optional", boolean),
        (OptionKind::Output(t()), "output", file),
        (OptionKind::PathAsIs(b()), "path-as-is", boolean),
        (OptionKind::PinnedPublicKey(t()), "pinned-pubkey", string),
        (OptionKind::Proxy(t()), "proxy", string),
        (OptionKind::Repeat(c()), "repeat", count),
        (OptionKind::Resolve(t()), "resolve", string),
        (OptionKind::Retry(c()), "retry", count),
        (OptionKind::RetryInterval(d()), "retry-interval", duration),
        (OptionKind::Skip(b()), "skip", boolean),
        (OptionKind::UnixSocket(t()), "unix-socket", file),
        (OptionKind::User(t()), "user", string),
        (OptionKind::Verbose(b()), "verbose", boolean),
        (OptionKind::VeryVerbose(b()), "very-verbose", boolean),
    ];
    for (kind, name, value) in cases {
        assert_eq!(kind.identifier(), name);
        assert_eq!(
            rendered(|f| f.fmt_entry_option(&option(kind.clone()))),
            format!("<span class=\"string\">{name}</span>: {value}\n")
        );
    }
}

#[test]
fn option_given_by_placeholder() {
    let expr = "<span class=\"expr\">{{ n }}</span>";
    let p = || variable("n", " ", " ");
    assert_eq!(
        rendered(|f| f.fmt_bool_option(&BooleanOption::Placeholder(p()))),
        expr
    );
    assert_eq!(
        rendered(|f| f.fmt_natural_option(&NaturalOption::Placeholder(p()))),
        expr
    );
    assert_eq!(
        rendered(|f| f.fmt_duration_option(&DurationOption::Placeholder(p()))),
        expr
    );
    assert_eq!(
        rendered(|f| f.fmt_count_option(&CountOption::Placeholder(p()))),
        expr
    );
}

#[test]
fn count_without_end_is_minus_one() {
    assert_eq!(
        rendered(|f| f.fmt_count(Count::Infinite)),
        "<span class=\"number\">-1</span>"
    );
    assert_eq!(
        rendered(|f| f.fmt_count(Count::Finite(0))),
        "<span class=\"number\">0</span>"
    );
    assert_eq!(
        rendered(|f| f.fmt_count(Count::Finite(120))),
        "<span class=\"number\">120</span>"
    );
    assert_eq!(
        rendered(|f| f.fmt_count_option(&CountOption::Literal(Count::Infinite))),
        "<span class=\"number\">-1</span>"
    );
}

#[test]
fn duration_units() {
    let units = [
        (DurationUnit::MilliSecond, "ms"),
        (DurationUnit::Second, "s"),
        (DurationUnit::Minute, "m"),
    ];
    for (unit, name) in units {
        assert_eq!(unit.identifier(), name);
        let value = DurationOption::Literal(Duration {
            value: U64::new(15, "015".to_string()),
            unit: Some(unit),
        });
        assert_eq!(
            rendered(|f| f.fmt_duration_option(&value)),
            format!("<span class=\"number\">015</span><span class=\"unit\">{name}</span>")
        );
    }
}

#[test]
fn variable_definitions() {
    let define = |value: VariableValue| VariableDefinition {
        source_info: at(),
        name: "id".to_string(),
        space0: ws(" "),
        space1: ws("  "),
        value,
    };
    assert_eq!(
        rendered(|f| f.fmt_variable_definition(&define(VariableValue::Null))),
        "id =  <span class=\"null\">null</span>"
    );
    assert_eq!(
        rendered(|f| f.fmt_variable_definition(&define(VariableValue::Bool(false)))),
        "id =  <span class=\"boolean\">false</span>"
    );
    assert_eq!(
        rendered(|f| f.fmt_variable_definition(&define(VariableValue::Number(
            Number::Integer(I64::new(7, "007".to_string()))
        )))),
        "id =  <span class=\"number\">007</span>"
    );
    assert_eq!(
        rendered(|f| f.fmt_variable_definition(&define(VariableValue::String(quoted("a&b"))))),
        "id =  <span class=\"string\">\"a&amp;b\"</span>"
    );
    assert_eq!(
        rendered(|f| f.fmt_entry_option(&option(OptionKind::Variable(define(
            VariableValue::Null
        ))))),
        "<span class=\"string\">variable</span>: id =  <span class=\"null\">null</span>\n"
    );
}

#[test]
fn section_headers() {
    let cases = vec![
        (SectionValue::QueryParams(vec![], false), "QueryStringParams"),
        (SectionValue::QueryParams(vec![], true), "Query"),
        (SectionValue::BasicAuth(None), "BasicAuth"),
        (SectionValue::FormParams(vec![], false), "FormParams"),
        (SectionValue::FormParams(vec![], true), "Form"),
        (SectionValue::MultipartFormData(vec![], false), "MultipartFormData"),
        (SectionValue::MultipartFormData(vec![], true), "Multipart"),
        (SectionValue::Cookies(vec![]), "Cookies"),
        (SectionValue::Captures(vec![]), "Captures"),
        (SectionValue::Asserts(vec![]), "Asserts"),
        (SectionValue::Options(vec![]), "Options"),
    ];
    for (value, name) in cases {
        let section = section(value);
        assert_eq!(section.identifier(), name);
        assert_eq!(
            rendered(|f| f.fmt_section(&section)),
            format!("<span class=\"section-header\">[{name}]</span>\n")
        );
    }
}

#[test]
fn sections_with_lines() {
    let auth = section(SectionValue::BasicAuth(Some(kv("bob", "secret"))));
    assert_eq!(
        rendered(|f| f.fmt_section(&auth)),
        "<span class=\"section-header\">[BasicAuth]</span>\n\
<span class=\"string\">bob</span>: <span class=\"string\">secret</span>\n"
    );
    let form = section(SectionValue::FormParams(vec![kv("a", "1"), kv("b", "2")], false));
    assert_eq!(
        rendered(|f| f.fmt_section(&form)),
        "<span class=\"section-header\">[FormParams]</span>\n\
<span class=\"string\">a</span>: <span class=\"string\">1</span>\n\
<span class=\"string\">b</span>: <span class=\"string\">2</span>\n"
    );
    let cookies = section(SectionValue::Cookies(vec![Cookie {
        line_terminators: vec![],
        space0: ws(""),
        name: text("theme"),
        space1: ws(" "),
        space2: ws(" "),
        value: text("dark"),
        line_terminator0: lt("\n"),
    }]));
    assert_eq!(
        rendered(|f| f.fmt_section(&cookies)),
        "<span class=\"section-header\">[Cookies]</span>\n\
<span class=\"string\">theme</span> : <span class=\"string\">dark</span>\n"
    );
}

#[test]
fn multipart_section() {
    let file_param = MultipartParam::FilenameParam(FilenameParam {
        line_terminators: vec![],
        space0: ws(""),
        key: text("upload"),
        space1: ws(""),
        space2: ws(" "),
        value: FilenameValue {
            space0: ws(" "),
            filename: Template::new(None, vec![literal("my report.pdf", "my\\ report.pdf")], at()),
            space1: ws(""),
            space2: ws(" "),
            content_type: Some(text("application/pdf")),
        },
        line_terminator0: lt("\n"),
    });
    let html = rendered(|f| f.fmt_multipart_param(&file_param));
    assert_eq!(
        html,
        "<span class=\"string\">upload</span>: file, <span class=\"filename\">my\\ report.pdf</span>; \
<span class=\"string\">application/pdf</span>\n"
    );
    assert_eq!(
        strip_tags(&html),
        "upload: file, my\\ report.pdf; application/pdf\n"
    );
    let plain = MultipartParam::Param(kv("a", "1"));
    assert_eq!(
        rendered(|f| f.fmt_multipart_param(&plain)),
        "<span class=\"string\">a</span>: <span class=\"string\">1</span>\n"
    );
    let without_type = FilenameValue {
        space0: ws(""),
        filename: text("a.txt"),
        space1: ws(""),
        space2: ws(""),
        content_type: None,
    };
    assert_eq!(
        rendered(|f| f.fmt_file_value(&without_type)),
        "file,<span class=\"filename\">a.txt</span>;"
    );
}

#[test]
fn filename_is_not_escaped_for_html() {
    let name = Template::new(None, vec![literal("a&b <c>.txt", "a&b\\ <c>.txt")], at());
    assert_eq!(
        rendered(|f| f.fmt_filename(&name)),
        "<span class=\"filename\">a&b\\ <c>.txt</span>"
    );
}

#[test]
fn capture_with_redact() {
    let capture = |redact: bool| Capture {
        line_terminators: vec![],
        space0: ws(""),
        name: text("id"),
        space1: ws(""),
        space2: ws(" "),
        query: query(QueryValue::Status),
        filters: vec![
            (ws(" "), filter(FilterValue::ToString)),
            (ws("  "), filter(FilterValue::Count)),
        ],
        space3: ws(" "),
        redact,
        line_terminator0: lt("\n"),
    };
    assert_eq!(
        rendered(|f| f.fmt_capture(&capture(true))),
        "<span class=\"string\">id</span>: <span class=\"query-type\">status</span> \
<span class=\"filter-type\">toString</span>  <span class=\"filter-type\">count</span> \
redact\n"
    );
    assert_eq!(
        rendered(|f| f.fmt_capture(&capture(false))),
        "<span class=\"string\">id</span>: <span class=\"query-type\">status</span> \
<span class=\"filter-type\">toString</span>  <span class=\"filter-type\">count</span> \n"
    );
}

#[test]
fn assert_line() {
    let assert = Assert {
        line_terminators: vec![lt_with_comment("  ", " check", "\n")],
        space0: ws(""),
        query: query(QueryValue::Header {
            space0: ws(" "),
            name: quoted("Location"),
        }),
        filters: vec![(ws(" "), filter(FilterValue::First))],
        space1: ws(" "),
        predicate: predicate(
            true,
            PredicateFuncValue::Contain {
                space0: ws(" "),
                value: PredicateValue::String(quoted("x")),
            },
        ),
        line_terminator0: lt(""),
    };
    let html = rendered(|f| f.fmt_assert(&assert));
    assert_eq!(
        html,
        "  <span class=\"comment\"># check</span>\n\
<span class=\"query-type\">header</span> <span class=\"string\">\"Location\"</span> \
<span class=\"filter-type\">first</span> <span class=\"not\">not</span> \
<span class=\"predicate-type\">contains</span> <span class=\"string\">\"x\"</span>"
    );
    assert_eq!(
        strip_tags(&html),
        "  # check\nheader \"Location\" first not contains \"x\""
    );
}

#[test]
fn line_terminators() {
    assert_eq!(rendered(|f| f.fmt_lt(&lt("\n"))), "\n");
    assert_eq!(rendered(|f| f.fmt_lt(&lt(""))), "");
    assert_eq!(rendered(|f| f.fmt_lt(&lt("\r\n"))), "\r\n");
    assert_eq!(
        rendered(|f| f.fmt_lt(&lt_with_comment(" ", " a < b & c", "\n"))),
        " <span class=\"comment\"># a &lt; b &amp; c</span>\n"
    );
    assert_eq!(
        rendered(|f| f.fmt_comment(&Comment {
            value: String::new(),
            source_info: at()
        })),
        "<span class=\"comment\">#</span>"
    );
    let run = vec![lt("\n"), lt_with_comment("", "x", "\n"), lt("")];
    assert_eq!(
        rendered(|f| f.fmt_lts(&run)),
        "\n<span class=\"comment\">#x</span>\n"
    );
    assert_eq!(rendered(|f| f.fmt_lts(&vec![])), "");
}

#[test]
fn blank_space() {
    assert_eq!(rendered(|f| f.fmt_space(&ws(""))), "");
    assert_eq!(rendered(|f| f.fmt_space(&ws(" \t "))), " \t ");
}

#[test]
fn spans() {
    assert_eq!(
        rendered(|f| f.fmt_span("a", "b")),
        "<span class=\"a\">b</span>"
    );
    assert_eq!(rendered(|f| f.fmt_span_open("a")), "<span class=\"a\">");
    assert_eq!(rendered(|f| f.fmt_span_close()), "</span>");
    assert_eq!(
        rendered(|f| f.fmt_pre_open("language-hurl")),
        "<pre><code class=\"language-hurl\">"
    );
    assert_eq!(rendered(|f| f.fmt_pre_close()), "</code></pre>");
    // what is handed to a span is written as it is
    assert_eq!(
        rendered(|f| f.fmt_string("a<b")),
        "<span class=\"string\">a<b</span>"
    );
    assert_eq!(
        rendered(|f| f.fmt_number("1e3")),
        "<span class=\"number\">1e3</span>"
    );
    assert_eq!(
        rendered(|f| f.fmt_bool(true)),
        "<span class=\"boolean\">true</span>"
    );
}

#[test]
fn formatter_appends() {
    let mut fmt = HtmlFormatter::new();
    assert_eq!(fmt.buffer, "");
    fmt.fmt_space(&ws(" "));
    fmt.fmt_bool(false);
    fmt.fmt_space(&ws(" "));
    fmt.fmt_number("2");
    assert_eq!(
        fmt.buffer,
        " <span class=\"boolean\">false</span> <span class=\"number\">2</span>"
    );
}

#[test]
fn templates() {
    let template = Template::new(
        Some('"'),
        vec![
            literal("a\tb <", "a\\tb <"),
            TemplateElement::Placeholder(variable("name", " ", "")),
            literal("&", "&"),
            TemplateElement::Placeholder(Placeholder {
                space0: ws(""),
                expr: Expr {
                    kind: ExprKind::Function(Function::NewUuid),
                    source_info: at(),
                },
                space1: ws(""),
            }),
        ],
        at(),
    );
    assert_eq!(template.to_source(), "\"a\\tb <{{ name}}&{{newUuid}}\"");
    assert_eq!(template.to_display(), "a\tb <{{name}}&{{newUuid}}");
    assert_eq!(
        rendered(|f| f.fmt_template(&template)),
        "<span class=\"string\">\"a\\tb &lt;{{ name}}&amp;{{newUuid}}\"</span>"
    );
    let empty = Template::new(None, vec![], at());
    assert_eq!(empty.to_source(), "");
    assert_eq!(empty.to_display(), "");
    assert_eq!(
        rendered(|f| f.fmt_template(&empty)),
        "<span class=\"string\"></span>"
    );
    assert_eq!(Function::NewDate.identifier(), "newDate");
    assert_eq!(Function::NewUuid.identifier(), "newUuid");
}

#[test]
fn placeholders_and_regexes() {
    let p = variable("host", " ", "  ");
    assert_eq!(p.to_source(), "{{ host  }}");
    assert_eq!(p.to_display(), "{{host}}");
    assert_eq!(
        rendered(|f| f.fmt_placeholder(&p)),
        "<span class=\"expr\">{{ host  }}</span>"
    );
    let regex = Regex {
        source: "/^\\d{4}$/".to_string(),
    };
    assert_eq!(regex.to_source(), "/^\\d{4}$/");
    assert_eq!(
        rendered(|f| f.fmt_regex_value(&RegexValue::Regex(regex))),
        "<span class=\"regex\">/^\\d{4}$/</span>"
    );
    assert_eq!(
        rendered(|f| f.fmt_regex_value(&RegexValue::Template(quoted("^a")))),
        "<span class=\"string\">\"^a\"</span>"
    );
}

#[test]
fn numbers_keep_their_spelling() {
    let float = Number::Float(Float::new(1000.0f64.to_bits(), "1.0E3".to_string()));
    assert_eq!(float.to_source(), "1.0E3");
    let integer = Number::Integer(I64::new(1, "+1".to_string()));
    assert_eq!(integer.to_source(), "+1");
    let big = Number::BigInteger("123456789012345678901234567890".to_string());
    assert_eq!(big.to_source(), "123456789012345678901234567890");
    assert_eq!(U64::new(8, "08".to_string()).to_source(), "08");
    assert_eq!(
        rendered(|f| f.fmt_variable_value(&VariableValue::Number(float))),
        "<span class=\"number\">1.0E3</span>"
    );
}

#[test]
fn json_values() {
    let list = JsonValue::List {
        space0: " ".to_string(),
        elements: vec![
            JsonListElement {
                space0: "".to_string(),
                value: JsonValue::Boolean(true),
                space1: "".to_string(),
            },
            JsonListElement {
                space0: " ".to_string(),
                value: JsonValue::Null,
                space1: "".to_string(),
            },
            JsonListElement {
                space0: " ".to_string(),
                value: JsonValue::Placeholder(variable("x", "", "")),
                space1: " ".to_string(),
            },
            JsonListElement {
                space0: "".to_string(),
                value: JsonValue::List {
                    space0: "".to_string(),
                    elements: vec![],
                },
                space1: "".to_string(),
            },
            JsonListElement {
                space0: "".to_string(),
                value: JsonValue::Object {
                    space0: "".to_string(),
                    elements: vec![
                        JsonObjectElement {
                            space0: "".to_string(),
                            name: quoted("a"),
                            space1: " ".to_string(),
                            space2: "".to_string(),
                            value: JsonValue::Number("1.50".to_string()),
                            space3: "".to_string(),
                        },
                        JsonObjectElement {
                            space0: " ".to_string(),
                            name: quoted("b"),
                            space1: "".to_string(),
                            space2: " ".to_string(),
                            value: JsonValue::Boolean(false),
                            space3: "\n".to_string(),
                        },
                    ],
                },
                space1: "".to_string(),
            },
        ],
    };
    let source = "[ true, null, {{x}} ,[],{\"a\" :1.50, \"b\": false\n}]";
    assert_eq!(list.to_source(), source);
    assert_eq!(list.clone(), list);
    assert_eq!(list.clone().to_source(), source);
    assert_eq!(
        rendered(|f| f.fmt_json_value(&list)),
        format!("<span class=\"json\">{source}</span>")
    );
    assert_eq!(JsonValue::Null.to_source(), "null");
    let empty = JsonValue::Object {
        space0: " ".to_string(),
        elements: vec![],
    };
    assert_eq!(empty.to_source(), "{ }");
}

#[test]
fn json_is_escaped_as_a_whole() {
    let value = JsonValue::String(quoted("<a href=\"x\">&</a>"));
    let html = rendered(|f| f.fmt_json_value(&value));
    assert_eq!(
        html,
        "<span class=\"json\">\"&lt;a href=\"x\"&gt;&amp;&lt;/a&gt;\"</span>"
    );
    assert_eq!(strip_tags(&html), "\"<a href=\"x\">&</a>\"");
}

#[test]
fn multiline_strings() {
    let make = |attributes: Vec<MultilineStringAttribute>, kind: MultilineStringKind| {
        MultilineString {
            attributes,
            space: ws(""),
            newline: ws("\n"),
            kind,
        }
    };
    let json = make(vec![], MultilineStringKind::Json(text("{}\n")));
    assert_eq!(json.to_source(), "```json\n{}\n```");
    let xml = make(
        vec![MultilineStringAttribute::Escape],
        MultilineStringKind::Xml(text("<a/>\n")),
    );
    assert_eq!(xml.to_source(), "```xml,escape\n<a/>\n```");
    assert_eq!(
        rendered(|f| f.fmt_multiline_string(&xml)),
        "<span class=\"multiline\">```xml,escape\n&lt;a/&gt;\n```</span>"
    );
    let plain = make(
        vec![
            MultilineStringAttribute::Escape,
            MultilineStringAttribute::NoVariable,
        ],
        MultilineStringKind::Text(text("x\n")),
    );
    assert_eq!(plain.to_source(), "```escape,novariable\nx\n```");
    let graphql = make(
        vec![MultilineStringAttribute::NoVariable],
        MultilineStringKind::GraphQl(GraphQl {
            value: text("{ me }\n"),
            variables: Some(GraphQlVariables {
                space: ws(" "),
                value: JsonValue::Object {
                    space0: "".to_string(),
                    elements: vec![],
                },
                whitespace: ws("\n"),
            }),
        }),
    );
    assert_eq!(
        graphql.to_source(),
        "```graphql,novariable\n{ me }\nvariables {}\n```"
    );
    let without_variables = make(
        vec![],
        MultilineStringKind::GraphQl(GraphQl {
            value: text("{ me }\n"),
            variables: None,
        }),
    );
    assert_eq!(without_variables.to_source(), "```graphql\n{ me }\n```");
    assert_eq!(MultilineStringAttribute::Escape.identifier(), "escape");
    assert_eq!(MultilineStringAttribute::NoVariable.identifier(), "novariable");
}

#[test]
fn bodies() {
    let body = |value: Bytes| Body {
        line_terminators: vec![lt("\n")],
        space0: ws(" "),
        value,
        line_terminator0: lt_with_comment(" ", " body", "\n"),
    };
    let tail = " <span class=\"comment\"># body</span>\n";
    assert_eq!(
        rendered(|f| f.fmt_body(&body(Bytes::Xml("<a>&</a>".to_string())))),
        format!("\n <span class=\"xml\">&lt;a&gt;&amp;&lt;/a&gt;</span>{tail}")
    );
    assert_eq!(
        rendered(|f| f.fmt_body(&body(Bytes::OnelineString(Template::new(
            Some('`'),
            vec![literal("hi", "hi")],
            at()
        ))))),
        format!("\n <span class=\"string\">`hi`</span>{tail}")
    );
    assert_eq!(
        rendered(|f| f.fmt_bytes(&Bytes::Json(JsonValue::Number("1".to_string())))),
        "<span class=\"json\">1</span>"
    );
    assert_eq!(
        rendered(|f| f.fmt_bytes(&Bytes::File(File {
            space0: ws(" "),
            filename: text("a.bin"),
            space1: ws(" "),
        }))),
        "file, <span class=\"filename\">a.bin</span> ;"
    );
    assert_eq!(
        rendered(|f| f.fmt_bytes(&Bytes::Base64(Base64 {
            space0: ws(""),
            value: vec![],
            source: "".to_string(),
            space1: ws(""),
        }))),
        "base64,<span class=\"base64\"></span>;"
    );
    assert_eq!(
        rendered(|f| f.fmt_bytes(&Bytes::Hex(Hex {
            space0: ws(""),
            value: vec![0xca, 0xfe],
            source: "cafe".to_string(),
            space1: ws(""),
        }))),
        "hex,<span class=\"hex\">cafe</span>;"
    );
    assert_eq!(
        rendered(|f| f.fmt_bytes(&Bytes::MultilineString(MultilineString {
            attributes: vec![],
            space: ws(""),
            newline: ws("\n"),
            kind: MultilineStringKind::Text(text("a\n")),
        }))),
        "<span class=\"multiline\">```\na\n```</span>"
    );
}

#[test]
fn requests_and_responses() {
    let mut req = request("GET", "http://localhost/?a=1&b=2");
    req.headers = vec![kv("User-Agent", "x")];
    assert_eq!(
        rendered(|f| f.fmt_request(&req)),
        "<span class=\"request\"><span class=\"method\">GET</span> \
<span class=\"url\">http://localhost/?a=1&amp;b=2</span>\n\
<span class=\"string\">User-Agent</span>: <span class=\"string\">x</span>\n</span>"
    );
    let versions = [
        (VersionValue::Version1, "HTTP/1.0"),
        (VersionValue::Version11, "HTTP/1.1"),
        (VersionValue::Version2, "HTTP/2"),
        (VersionValue::Version3, "HTTP/3"),
        (VersionValue::VersionAny, "HTTP"),
    ];
    for (version, name) in versions {
        assert_eq!(version.identifier(), name);
        assert_eq!(
            rendered(|f| f.fmt_response(&response(version, StatusValue::Specific(404)))),
            format!(
                "<span class=\"response\"><span class=\"version\">{name}</span> \
<span class=\"number\">404</span>\n</span>"
            )
        );
    }
    assert_eq!(
        rendered(|f| f.fmt_status(&Status {
            value: StatusValue::Any,
            source_info: at()
        })),
        "<span class=\"number\">*</span>"
    );
    assert_eq!(
        rendered(|f| f.fmt_method(&Method::new("PATCH"))),
        "<span class=\"method\">PATCH</span>"
    );
    let entry = Entry {
        request: request("GET", "/"),
        response: None,
    };
    assert_eq!(
        rendered(|f| f.fmt_entry(&entry)),
        "<span class=\"entry\"><span class=\"request\"><span class=\"method\">GET</span> \
<span class=\"url\">/</span>\n</span></span>"
    );
}

#[test]
fn decimal_numbers() {
    assert_eq!(decimal_string(0), "0");
    assert_eq!(decimal_string(7), "7");
    assert_eq!(decimal_string(10), "10");
    assert_eq!(decimal_string(1234567890), "1234567890");
    assert_eq!(decimal_string(u64::MAX), "18446744073709551615");
    let mut buf = "n=".to_string();
    push_decimal(&mut buf, 905);
    assert_eq!(buf, "n=905");
}

#[test]
fn small_text_functions() {
    assert_eq!(bool_str(true), "true");
    assert_eq!(bool_str(false), "false");
    assert_eq!(backslash_spaces("a b  c"), "a\\ b\\ \\ c");
    assert_eq!(backslash_spaces("abc"), "abc");
    assert_eq!(backslash_spaces(""), "");
    assert_eq!(chars_of("a\u{e9}\u{1F600}"), vec!['a', '\u{e9}', '\u{1F600}']);
    assert_eq!(chars_of(""), Vec::<char>::new());
}

#[test]
fn copies_are_equal() {
    let space = ws(" \t");
    assert_eq!(space.clone(), space);
    let placeholder = variable("host", " ", "");
    assert_eq!(placeholder.clone(), placeholder);
    assert_eq!(placeholder.clone().to_source(), "{{ host}}");
    let template = Template::new(
        Some('"'),
        vec![
            literal("a\nb", "a\\nb"),
            TemplateElement::Placeholder(placeholder),
            literal("", ""),
        ],
        SourceInfo::new(Pos::new(2, 3), Pos::new(2, 19)),
    );
    let copy = template.clone();
    assert_eq!(copy, template);
    assert_eq!(copy.elements.len(), 3);
    assert_eq!(copy.to_source(), "\"a\\nb{{ host}}\"");
    let empty = Template::new(None, vec![], at());
    assert_eq!(empty.clone(), empty);
    let object = JsonValue::Object {
        space0: "\n".to_string(),
        elements: vec![JsonObjectElement {
            space0: " ".to_string(),
            name: quoted("k"),
            space1: "".to_string(),
            space2: " ".to_string(),
            value: JsonValue::List {
                space0: "".to_string(),
                elements: vec![JsonListElement {
                    space0: " ".to_string(),
                    value: JsonValue::String(template),
                    space1: " ".to_string(),
                }],
            },
            space3: "\n".to_string(),
        }],
    };
    let copy = object.clone();
    assert_eq!(copy, object);
    assert_eq!(copy.to_source(), "{\n \"k\": [ \"a\\nb{{ host}}\" ]\n}");
    if let JsonValue::Object { elements, .. } = &object {
        assert_eq!(elements[0].clone(), elements[0]);
    } else {
        unreachable!();
    }
}

#[test]
fn doubled_entity_only_where_the_text_held_the_entity() {
    let with_entity = ["&amp;", "a &amp; b", "&&amp;", "&amp;amp;", "<&amp;>"];
    for text in with_entity {
        assert!(text.contains("&amp;"));
        assert!(escape_xml(text).contains("&amp;amp;"));
    }
    let without_entity = ["", "&", "a & b", "&amp", "& amp;", "&lt;", "&&&", "amp;", "&;amp;"];
    for text in without_entity {
        assert!(!text.contains("&amp;"));
        assert!(!escape_xml(text).contains("&amp;amp;"));
    }
}

#[test]
fn doubled_entity_in_a_file() {
    let (file, source) = sample_file();
    assert!(!source.contains("&amp;"));
    assert!(!render(&file, false).contains("&amp;amp;"));
    // a template next to its own closing tag makes no doubled entity
    let mut req = request("GET", "http://localhost/?a&");
    req.headers = vec![kv("amp;", "x&"), kv("amp;amp;", "&")];
    let file = HurlFile {
        entries: vec![Entry {
            request: req,
            response: None,
        }],
        line_terminators: vec![],
    };
    let html = render(&file, false);
    assert!(!html.contains("&amp;amp;"));
    assert_eq!(
        strip_tags(&html),
        "GET http://localhost/?a&\namp;: x&\namp;amp;: &\n"
    );
    // where the file holds the entity, the HTML holds the doubled one
    let file = HurlFile {
        entries: vec![],
        line_terminators: vec![lt_with_comment("", " fish &amp; chips", "\n")],
    };
    let html = render(&file, false);
    assert!(html.contains("&amp;amp;"));
    assert_eq!(strip_tags(&html), "# fish &amp; chips\n");
}
