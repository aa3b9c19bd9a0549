use hurl_html::ast::json::{JsonObjectElement, JsonValue};
use hurl_html::ast::multiline::{MultilineString, MultilineStringKind};
use hurl_html::ast::primitive::{Pos, SourceInfo, Whitespace};
use hurl_html::ast::template::{Template, TemplateElement};
use hurl_html::format::html::HtmlFormatter;
use hurl_html::text::escape_xml;

#[test]
fn test_multiline_string() {
    // ```
    // line1
    // line2
    // ```
    let kind = MultilineStringKind::Text(Template {
        delimiter: None,
        elements: vec![TemplateElement::String {
            value: "line1\nline2\n".to_string(),
            source: "line1\nline2\n".to_string(),
        }],
        source_info: SourceInfo::new(Pos::new(0, 0), Pos::new(0, 0)),
    });
    let attributes = vec![];
    let multiline_string = MultilineString {
        attributes,
        space: Whitespace {
            value: String::new(),
            source_info: SourceInfo {
                start: Pos { line: 1, column: 4 },
                end: Pos { line: 1, column: 4 },
            },
        },
        newline: Whitespace {
            value: "\n".to_string(),
            source_info: SourceInfo {
                start: Pos { line: 1, column: 4 },
                end: Pos { line: 2, column: 1 },
            },
        },
        kind,
    };
    let mut fmt = HtmlFormatter::new();
    fmt.fmt_multiline_string(&multiline_string);
    assert_eq!(
        fmt.buffer,
        "<span class=\"multiline\">```\nline1\nline2\n```</span>"
    );
}

#[test]
fn test_json() {
    let mut fmt = HtmlFormatter::new();
    let value = JsonValue::Object {
        space0: String::new(),
        elements: vec![JsonObjectElement {
            space0: "\n   ".to_string(),
            name: Template::new(
                Some('"'),
                vec![TemplateElement::String {
                    value: "id".to_string(),
                    source: "id".to_string(),
                }],
                SourceInfo::new(Pos::new(0, 0), Pos::new(0, 0)),
            ),
            space1: String::new(),
            space2: " ".to_string(),
            value: JsonValue::Number("1".to_string()),
            space3: "\n".to_string(),
        }],
    };
    fmt.fmt_json_value(&value);
    assert_eq!(fmt.buffer, "<span class=\"json\">{\n   \"id\": 1\n}</span>");
}

#[test]
fn test_json_encoded_newline() {
    let mut fmt = HtmlFormatter::new();
    let value = JsonValue::String(Template::new(
        Some('"'),
        vec![TemplateElement::String {
            value: "\n".to_string(),
            source: "\\n".to_string(),
        }],
        SourceInfo::new(Pos::new(0, 0), Pos::new(0, 0)),
    ));
    fmt.fmt_json_value(&value);
    assert_eq!(fmt.buffer, "<span class=\"json\">\"\\n\"</span>");
}

#[test]
fn test_xml() {
    let mut fmt = HtmlFormatter::new();
    let value = "<?xml version=\"1.0\"?>\n<drink>café</drink>";
    fmt.fmt_xml(value);
    assert_eq!(
        fmt.buffer,
        "<span class=\"xml\">&lt;?xml version=\"1.0\"?&gt;\n&lt;drink&gt;café&lt;/drink&gt;</span>"
    );
}

#[test]
fn test_xml_escape() {
    assert_eq!(escape_xml("hello"), "hello");
    assert_eq!(
        escape_xml("<?xml version=\"1.0\"?>"),
        "&lt;?xml version=\"1.0\"?&gt;"
    );
}
