//! The stylesheet that goes with the HTML: one rule for each class of span.

use vstd::prelude::*;
use vstd::string::*;

verus! {

/// The text of the stylesheet.
pub const HURL_CSS: &'static str =
    "pre {\n    padding: 1em;\n    overflow-x: auto;\n    background-color: #f8f8f8;\n}\n\npre code {\n    font-family: monospace;\n    font-size: 0.95em;\n    line-height: 1.4;\n    color: #24292e;\n}\n\n.language-hurl .comment {\n    color: #6a737d;\n    font-style: italic;\n}\n\n.language-hurl .method {\n    color: #d73a49;\n    font-weight: bold;\n}\n\n.language-hurl .url {\n    color: #032f62;\n}\n\n.language-hurl .version {\n    color: #d73a49;\n    font-weight: bold;\n}\n\n.language-hurl .section-header {\n    color: #6f42c1;\n    font-weight: bold;\n}\n\n.language-hurl .query-type,\n.language-hurl .filter-type,\n.language-hurl .predicate-type,\n.language-hurl .not {\n    color: #005cc5;\n}\n\n.language-hurl .string,\n.language-hurl .filename,\n.language-hurl .multiline {\n    color: #22863a;\n}\n\n.language-hurl .json,\n.language-hurl .xml {\n    color: #22863a;\n}\n\n.language-hurl .number,\n.language-hurl .unit,\n.language-hurl .boolean,\n.language-hurl .null {\n    color: #e36209;\n}\n\n.language-hurl .regex {\n    color: #b31d28;\n}\n\n.language-hurl .expr {\n    color: #6f42c1;\n}\n\n.language-hurl .base64,\n.language-hurl .hex {\n    color: #735c0f;\n}\n";

/// What a page holds before the stylesheet.
pub const PAGE_HEAD: &'static str =
    "<!DOCTYPE html>\n<html>\n    <head>\n        <meta charset=\"utf-8\">\n        <title>Hurl File</title>\n        <style>\n";

/// What a page holds between the stylesheet and the body.
pub const PAGE_MIDDLE: &'static str = "\n        </style>\n    </head>\n    <body>\n";

/// What a page holds after the body.
pub const PAGE_FOOT: &'static str = "\n    </body>\n</html>\n";

/// A complete HTML page: `css` in the head, `body` in the body.
pub open spec fn page(css: Seq<char>, body: Seq<char>) -> Seq<char> {
    PAGE_HEAD@ + css + PAGE_MIDDLE@ + body + PAGE_FOOT@
}

/// The stylesheet for the HTML that this crate renders.
pub fn hurl_css() -> (css: String)
    ensures
        css@ == HURL_CSS@,
{
    HURL_CSS.to_string()
}

} // verus!
