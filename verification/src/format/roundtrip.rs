//! The renderer keeps the document: without its markup, the HTML of a node
//! is the text that the node was read from.
//!
//! This holds of every node whose unescaped parts are `plain`. Most of what
//! the renderer writes is either escaped (templates, comments, bodies) or a
//! word of the language, and needs no condition. A few parts are written as
//! they stand: blank space, numbers, placeholders, regular expression
//! literals, method names, base 64 and hexadecimal digits, cookie names and
//! file names. Where such a part holds `<` or `&`, a reader of the HTML takes
//! it for markup, and the text does not come back.

use vstd::prelude::*;
use vstd::string::*;
use crate::ast::primitive::{
    comment_source, line_terminators_source, Comment, LineTerminator, Whitespace,
};
use crate::ast::template::{Placeholder, Template};
use crate::ast::value::{Base64, Count, Duration, DurationUnit, File, Hex, Regex};
use crate::format::render::{
    bool_html, comment_html, filename_html, line_terminators_html, null_html, number_html,
    unit_html, xml_html,
};
use crate::format::spans::lemma_span_reads_as;
use crate::markup::{
    escape, lemma_escape_reads_as, lemma_markup_free_reads_as_itself, lemma_reads_as_concat,
    markup_free, reads_as, tag_safe,
};
use crate::text::{
    bool_text, escape_spaces, lemma_bool_text_markup_free, lemma_decimal_markup_free,
    lemma_joined_reads_as,
};

verus! {

/// The classes of the spans hold neither `>` nor `&`.
pub proof fn lemma_classes_tag_safe()
    ensures
        tag_safe("comment"@),
        tag_safe("number"@),
        tag_safe("boolean"@),
        tag_safe("null"@),
        tag_safe("string"@),
        tag_safe("xml"@),
        tag_safe("json"@),
        tag_safe("multiline"@),
        tag_safe("filename"@),
        tag_safe("expr"@),
        tag_safe("regex"@),
        tag_safe("base64"@),
        tag_safe("hex"@),
        tag_safe("unit"@),
        tag_safe("query-type"@),
        tag_safe("filter-type"@),
        tag_safe("predicate-type"@),
        tag_safe("not"@),
        tag_safe("section-header"@),
        tag_safe("method"@),
        tag_safe("version"@),
        tag_safe("url"@),
        tag_safe("request"@),
        tag_safe("response"@),
        tag_safe("entry"@),
        tag_safe("language-hurl"@),
{
    reveal_strlit("comment");
    reveal_strlit("number");
    reveal_strlit("boolean");
    reveal_strlit("null");
    reveal_strlit("string");
    reveal_strlit("xml");
    reveal_strlit("json");
    reveal_strlit("multiline");
    reveal_strlit("filename");
    reveal_strlit("expr");
    reveal_strlit("regex");
    reveal_strlit("base64");
    reveal_strlit("hex");
    reveal_strlit("unit");
    reveal_strlit("query-type");
    reveal_strlit("filter-type");
    reveal_strlit("predicate-type");
    reveal_strlit("not");
    reveal_strlit("section-header");
    reveal_strlit("method");
    reveal_strlit("version");
    reveal_strlit("url");
    reveal_strlit("request");
    reveal_strlit("response");
    reveal_strlit("entry");
    reveal_strlit("language-hurl");
}

/// The words that the renderer writes as they are hold neither `<` nor `&`.
pub proof fn lemma_words_markup_free()
    ensures
        markup_free("null"@),
        markup_free("not"@),
        markup_free("redact"@),
        markup_free("file,"@),
        markup_free("base64,"@),
        markup_free("hex,"@),
{
    reveal_strlit("null");
    reveal_strlit("not");
    reveal_strlit("redact");
    reveal_strlit("file,");
    reveal_strlit("base64,");
    reveal_strlit("hex,");
}

/// A single character other than `<` and `&` reads as itself.
pub proof fn lemma_char_reads_as_itself(c: char)
    requires
        c != '<',
        c != '&',
    ensures
        reads_as(seq![c], seq![c]),
{
    lemma_markup_free_reads_as_itself(seq![c]);
}

impl Whitespace {
    /// The space holds neither `<` nor `&`.
    pub open spec fn plain(&self) -> bool {
        markup_free(self.value@)
    }

    /// Without its markup, the HTML reads as the text it was written from.
    pub proof fn lemma_round_trip(self)
        requires
            self.plain(),
        ensures
            reads_as(self.html(), self.source()),
    {
        lemma_markup_free_reads_as_itself(self.value@);
    }
}

impl Comment {
    /// A comment is escaped: whatever it holds, its HTML reads as the comment.
    pub proof fn lemma_round_trip(self)
        ensures
            reads_as(self.html(), self.source()),
    {
        broadcast use lemma_reads_as_concat, lemma_span_reads_as;

        lemma_classes_tag_safe();
        lemma_escape_reads_as(self.value@);
        lemma_char_reads_as_itself('#');
        assert(reads_as(seq!['#'] + escape(self.value@), seq!['#'] + self.value@));
    }
}

impl LineTerminator {
    /// The space before the comment and the line break are plain.
    pub open spec fn plain(&self) -> bool {
        self.space0.plain() && self.newline.plain()
    }

    /// Without its markup, the HTML reads as the text it was written from.
    pub proof fn lemma_round_trip(self)
        requires
            self.plain(),
        ensures
            reads_as(self.html(), self.source()),
    {
        broadcast use lemma_reads_as_concat;

        reveal(LineTerminator::html);
        self.space0.lemma_round_trip();
        self.newline.lemma_round_trip();
        match self.comment {
            Some(c) => c.lemma_round_trip(),
            None => crate::markup::lemma_reads_as_empty(),
        }
        assert(reads_as(comment_html(self.comment), comment_source(self.comment)));
    }
}

/// Each line end of the run is plain.
pub open spec fn line_terminators_plain(lts: Seq<LineTerminator>) -> bool {
    forall|i: int| 0 <= i < lts.len() ==> (#[trigger] lts[i]).plain()
}

/// Without its markup, the HTML reads as the text it was written from.
pub proof fn lemma_line_terminators_round_trip(lts: Seq<LineTerminator>)
    requires
        line_terminators_plain(lts),
    ensures
        reads_as(line_terminators_html(lts), line_terminators_source(lts)),
{
    let f = |lt: LineTerminator| lt.html();
    let g = |lt: LineTerminator| lt.source();
    assert forall|i: int| 0 <= i < lts.len() implies reads_as(f(#[trigger] lts[i]), g(lts[i])) by {
        lts[i].lemma_round_trip();
    }
    lemma_joined_reads_as(lts, f, g);
}

impl Template {
    /// A template is escaped: whatever it holds, its HTML reads as the
    /// template.
    pub proof fn lemma_round_trip(self)
        ensures
            reads_as(self.html(), self.source()),
    {
        broadcast use lemma_span_reads_as;

        lemma_classes_tag_safe();
        lemma_escape_reads_as(self.source());
    }

    /// As a file name, the template is written the way the renderer writes
    /// file names (a backslash before each space and no other escape), and
    /// holds neither `<` nor `&`.
    pub open spec fn plain_filename(&self) -> bool {
        self.source() == escape_spaces(self.display()) && markup_free(self.source())
    }

    /// Without its markup, the HTML reads as the text it was written from.
    pub proof fn lemma_filename_round_trip(self)
        requires
            self.plain_filename(),
        ensures
            reads_as(filename_html(self), self.source()),
    {
        broadcast use lemma_span_reads_as;

        lemma_classes_tag_safe();
        lemma_markup_free_reads_as_itself(self.source());
    }
}

/// A number, written as it is spelled, reads as its spelling.
pub proof fn lemma_number_round_trip(spelling: Seq<char>)
    requires
        markup_free(spelling),
    ensures
        reads_as(number_html(spelling), spelling),
{
    broadcast use lemma_span_reads_as;

    lemma_classes_tag_safe();
    lemma_markup_free_reads_as_itself(spelling);
}

/// A boolean's HTML reads as the boolean.
pub proof fn lemma_bool_round_trip(value: bool)
    ensures
        reads_as(bool_html(value), bool_text(value)),
{
    broadcast use lemma_span_reads_as;

    lemma_classes_tag_safe();
    lemma_bool_text_markup_free(value);
    lemma_markup_free_reads_as_itself(bool_text(value));
}

/// The HTML of `null` reads as `null`.
pub proof fn lemma_null_round_trip()
    ensures
        reads_as(null_html(), "null"@),
{
    broadcast use lemma_span_reads_as;

    lemma_classes_tag_safe();
    lemma_words_markup_free();
    lemma_markup_free_reads_as_itself("null"@);
}

/// XML is escaped: whatever it holds, its HTML reads as the XML.
pub proof fn lemma_xml_round_trip(xml: Seq<char>)
    ensures
        reads_as(xml_html(xml), xml),
{
    broadcast use lemma_span_reads_as;

    lemma_classes_tag_safe();
    lemma_escape_reads_as(xml);
}

impl Placeholder {
    /// The placeholder holds neither `<` nor `&`.
    pub open spec fn plain(&self) -> bool {
        markup_free(self.source())
    }

    /// Without its markup, the HTML reads as the text it was written from.
    pub proof fn lemma_round_trip(self)
        requires
            self.plain(),
        ensures
            reads_as(self.html(), self.source()),
    {
        broadcast use lemma_span_reads_as;

        lemma_classes_tag_safe();
        lemma_markup_free_reads_as_itself(self.source());
    }
}

impl Regex {
    /// The literal holds neither `<` nor `&`.
    pub open spec fn plain(&self) -> bool {
        markup_free(self.source())
    }

    /// Without its markup, the HTML reads as the text it was written from.
    pub proof fn lemma_round_trip(self)
        requires
            self.plain(),
        ensures
            reads_as(self.html(), self.source()),
    {
        broadcast use lemma_span_reads_as;

        lemma_classes_tag_safe();
        lemma_markup_free_reads_as_itself(self.source());
    }
}

impl Base64 {
    /// The digits and the space around them are plain.
    pub open spec fn plain(&self) -> bool {
        self.space0.plain() && markup_free(self.source@) && self.space1.plain()
    }

    /// Without its markup, the HTML reads as the text it was written from.
    pub proof fn lemma_round_trip(self)
        requires
            self.plain(),
        ensures
            reads_as(self.html(), self.source()),
    {
        broadcast use lemma_reads_as_concat, lemma_span_reads_as;

        reveal(Base64::html);
        lemma_classes_tag_safe();
        lemma_words_markup_free();
        lemma_markup_free_reads_as_itself("base64,"@);
        self.space0.lemma_round_trip();
        lemma_markup_free_reads_as_itself(self.source@);
        self.space1.lemma_round_trip();
        lemma_char_reads_as_itself(';');
    }
}

impl Hex {
    /// The digits and the space around them are plain.
    pub open spec fn plain(&self) -> bool {
        self.space0.plain() && markup_free(self.source@) && self.space1.plain()
    }

    /// Without its markup, the HTML reads as the text it was written from.
    pub proof fn lemma_round_trip(self)
        requires
            self.plain(),
        ensures
            reads_as(self.html(), self.source()),
    {
        broadcast use lemma_reads_as_concat, lemma_span_reads_as;

        reveal(Hex::html);
        lemma_classes_tag_safe();
        lemma_words_markup_free();
        lemma_markup_free_reads_as_itself("hex,"@);
        self.space0.lemma_round_trip();
        lemma_markup_free_reads_as_itself(self.source@);
        self.space1.lemma_round_trip();
        lemma_char_reads_as_itself(';');
    }
}

impl File {
    /// The file name is a plain file name and the space around it is plain.
    pub open spec fn plain(&self) -> bool {
        self.space0.plain() && self.filename.plain_filename() && self.space1.plain()
    }

    /// Without its markup, the HTML reads as the text it was written from.
    pub proof fn lemma_round_trip(self)
        requires
            self.plain(),
        ensures
            reads_as(self.html(), self.source()),
    {
        broadcast use lemma_reads_as_concat;

        reveal(File::html);
        lemma_words_markup_free();
        lemma_markup_free_reads_as_itself("file,"@);
        self.space0.lemma_round_trip();
        self.filename.lemma_filename_round_trip();
        self.space1.lemma_round_trip();
        lemma_char_reads_as_itself(';');
    }
}

impl Count {
    /// A count is digits, or `-1`: its HTML reads as the count.
    pub proof fn lemma_round_trip(self)
        ensures
            reads_as(self.html(), self.source()),
    {
        match self {
            Count::Finite(n) => lemma_decimal_markup_free(n as nat),
            Count::Infinite => {},
        }
        lemma_number_round_trip(self.source());
    }
}

impl DurationUnit {
    /// The name holds neither `<` nor `&`.
    pub proof fn lemma_name_markup_free(self)
        ensures
            markup_free(self.name()),
    {
        reveal_strlit("ms");
        reveal_strlit("s");
        reveal_strlit("m");
    }
}

impl Duration {
    /// The number is spelled without `<` and `&`.
    pub open spec fn plain(&self) -> bool {
        markup_free(self.value.source())
    }

    /// Without its markup, the HTML reads as the text it was written from.
    pub proof fn lemma_round_trip(self)
        requires
            self.plain(),
        ensures
            reads_as(self.html(), self.source()),
    {
        broadcast use lemma_reads_as_concat, lemma_span_reads_as;

        reveal(Duration::html);
        lemma_classes_tag_safe();
        lemma_number_round_trip(self.value.source());
        match self.unit {
            Some(u) => {
                u.lemma_name_markup_free();
                lemma_markup_free_reads_as_itself(u.name());
            },
            None => crate::markup::lemma_reads_as_empty(),
        }
        assert(reads_as(unit_html(self.unit), crate::ast::value::unit_source(self.unit)));
    }
}

} // verus!
