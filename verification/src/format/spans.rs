//! The tags that the renderer writes around tokens and around the document.

use vstd::prelude::*;
use vstd::string::*;
use crate::markup::{lemma_reads_as_concat, lemma_tag_reads_as_nothing, reads_as, tag_safe};

verus! {

/// The tag that opens a span of the class `class`.
pub open spec fn span_open(class: Seq<char>) -> Seq<char> {
    "<span class=\""@ + class + "\">"@
}

/// The tag that closes a span.
pub open spec fn span_close() -> Seq<char> {
    "</span>"@
}

/// `content` inside a span of the class `class`.
#[verifier::opaque]
pub open spec fn span(class: Seq<char>, content: Seq<char>) -> Seq<char> {
    span_open(class) + content + span_close()
}

/// The tags that open a block of code of the class `class`.
pub open spec fn pre_open(class: Seq<char>) -> Seq<char> {
    "<pre><code class=\""@ + class + "\">"@
}

/// The tags that close a block of code.
pub open spec fn pre_close() -> Seq<char> {
    "</code></pre>"@
}

/// `content` inside a block of code of the class `class`.
#[verifier::opaque]
pub open spec fn pre(class: Seq<char>, content: Seq<char>) -> Seq<char> {
    pre_open(class) + content + pre_close()
}

/// The opening tag of a span reads as nothing.
pub proof fn lemma_span_open_reads_as_nothing(class: Seq<char>)
    requires
        tag_safe(class),
    ensures
        reads_as(span_open(class), Seq::empty()),
{
    reveal_strlit("<span class=\"");
    reveal_strlit("\">");
    let head = "<span class=\""@;
    let tail = "\">"@;
    let tag = span_open(class);
    assert(tag.len() == head.len() + class.len() + 2);
    assert(tag[0] == head[0]);
    assert(tag.last() == tail[1]);
    assert forall|i: int| 0 <= i < tag.drop_last().len() implies tag.drop_last()[i] != '>'
        && tag.drop_last()[i] != '&' by {
        if i < head.len() {
            assert(tag[i] == head[i]);
        } else if i < head.len() + class.len() {
            assert(tag[i] == class[i - head.len()]);
        } else {
            assert(tag[i] == tail[0]);
        }
    }
    lemma_tag_reads_as_nothing(tag);
}

/// The closing tag of a span reads as nothing.
pub proof fn lemma_span_close_reads_as_nothing()
    ensures
        reads_as(span_close(), Seq::empty()),
{
    reveal_strlit("</span>");
    lemma_tag_reads_as_nothing(span_close());
}

/// A span reads as what its content reads as.
pub broadcast proof fn lemma_span_reads_as(class: Seq<char>, content: Seq<char>, text: Seq<char>)
    requires
        tag_safe(class),
        reads_as(content, text),
    ensures
        #[trigger] reads_as(span(class, content), text),
{
    reveal(span);
    lemma_span_open_reads_as_nothing(class);
    lemma_span_close_reads_as_nothing();
    lemma_reads_as_concat(span_open(class), Seq::empty(), content, text);
    lemma_reads_as_concat(
        span_open(class) + content,
        Seq::<char>::empty() + text,
        span_close(),
        Seq::empty(),
    );
    assert(Seq::<char>::empty() + text + Seq::<char>::empty() =~= text);
}

/// A block of code reads as what its content reads as.
pub proof fn lemma_pre_reads_as(class: Seq<char>, content: Seq<char>, text: Seq<char>)
    requires
        tag_safe(class),
        reads_as(content, text),
    ensures
        reads_as(pre(class, content), text),
{
    reveal(pre);
    reveal_strlit("<pre><code class=\"");
    reveal_strlit("\">");
    reveal_strlit("</code></pre>");
    reveal_strlit("<pre>");
    reveal_strlit("<code class=\"");
    reveal_strlit("</code>");
    reveal_strlit("</pre>");
    let nothing = Seq::<char>::empty();
    let code_head = "<code class=\""@;
    let code_tag = code_head + class + "\">"@;
    assert(code_tag.len() == code_head.len() + class.len() + 2);
    assert forall|i: int| 0 <= i < code_tag.drop_last().len() implies code_tag.drop_last()[i]
        != '>' && code_tag.drop_last()[i] != '&' by {
        if i < code_head.len() {
            assert(code_tag[i] == code_head[i]);
        } else if i < code_head.len() + class.len() {
            assert(code_tag[i] == class[i - code_head.len()]);
        } else {
            assert(code_tag[i] == "\">"@[0]);
        }
    }
    assert(code_tag[0] == code_head[0]);
    assert(code_tag.last() == "\">"@[1]);
    lemma_tag_reads_as_nothing(code_tag);
    lemma_tag_reads_as_nothing("<pre>"@);
    lemma_tag_reads_as_nothing("</code>"@);
    lemma_tag_reads_as_nothing("</pre>"@);
    lemma_reads_as_concat("<pre>"@, nothing, code_tag, nothing);
    lemma_reads_as_concat("</code>"@, nothing, "</pre>"@, nothing);
    assert(pre_open(class) =~= "<pre>"@ + code_tag);
    assert(pre_close() =~= "</code>"@ + "</pre>"@);
    assert(nothing + nothing =~= nothing);
    lemma_reads_as_concat(pre_open(class), nothing, content, text);
    lemma_reads_as_concat(pre_open(class) + content, nothing + text, pre_close(), nothing);
    assert(nothing + text + nothing =~= text);
}

} // verus!
