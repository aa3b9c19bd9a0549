//! Building text: characters, decimal numbers, escaping.

use vstd::prelude::*;
use vstd::string::*;
use crate::markup::{
    amp_entity, contains, doubled_amp_entity, escape, gt_entity, lemma_escape_doubles_only_entities,
    lemma_escape_reads_as, lt_entity, markup_free, reads_as,
};

verus! {

/// Appends one character to `buf`.
///
/// Calls `String::push`, which std documents as appending the given character
/// to the end of the string.
#[verifier::external_body]
pub(crate) fn push_char(buf: &mut String, c: char)
    ensures
        final(buf)@ == old(buf)@.push(c),
{
    buf.push(c)
}

/// Joining is associative.
pub broadcast proof fn lemma_concat_assoc(a: Seq<char>, b: Seq<char>, c: Seq<char>)
    ensures
        #[trigger] ((a + b) + c) == a + (b + c),
{
    assert((a + b) + c =~= a + (b + c));
}

/// Nothing joined to text is that text.
pub broadcast proof fn lemma_concat_empty_left(a: Seq<char>)
    ensures
        #[trigger] (Seq::<char>::empty() + a) == a,
{
    assert(Seq::<char>::empty() + a =~= a);
}

/// Text joined by nothing is that text.
pub broadcast proof fn lemma_concat_empty_right(a: Seq<char>)
    ensures
        #[trigger] (a + Seq::<char>::empty()) == a,
{
    assert(a + Seq::<char>::empty() =~= a);
}

pub broadcast group group_concat {
    lemma_concat_assoc,
    lemma_concat_empty_left,
    lemma_concat_empty_right,
}

/// The pieces that `f` gives for each of `items`, one after the other.
pub open spec fn joined<T>(items: Seq<T>, f: spec_fn(T) -> Seq<char>) -> Seq<char>
    decreases items.len(),
{
    if items.len() == 0 {
        Seq::empty()
    } else {
        joined(items.drop_last(), f) + f(items.last())
    }
}

/// The pieces of the first `n + 1` items are those of the first `n` and the
/// piece of the next one.
pub proof fn lemma_joined_step<T>(items: Seq<T>, f: spec_fn(T) -> Seq<char>, n: int)
    requires
        0 <= n < items.len(),
    ensures
        joined(items.take(n + 1), f) == joined(items.take(n), f) + f(items[n]),
{
    assert(items.take(n + 1).drop_last() =~= items.take(n));
}

/// Where each piece under `f` reads as the piece under `g`, the whole reads
/// as the whole.
pub proof fn lemma_joined_reads_as<T>(
    items: Seq<T>,
    f: spec_fn(T) -> Seq<char>,
    g: spec_fn(T) -> Seq<char>,
)
    requires
        forall|i: int| 0 <= i < items.len() ==> reads_as(f(#[trigger] items[i]), g(items[i])),
    ensures
        reads_as(joined(items, f), joined(items, g)),
    decreases items.len(),
{
    if items.len() > 0 {
        let front = items.drop_last();
        assert forall|i: int| 0 <= i < front.len() implies reads_as(
            f(#[trigger] front[i]),
            g(front[i]),
        ) by {
            assert(front[i] == items[i]);
        }
        lemma_joined_reads_as(front, f, g);
        assert(items.last() == items[items.len() - 1]);
        crate::markup::lemma_reads_as_concat(
            joined(front, f),
            joined(front, g),
            f(items.last()),
            g(items.last()),
        );
    }
}

/// Escapes `s` for HTML: `&`, `<` and `>` become `&amp;`, `&lt;` and `&gt;`,
/// every other character stays. The result reads as `s`, and holds the
/// doubled entity `&amp;amp;` exactly where `s` held the entity `&amp;`.
pub fn escape_xml(s: &str) -> (out: String)
    ensures
        out@ == escape(s@),
        reads_as(out@, s@),
        contains(out@, doubled_amp_entity()) <==> contains(s@, amp_entity()),
{
    let mut out = String::new();
    proof {
        reveal_strlit("&amp;");
        reveal_strlit("&lt;");
        reveal_strlit("&gt;");
        assert("&amp;"@ =~= amp_entity());
        assert("&lt;"@ =~= lt_entity());
        assert("&gt;"@ =~= gt_entity());
    }
    for c in it: s.chars()
        invariant
            it.seq() == s@,
            out@ == escape(s@.take(it.index() as int)),
            "&amp;"@ == amp_entity(),
            "&lt;"@ == lt_entity(),
            "&gt;"@ == gt_entity(),
    {
        proof {
            assert(s@.take(it.index() + 1).drop_last() =~= s@.take(it.index() as int));
        }
        if c == '&' {
            out.append("&amp;");
        } else if c == '<' {
            out.append("&lt;");
        } else if c == '>' {
            out.append("&gt;");
        } else {
            push_char(&mut out, c);
        }
    }
    proof {
        assert(s@.take(s@.len() as int) =~= s@);
        lemma_escape_reads_as(s@);
        lemma_escape_doubles_only_entities(s@);
    }
    out
}

/// What one character becomes when only the angle brackets are encoded.
pub open spec fn encode_angle_char(c: char) -> Seq<char> {
    if c == '<' {
        lt_entity()
    } else if c == '>' {
        gt_entity()
    } else {
        seq![c]
    }
}

/// Text with `<` and `>` replaced by their entities, and `&` left alone.
pub open spec fn encode_angles(s: Seq<char>) -> Seq<char>
    decreases s.len(),
{
    if s.len() == 0 {
        Seq::empty()
    } else {
        encode_angles(s.drop_last()) + encode_angle_char(s.last())
    }
}

/// On text without `&`, encoding the angle brackets is escaping.
pub proof fn lemma_encode_angles_is_escape(s: Seq<char>)
    requires
        forall|i: int| 0 <= i < s.len() ==> s[i] != '&',
    ensures
        encode_angles(s) == escape(s),
    decreases s.len(),
{
    if s.len() > 0 {
        let front = s.drop_last();
        assert forall|i: int| 0 <= i < front.len() implies front[i] != '&' by {
            assert(front[i] == s[i]);
        }
        lemma_encode_angles_is_escape(front);
        assert(s.last() == s[s.len() - 1]);
    }
}

/// Encodes the angle brackets of `s`: `<` and `>` become `&lt;` and `&gt;`.
pub fn encode_html(s: &str) -> (out: String)
    ensures
        out@ == encode_angles(s@),
{
    let mut out = String::new();
    proof {
        reveal_strlit("&lt;");
        reveal_strlit("&gt;");
        assert("&lt;"@ =~= lt_entity());
        assert("&gt;"@ =~= gt_entity());
    }
    for c in it: s.chars()
        invariant
            it.seq() == s@,
            out@ == encode_angles(s@.take(it.index() as int)),
            "&lt;"@ == lt_entity(),
            "&gt;"@ == gt_entity(),
    {
        proof {
            assert(s@.take(it.index() + 1).drop_last() =~= s@.take(it.index() as int));
        }
        if c == '<' {
            out.append("&lt;");
        } else if c == '>' {
            out.append("&gt;");
        } else {
            push_char(&mut out, c);
        }
    }
    proof {
        assert(s@.take(s@.len() as int) =~= s@);
    }
    out
}

/// What one character of a file name becomes in a document: a space is
/// written with a backslash before it.
pub open spec fn escape_space_char(c: char) -> Seq<char> {
    if c == ' ' {
        seq!['\\', ' ']
    } else {
        seq![c]
    }
}

/// A file name as a document writes it, each space with a backslash before it.
pub open spec fn escape_spaces(s: Seq<char>) -> Seq<char>
    decreases s.len(),
{
    if s.len() == 0 {
        Seq::empty()
    } else {
        escape_spaces(s.drop_last()) + escape_space_char(s.last())
    }
}

/// Writes a backslash before each space of `s`.
pub fn backslash_spaces(s: &str) -> (out: String)
    ensures
        out@ == escape_spaces(s@),
{
    let mut out = String::new();
    proof {
        reveal_strlit("\\ ");
        assert("\\ "@ =~= seq!['\\', ' ']);
    }
    for c in it: s.chars()
        invariant
            it.seq() == s@,
            out@ == escape_spaces(s@.take(it.index() as int)),
            "\\ "@ == seq!['\\', ' '],
    {
        proof {
            assert(s@.take(it.index() + 1).drop_last() =~= s@.take(it.index() as int));
        }
        if c == ' ' {
            out.append("\\ ");
        } else {
            push_char(&mut out, c);
        }
    }
    proof {
        assert(s@.take(s@.len() as int) =~= s@);
    }
    out
}

/// The characters of `s`, one by one.
pub fn chars_of(s: &str) -> (chars: Vec<char>)
    ensures
        chars@ == s@,
{
    let mut chars: Vec<char> = Vec::new();
    for c in it: s.chars()
        invariant
            it.seq() == s@,
            chars@ == s@.take(it.index() as int),
    {
        chars.push(c);
        proof {
            assert(chars@ =~= s@.take(it.index() + 1));
        }
    }
    proof {
        assert(s@.take(s@.len() as int) =~= s@);
    }
    chars
}

/// The character of the decimal digit `d`.
pub open spec fn digit_char(d: nat) -> char {
    if d == 0 {
        '0'
    } else if d == 1 {
        '1'
    } else if d == 2 {
        '2'
    } else if d == 3 {
        '3'
    } else if d == 4 {
        '4'
    } else if d == 5 {
        '5'
    } else if d == 6 {
        '6'
    } else if d == 7 {
        '7'
    } else if d == 8 {
        '8'
    } else {
        '9'
    }
}

/// The number `n` in decimal digits, without leading zeros.
pub open spec fn decimal(n: nat) -> Seq<char>
    decreases n,
{
    if n < 10 {
        seq![digit_char(n)]
    } else {
        decimal(n / 10).push(digit_char(n % 10))
    }
}

/// A decimal number holds nothing that HTML reads as markup.
pub proof fn lemma_decimal_markup_free(n: nat)
    ensures
        markup_free(decimal(n)),
        decimal(n).len() >= 1,
    decreases n,
{
    if n >= 10 {
        lemma_decimal_markup_free(n / 10);
    }
}

fn digit_of(d: u64) -> (c: char)
    requires
        d < 10,
    ensures
        c == digit_char(d as nat),
{
    if d == 0 {
        '0'
    } else if d == 1 {
        '1'
    } else if d == 2 {
        '2'
    } else if d == 3 {
        '3'
    } else if d == 4 {
        '4'
    } else if d == 5 {
        '5'
    } else if d == 6 {
        '6'
    } else if d == 7 {
        '7'
    } else if d == 8 {
        '8'
    } else {
        '9'
    }
}

/// Appends `n` in decimal to `buf`.
pub fn push_decimal(buf: &mut String, n: u64)
    ensures
        final(buf)@ == old(buf)@ + decimal(n as nat),
    decreases n,
{
    if n >= 10 {
        push_decimal(buf, n / 10);
    }
    push_char(buf, digit_of(n % 10));
    proof {
        if n >= 10 {
            assert(buf@ =~= old(buf)@ + decimal(n as nat));
        } else {
            assert(buf@ =~= old(buf)@ + decimal(n as nat));
        }
    }
}

/// The number `n` in decimal.
pub fn decimal_string(n: u64) -> (out: String)
    ensures
        out@ == decimal(n as nat),
{
    let mut out = String::new();
    push_decimal(&mut out, n);
    proof {
        assert(out@ =~= decimal(n as nat));
    }
    out
}

/// The word for a boolean: `true` or `false`.
pub open spec fn bool_text(b: bool) -> Seq<char> {
    if b {
        "true"@
    } else {
        "false"@
    }
}

/// The word for a boolean, as a document writes it.
pub fn bool_str(b: bool) -> (out: &'static str)
    ensures
        out@ == bool_text(b),
{
    if b {
        "true"
    } else {
        "false"
    }
}

/// The word for a boolean holds nothing that HTML reads as markup.
pub proof fn lemma_bool_text_markup_free(b: bool)
    ensures
        markup_free(bool_text(b)),
{
    reveal_strlit("true");
    reveal_strlit("false");
}

} // verus!
