//! What a piece of HTML reads as once its markup is taken away.
//!
//! Markup here is the small subset that the renderer writes: tags, which start
//! with `<` and run to the next `>`, and the three entities `&amp;`, `&lt;`
//! and `&gt;`.

use vstd::prelude::*;
use vstd::string::*;
use crate::text::{chars_of, push_char};

verus! {

/// The entity that stands for `&`.
pub open spec fn amp_entity() -> Seq<char> {
    seq!['&', 'a', 'm', 'p', ';']
}

/// The entity that stands for `<`.
pub open spec fn lt_entity() -> Seq<char> {
    seq!['&', 'l', 't', ';']
}

/// The entity that stands for `>`.
pub open spec fn gt_entity() -> Seq<char> {
    seq!['&', 'g', 't', ';']
}

/// What one character becomes when text is escaped for HTML.
pub open spec fn escape_char(c: char) -> Seq<char> {
    if c == '&' {
        amp_entity()
    } else if c == '<' {
        lt_entity()
    } else if c == '>' {
        gt_entity()
    } else {
        seq![c]
    }
}

/// Text escaped for HTML: each character replaced by `escape_char` of it.
pub open spec fn escape(s: Seq<char>) -> Seq<char>
    decreases s.len(),
{
    if s.len() == 0 {
        Seq::empty()
    } else {
        escape(s.drop_last()) + escape_char(s.last())
    }
}

/// Whether `s` begins with the characters of `p`.
pub open spec fn begins_with(s: Seq<char>, p: Seq<char>) -> bool {
    p.len() <= s.len() && s.take(p.len() as int) == p
}

/// The text left of `s` when tags are dropped and entities decoded. `in_tag`
/// says whether `s` starts inside a tag.
pub open spec fn strip_from(s: Seq<char>, in_tag: bool) -> Seq<char>
    decreases s.len(),
{
    if s.len() == 0 {
        Seq::empty()
    } else if in_tag {
        strip_from(s.drop_first(), s[0] != '>')
    } else if s[0] == '<' {
        strip_from(s.drop_first(), true)
    } else if begins_with(s, amp_entity()) {
        seq!['&'] + strip_from(s.skip(5), false)
    } else if begins_with(s, lt_entity()) {
        seq!['<'] + strip_from(s.skip(4), false)
    } else if begins_with(s, gt_entity()) {
        seq!['>'] + strip_from(s.skip(4), false)
    } else {
        seq![s[0]] + strip_from(s.drop_first(), false)
    }
}

/// Whether `s` is complete markup: every tag is closed and holds no `&`, and
/// every `&` outside a tag starts one of the three entities. `in_tag` says
/// whether `s` starts inside a tag.
pub open spec fn complete_from(s: Seq<char>, in_tag: bool) -> bool
    decreases s.len(),
{
    if s.len() == 0 {
        !in_tag
    } else if in_tag {
        s[0] != '&' && complete_from(s.drop_first(), s[0] != '>')
    } else if s[0] == '<' {
        complete_from(s.drop_first(), true)
    } else if begins_with(s, amp_entity()) {
        complete_from(s.skip(5), false)
    } else if begins_with(s, lt_entity()) || begins_with(s, gt_entity()) {
        complete_from(s.skip(4), false)
    } else {
        s[0] != '&' && complete_from(s.drop_first(), false)
    }
}

/// The text that remains of the HTML `s` without its markup.
pub open spec fn strip_markup(s: Seq<char>) -> Seq<char> {
    strip_from(s, false)
}

/// The HTML `html` is complete markup and reads as `text`.
pub open spec fn reads_as(html: Seq<char>, text: Seq<char>) -> bool {
    complete_from(html, false) && strip_markup(html) == text
}

/// Text that holds neither `<` nor `&`, so that it means itself in HTML.
pub open spec fn markup_free(s: Seq<char>) -> bool {
    forall|i: int| 0 <= i < s.len() ==> s[i] != '<' && s[i] != '&'
}

/// Text that holds neither `>` nor `&`, so that it can stand inside a tag.
pub open spec fn tag_safe(s: Seq<char>) -> bool {
    forall|i: int| 0 <= i < s.len() ==> s[i] != '>' && s[i] != '&'
}

/// Complete markup followed by more markup strips piece by piece.
pub proof fn lemma_strip_concat(a: Seq<char>, b: Seq<char>, in_tag: bool)
    requires
        complete_from(a, in_tag),
    ensures
        strip_from(a + b, in_tag) == strip_from(a, in_tag) + strip_from(b, false),
        complete_from(a + b, in_tag) == complete_from(b, false),
    decreases a.len(),
{
    let ab = a + b;
    if a.len() == 0 {
        assert(ab =~= b);
        assert(strip_from(a, in_tag) + strip_from(b, false) =~= strip_from(b, false));
    } else {
        assert(ab[0] == a[0]);
        if in_tag || a[0] == '<' {
            let next = if in_tag { a[0] != '>' } else { true };
            assert(ab.drop_first() =~= a.drop_first() + b);
            lemma_strip_concat(a.drop_first(), b, next);
        } else if begins_with(a, amp_entity()) {
            assert(ab.take(5) =~= a.take(5));
            assert(ab.skip(5) =~= a.skip(5) + b);
            lemma_strip_concat(a.skip(5), b, false);
            assert(strip_from(ab, false) =~= strip_from(a, false) + strip_from(b, false));
        } else if begins_with(a, lt_entity()) {
            assert(ab.take(4) =~= a.take(4));
            assert(ab.skip(4) =~= a.skip(4) + b);
            lemma_strip_concat(a.skip(4), b, false);
            assert(!begins_with(a, amp_entity()));
            assert(!begins_with(ab, amp_entity())) by {
                if begins_with(ab, amp_entity()) {
                    assert(ab.take(5)[1] == 'a');
                    assert(a.take(4)[1] == 'l');
                }
            }
            assert(strip_from(ab, false) =~= strip_from(a, false) + strip_from(b, false));
        } else if begins_with(a, gt_entity()) {
            assert(ab.take(4) =~= a.take(4));
            assert(ab.skip(4) =~= a.skip(4) + b);
            lemma_strip_concat(a.skip(4), b, false);
            assert(!begins_with(ab, amp_entity())) by {
                if begins_with(ab, amp_entity()) {
                    assert(ab.take(5)[1] == 'a');
                    assert(a.take(4)[1] == 'g');
                }
            }
            assert(!begins_with(ab, lt_entity())) by {
                if begins_with(ab, lt_entity()) {
                    assert(ab.take(4)[1] == 'l');
                    assert(a.take(4)[1] == 'g');
                }
            }
            assert(strip_from(ab, false) =~= strip_from(a, false) + strip_from(b, false));
        } else {
            assert(a[0] != '&');
            assert(!begins_with(ab, amp_entity())) by {
                if begins_with(ab, amp_entity()) {
                    assert(ab.take(5)[0] == '&');
                }
            }
            assert(!begins_with(ab, lt_entity())) by {
                if begins_with(ab, lt_entity()) {
                    assert(ab.take(4)[0] == '&');
                }
            }
            assert(!begins_with(ab, gt_entity())) by {
                if begins_with(ab, gt_entity()) {
                    assert(ab.take(4)[0] == '&');
                }
            }
            assert(ab.drop_first() =~= a.drop_first() + b);
            lemma_strip_concat(a.drop_first(), b, false);
            assert(strip_from(ab, false) =~= strip_from(a, false) + strip_from(b, false));
        }
    }
}

/// Two pieces of HTML, one after the other, read as their two texts, one after
/// the other.
pub broadcast proof fn lemma_reads_as_concat(
    h1: Seq<char>,
    t1: Seq<char>,
    h2: Seq<char>,
    t2: Seq<char>,
)
    ensures
        reads_as(h1, t1) && reads_as(h2, t2) ==> #[trigger] reads_as(h1 + h2, t1 + t2),
{
    if reads_as(h1, t1) && reads_as(h2, t2) {
        lemma_strip_concat(h1, h2, false);
    }
}

/// Nothing reads as nothing.
pub proof fn lemma_reads_as_empty()
    ensures
        reads_as(Seq::empty(), Seq::empty()),
{
}

/// Text without `<` and `&` reads as itself.
pub proof fn lemma_markup_free_reads_as_itself(s: Seq<char>)
    requires
        markup_free(s),
    ensures
        reads_as(s, s),
    decreases s.len(),
{
    if s.len() > 0 {
        let rest = s.drop_first();
        assert forall|i: int| 0 <= i < rest.len() implies rest[i] != '<' && rest[i] != '&' by {
            assert(rest[i] == s[i + 1]);
        }
        lemma_markup_free_reads_as_itself(rest);
        assert(s[0] != '&' && s[0] != '<');
        assert(!begins_with(s, amp_entity())) by {
            if begins_with(s, amp_entity()) {
                assert(s.take(5)[0] == '&');
            }
        }
        assert(!begins_with(s, lt_entity())) by {
            if begins_with(s, lt_entity()) {
                assert(s.take(4)[0] == '&');
            }
        }
        assert(!begins_with(s, gt_entity())) by {
            if begins_with(s, gt_entity()) {
                assert(s.take(4)[0] == '&');
            }
        }
        assert(seq![s[0]] + rest =~= s);
    } else {
        assert(s =~= Seq::<char>::empty());
    }
}

/// One escaped character reads as that character.
pub proof fn lemma_escape_char_reads_as(c: char)
    ensures
        reads_as(escape_char(c), seq![c]),
{
    let e = escape_char(c);
    if c == '&' {
        assert(e.take(5) =~= amp_entity());
        assert(e.skip(5) =~= Seq::<char>::empty());
        assert(strip_from(e.skip(5), false) =~= Seq::<char>::empty());
        assert(complete_from(e.skip(5), false));
        assert(strip_from(e, false) =~= seq![c]);
    } else if c == '<' {
        assert(e.take(4) =~= lt_entity());
        assert(!begins_with(e, amp_entity()));
        assert(e.skip(4) =~= Seq::<char>::empty());
        assert(strip_from(e.skip(4), false) =~= Seq::<char>::empty());
        assert(complete_from(e.skip(4), false));
        assert(strip_from(e, false) =~= seq![c]);
    } else if c == '>' {
        assert(e.take(4) =~= gt_entity());
        assert(!begins_with(e, amp_entity()));
        assert(!begins_with(e, lt_entity())) by {
            if begins_with(e, lt_entity()) {
                assert(e.take(4)[1] == 'l');
            }
        }
        assert(e.skip(4) =~= Seq::<char>::empty());
        assert(strip_from(e.skip(4), false) =~= Seq::<char>::empty());
        assert(complete_from(e.skip(4), false));
        assert(strip_from(e, false) =~= seq![c]);
    } else {
        lemma_markup_free_reads_as_itself(e);
    }
}

/// Escaped text reads as the text that was escaped.
pub proof fn lemma_escape_reads_as(s: Seq<char>)
    ensures
        reads_as(escape(s), s),
    decreases s.len(),
{
    if s.len() > 0 {
        lemma_escape_reads_as(s.drop_last());
        lemma_escape_char_reads_as(s.last());
        lemma_reads_as_concat(
            escape(s.drop_last()),
            s.drop_last(),
            escape_char(s.last()),
            seq![s.last()],
        );
        assert(s.drop_last() + seq![s.last()] =~= s);
    } else {
        assert(s =~= Seq::<char>::empty());
    }
}

/// Whether escaping changes the character `c`.
pub open spec fn is_special(c: char) -> bool {
    c == '&' || c == '<' || c == '>'
}

/// Whether `s` holds a character that escaping changes.
pub open spec fn has_special(s: Seq<char>) -> bool {
    exists|i: int| 0 <= i < s.len() && is_special(#[trigger] s[i])
}

/// Escaping never shortens text. It leaves text without special characters
/// as it is; it lengthens any other text, and leaves an `&` in it.
pub proof fn lemma_escape_grows(s: Seq<char>)
    ensures
        escape(s).len() >= s.len(),
        !has_special(s) ==> escape(s) == s,
        has_special(s) ==> escape(s).len() > s.len() && has_special(escape(s)),
    decreases s.len(),
{
    if s.len() == 0 {
        assert(escape(s) =~= s);
    } else {
        let front = s.drop_last();
        let c = s.last();
        lemma_escape_grows(front);
        let e = escape(s);
        assert(e == escape(front) + escape_char(c));
        if has_special(s) {
            let i = choose|i: int| 0 <= i < s.len() && is_special(#[trigger] s[i]);
            if i < s.len() - 1 {
                assert(is_special(front[i]));
                assert(has_special(front));
                let j = choose|j: int|
                    0 <= j < escape(front).len() && is_special(#[trigger] escape(front)[j]);
                assert(e[j] == escape(front)[j]);
                assert(is_special(e[j]));
            } else {
                assert(is_special(c));
                assert(escape_char(c)[0] == '&');
                assert(e[escape(front).len() as int] == escape_char(c)[0]);
                assert(is_special(e[escape(front).len() as int]));
            }
        } else {
            assert(!is_special(c)) by {
                assert(s[s.len() - 1] == c);
            }
            assert(!has_special(front)) by {
                if has_special(front) {
                    let i = choose|i: int| 0 <= i < front.len() && is_special(#[trigger] front[i]);
                    assert(is_special(s[i]));
                }
            }
            assert(escape(s) =~= s);
        }
    }
}

/// Escaping twice is not escaping once: the two differ on exactly the texts
/// that hold a special character. So a text that was escaped twice can be
/// told from one that was escaped once, and each text is to be escaped
/// exactly once.
pub proof fn lemma_escape_twice_differs(s: Seq<char>)
    ensures
        has_special(s) <==> escape(escape(s)) != escape(s),
{
    lemma_escape_grows(s);
    lemma_escape_grows(escape(s));
}

/// Text that was escaped once reads as the text; text that was escaped twice
/// reads as the escaped text, which is another text wherever the text holds a
/// special character.
pub proof fn lemma_escape_twice_reads_as_escaped(s: Seq<char>)
    ensures
        strip_markup(escape(s)) == s,
        strip_markup(escape(escape(s))) == escape(s),
        has_special(s) ==> strip_markup(escape(escape(s))) != s,
{
    lemma_escape_reads_as(s);
    lemma_escape_reads_as(escape(s));
    lemma_escape_grows(s);
}

/// The entity for `&`, escaped once more: `&amp;amp;`.
pub open spec fn doubled_amp_entity() -> Seq<char> {
    seq!['&', 'a', 'm', 'p', ';', 'a', 'm', 'p', ';']
}

/// Whether `p` stands in `s` at the place `at`.
pub open spec fn occurs_at(s: Seq<char>, p: Seq<char>, at: int) -> bool {
    0 <= at && at + p.len() <= s.len() && s.subrange(at, at + p.len()) == p
}

/// Whether `p` stands somewhere in `s`.
pub open spec fn contains(s: Seq<char>, p: Seq<char>) -> bool {
    exists|at: int| occurs_at(s, p, at)
}

/// What stands in a text still stands in it after something is put before.
proof fn lemma_occurs_after_prefix(before: Seq<char>, s: Seq<char>, p: Seq<char>, at: int)
    requires
        occurs_at(s, p, at),
    ensures
        occurs_at(before + s, p, before.len() + at),
        contains(before + s, p),
{
    assert((before + s).subrange(before.len() + at, before.len() + at + p.len()) =~= s.subrange(
        at,
        at + p.len(),
    ));
}

/// What stands in a text beyond its first `n` characters stands in the rest.
proof fn lemma_occurs_in_rest(s: Seq<char>, p: Seq<char>, at: int, n: int)
    requires
        occurs_at(s, p, at),
        0 <= n <= at,
    ensures
        occurs_at(s.skip(n), p, at - n),
{
    assert(s.skip(n).subrange(at - n, at - n + p.len()) =~= s.subrange(at, at + p.len()));
}

/// The characters of a doubled entity, where one stands at `at`.
proof fn lemma_doubled_entity_chars(s: Seq<char>, at: int)
    requires
        occurs_at(s, doubled_amp_entity(), at),
    ensures
        s[at] == '&',
        s[at + 1] == 'a',
        s[at + 2] == 'm',
        s[at + 3] == 'p',
        s[at + 4] == ';',
        s[at + 5] == 'a',
        s[at + 6] == 'm',
        s[at + 7] == 'p',
        s[at + 8] == ';',
{
    let found = s.subrange(at, at + 9);
    let d = doubled_amp_entity();
    assert(found[0] == d[0]);
    assert(found[1] == d[1]);
    assert(found[2] == d[2]);
    assert(found[3] == d[3]);
    assert(found[4] == d[4]);
    assert(found[5] == d[5]);
    assert(found[6] == d[6]);
    assert(found[7] == d[7]);
    assert(found[8] == d[8]);
}

/// Outside a tag, a character other than `<` and `&` is kept as it is.
proof fn lemma_strip_keeps_plain_char(s: Seq<char>)
    requires
        s.len() > 0,
        s[0] != '<',
        s[0] != '&',
    ensures
        strip_from(s, false) == seq![s[0]] + strip_from(s.drop_first(), false),
{
    assert(!begins_with(s, amp_entity())) by {
        if begins_with(s, amp_entity()) {
            assert(s.take(5)[0] == '&');
        }
    }
    assert(!begins_with(s, lt_entity())) by {
        if begins_with(s, lt_entity()) {
            assert(s.take(4)[0] == '&');
        }
    }
    assert(!begins_with(s, gt_entity())) by {
        if begins_with(s, gt_entity()) {
            assert(s.take(4)[0] == '&');
        }
    }
}

/// Where complete markup begins with a doubled entity, its text begins with
/// the entity.
proof fn lemma_doubled_entity_at_start(h: Seq<char>)
    requires
        occurs_at(h, doubled_amp_entity(), 0),
    ensures
        occurs_at(strip_from(h, false), amp_entity(), 0),
{
    lemma_doubled_entity_chars(h, 0);
    assert(h.take(5) =~= amp_entity());
    let x = h.skip(5);
    assert(x[0] == h[5] && x[1] == h[6] && x[2] == h[7] && x[3] == h[8]);
    let x1 = x.drop_first();
    let x2 = x1.drop_first();
    let x3 = x2.drop_first();
    assert(x1[0] == x[1] && x2[0] == x[2] && x3[0] == x[3]);
    lemma_strip_keeps_plain_char(x);
    lemma_strip_keeps_plain_char(x1);
    lemma_strip_keeps_plain_char(x2);
    lemma_strip_keeps_plain_char(x3);
    let text = strip_from(h, false);
    let tail = strip_from(x3.drop_first(), false);
    assert(text =~= seq!['&', 'a', 'm', 'p', ';'] + tail);
    assert(text.subrange(0, 5) =~= amp_entity());
}

/// A doubled entity in complete markup comes from an entity in its text:
/// where `&amp;amp;` stands in the markup, `&amp;` stands in what the markup
/// reads as.
pub proof fn lemma_doubled_entity_was_entity(h: Seq<char>, in_tag: bool, at: int)
    requires
        complete_from(h, in_tag),
        occurs_at(h, doubled_amp_entity(), at),
    ensures
        contains(strip_from(h, in_tag), amp_entity()),
    decreases h.len(),
{
    lemma_doubled_entity_chars(h, at);
    let rest = h.drop_first();
    if in_tag || h[0] == '<' {
        let next = if in_tag {
            h[0] != '>'
        } else {
            true
        };
        lemma_occurs_in_rest(h, doubled_amp_entity(), at, 1);
        lemma_doubled_entity_was_entity(rest, next, at - 1);
    } else if begins_with(h, amp_entity()) {
        assert(h.take(5)[1] == 'a' && h.take(5)[2] == 'm' && h.take(5)[3] == 'p' && h.take(5)[4]
            == ';');
        if at == 0 {
            lemma_doubled_entity_at_start(h);
        } else {
            assert(at >= 5);
            lemma_occurs_in_rest(h, doubled_amp_entity(), at, 5);
            lemma_doubled_entity_was_entity(h.skip(5), false, at - 5);
            let found = choose|j: int| occurs_at(strip_from(h.skip(5), false), amp_entity(), j);
            lemma_occurs_after_prefix(seq!['&'], strip_from(h.skip(5), false), amp_entity(), found);
        }
    } else if begins_with(h, lt_entity()) || begins_with(h, gt_entity()) {
        assert(h.take(4)[1] == h[1] && h.take(4)[2] == h[2] && h.take(4)[3] == h[3]);
        assert(h[1] != 'a' && h[1] != '&' && h[2] != '&' && h[3] != '&') by {
            if begins_with(h, lt_entity()) {
                assert(h.take(4)[1] == 'l' && h.take(4)[2] == 't' && h.take(4)[3] == ';');
            } else {
                assert(h.take(4)[1] == 'g' && h.take(4)[2] == 't' && h.take(4)[3] == ';');
            }
        }
        assert(at >= 4);
        lemma_occurs_in_rest(h, doubled_amp_entity(), at, 4);
        lemma_doubled_entity_was_entity(h.skip(4), false, at - 4);
        let found = choose|j: int| occurs_at(strip_from(h.skip(4), false), amp_entity(), j);
        let first = if begins_with(h, lt_entity()) {
            seq!['<']
        } else {
            seq!['>']
        };
        lemma_occurs_after_prefix(first, strip_from(h.skip(4), false), amp_entity(), found);
    } else {
        lemma_occurs_in_rest(h, doubled_amp_entity(), at, 1);
        lemma_doubled_entity_was_entity(rest, false, at - 1);
        let found = choose|j: int| occurs_at(strip_from(rest, false), amp_entity(), j);
        lemma_occurs_after_prefix(seq![h[0]], strip_from(rest, false), amp_entity(), found);
    }
}

/// Escaping goes piece by piece.
pub proof fn lemma_escape_concat(a: Seq<char>, b: Seq<char>)
    ensures
        escape(a + b) == escape(a) + escape(b),
    decreases b.len(),
{
    if b.len() == 0 {
        assert(a + b =~= a);
        assert(escape(a) + escape(b) =~= escape(a));
    } else {
        assert((a + b).drop_last() =~= a + b.drop_last());
        assert((a + b).last() == b.last());
        lemma_escape_concat(a, b.drop_last());
        assert(escape(a + b) =~= escape(a) + escape(b));
    }
}

/// Escaping the entity `&amp;` gives the doubled entity `&amp;amp;`.
pub proof fn lemma_escape_of_entity()
    ensures
        escape(amp_entity()) == doubled_amp_entity(),
{
    let e = amp_entity();
    let e4 = e.drop_last();
    let e3 = e4.drop_last();
    let e2 = e3.drop_last();
    let e1 = e2.drop_last();
    assert(e1.drop_last().len() == 0);
    assert(escape(e1.drop_last()) =~= Seq::<char>::empty());
    assert(escape(e1) =~= seq!['&', 'a', 'm', 'p', ';']);
    assert(escape(e2) =~= seq!['&', 'a', 'm', 'p', ';', 'a']);
    assert(escape(e3) =~= seq!['&', 'a', 'm', 'p', ';', 'a', 'm']);
    assert(escape(e4) =~= seq!['&', 'a', 'm', 'p', ';', 'a', 'm', 'p']);
    assert(escape(e) =~= doubled_amp_entity());
}

/// Escaped text holds the doubled entity `&amp;amp;` exactly where the text
/// held the entity `&amp;`: each text is escaped once, and an `&` that
/// escaping wrote is never escaped again.
pub proof fn lemma_escape_doubles_only_entities(s: Seq<char>)
    ensures
        contains(escape(s), doubled_amp_entity()) <==> contains(s, amp_entity()),
{
    if contains(escape(s), doubled_amp_entity()) {
        let at = choose|at: int| occurs_at(escape(s), doubled_amp_entity(), at);
        lemma_escape_reads_as(s);
        lemma_doubled_entity_was_entity(escape(s), false, at);
    }
    if contains(s, amp_entity()) {
        let at = choose|at: int| occurs_at(s, amp_entity(), at);
        let before = s.take(at);
        let after = s.skip(at + 5);
        assert(s =~= before + s.subrange(at, at + 5) + after);
        lemma_escape_concat(before + amp_entity(), after);
        lemma_escape_concat(before, amp_entity());
        lemma_escape_of_entity();
        let escaped = escape(s);
        let start = escape(before).len() as int;
        assert(escaped == escape(before) + doubled_amp_entity() + escape(after));
        assert(escaped.subrange(start, start + 9) =~= doubled_amp_entity());
        assert(occurs_at(escaped, doubled_amp_entity(), start));
    }
}

/// Markup that reads as a text without the entity `&amp;` holds no doubled
/// entity `&amp;amp;`.
pub proof fn lemma_no_entity_no_doubled_entity(html: Seq<char>, text: Seq<char>)
    requires
        reads_as(html, text),
        !contains(text, amp_entity()),
    ensures
        !contains(html, doubled_amp_entity()),
{
    if contains(html, doubled_amp_entity()) {
        let at = choose|at: int| occurs_at(html, doubled_amp_entity(), at);
        lemma_doubled_entity_was_entity(html, false, at);
    }
}

/// Inside a tag, text without `>` and `&` followed by `>` closes the tag and
/// leaves nothing.
proof fn lemma_tag_rest(s: Seq<char>)
    requires
        s.len() >= 1,
        s.last() == '>',
        tag_safe(s.drop_last()),
    ensures
        complete_from(s, true),
        strip_from(s, true) == Seq::<char>::empty(),
    decreases s.len(),
{
    let rest = s.drop_first();
    if s.len() == 1 {
        assert(rest.len() == 0);
        assert(complete_from(rest, false));
        assert(strip_from(rest, false) =~= Seq::<char>::empty());
    } else {
        assert(s[0] == s.drop_last()[0]);
        assert(rest.drop_last() =~= s.drop_last().drop_first());
        assert forall|i: int| 0 <= i < rest.drop_last().len() implies rest.drop_last()[i] != '>'
            && rest.drop_last()[i] != '&' by {
            assert(rest.drop_last()[i] == s.drop_last()[i + 1]);
        }
        lemma_tag_rest(rest);
    }
}

/// A tag reads as nothing.
pub proof fn lemma_tag_reads_as_nothing(s: Seq<char>)
    requires
        s.len() >= 2,
        s[0] == '<',
        s.last() == '>',
        tag_safe(s.drop_last()),
    ensures
        reads_as(s, Seq::empty()),
{
    let rest = s.drop_first();
    assert(rest.drop_last() =~= s.drop_last().drop_first());
    assert forall|i: int| 0 <= i < rest.drop_last().len() implies rest.drop_last()[i] != '>'
        && rest.drop_last()[i] != '&' by {
        assert(rest.drop_last()[i] == s.drop_last()[i + 1]);
    }
    lemma_tag_rest(rest);
}

/// Whether the characters of `html` from place `at` on begin with `&` and
/// then `a`, `b`, `c` in turn.
fn entity_at(html: &Vec<char>, at: usize, a: char, b: char, c: char) -> (found: bool)
    requires
        at < html@.len(),
    ensures
        found == begins_with(html@.skip(at as int), seq!['&', a, b, c]),
{
    let ghost rest = html@.skip(at as int);
    let ghost entity = seq!['&', a, b, c];
    if html.len() - at < 4 {
        return false;
    }
    let found = html[at] == '&' && html[at + 1] == a && html[at + 2] == b && html[at + 3] == c;
    proof {
        if found {
            assert(rest.take(4) =~= entity);
        } else {
            if rest.take(4) == entity {
                assert(rest.take(4)[0] == entity[0]);
                assert(rest.take(4)[1] == entity[1]);
                assert(rest.take(4)[2] == entity[2]);
                assert(rest.take(4)[3] == entity[3]);
            }
        }
    }
    found
}

/// Whether the characters of `html` from place `at` on begin with `&amp;`.
fn amp_entity_at(html: &Vec<char>, at: usize) -> (found: bool)
    requires
        at < html@.len(),
    ensures
        found == begins_with(html@.skip(at as int), amp_entity()),
{
    let ghost rest = html@.skip(at as int);
    if html.len() - at < 5 {
        return false;
    }
    let found = html[at] == '&' && html[at + 1] == 'a' && html[at + 2] == 'm' && html[at + 3]
        == 'p' && html[at + 4] == ';';
    proof {
        if found {
            assert(rest.take(5) =~= amp_entity());
        } else {
            if rest.take(5) == amp_entity() {
                assert(rest.take(5)[0] == amp_entity()[0]);
                assert(rest.take(5)[1] == amp_entity()[1]);
                assert(rest.take(5)[2] == amp_entity()[2]);
                assert(rest.take(5)[3] == amp_entity()[3]);
                assert(rest.take(5)[4] == amp_entity()[4]);
            }
        }
    }
    found
}

/// Takes the markup away from `html`: drops each tag, from `<` to the next
/// `>`, and puts `&`, `<` and `>` in place of `&amp;`, `&lt;` and `&gt;`.
pub fn strip_tags(html: &str) -> (text: String)
    ensures
        text@ == strip_markup(html@),
{
    let chars = chars_of(html);
    let len: usize = chars.len();
    let mut text = String::new();
    let mut at: usize = 0;
    let mut in_tag = false;
    proof {
        assert(html@.skip(0) =~= html@);
        assert(text@ + strip_from(html@, false) =~= strip_from(html@, false));
    }
    while at < len
        invariant
            chars@ == html@,
            len == html@.len(),
            at <= len,
            strip_markup(html@) == text@ + strip_from(html@.skip(at as int), in_tag),
        decreases len - at,
    {
        let ghost rest = html@.skip(at as int);
        let ghost before = text@;
        let c = chars[at];
        proof {
            assert(rest[0] == c);
            assert(rest.drop_first() =~= html@.skip(at + 1));
        }
        if in_tag {
            in_tag = c != '>';
            at = at + 1;
        } else if c == '<' {
            in_tag = true;
            at = at + 1;
        } else if amp_entity_at(&chars, at) {
            push_char(&mut text, '&');
            proof {
                assert(rest.skip(5) =~= html@.skip(at + 5));
                assert(text@ + strip_from(rest.skip(5), false) =~= before + (seq!['&']
                    + strip_from(rest.skip(5), false)));
            }
            at = at + 5;
        } else if entity_at(&chars, at, 'l', 't', ';') {
            push_char(&mut text, '<');
            proof {
                assert(seq!['&', 'l', 't', ';'] =~= lt_entity());
                assert(rest.skip(4) =~= html@.skip(at + 4));
                assert(text@ + strip_from(rest.skip(4), false) =~= before + (seq!['<']
                    + strip_from(rest.skip(4), false)));
            }
            at = at + 4;
        } else if entity_at(&chars, at, 'g', 't', ';') {
            push_char(&mut text, '>');
            proof {
                assert(seq!['&', 'l', 't', ';'] =~= lt_entity());
                assert(seq!['&', 'g', 't', ';'] =~= gt_entity());
                assert(rest.skip(4) =~= html@.skip(at + 4));
                assert(text@ + strip_from(rest.skip(4), false) =~= before + (seq!['>']
                    + strip_from(rest.skip(4), false)));
            }
            at = at + 4;
        } else {
            push_char(&mut text, c);
            proof {
                assert(seq!['&', 'l', 't', ';'] =~= lt_entity());
                assert(seq!['&', 'g', 't', ';'] =~= gt_entity());
                assert(text@ + strip_from(rest.drop_first(), false) =~= before + (seq![c]
                    + strip_from(rest.drop_first(), false)));
            }
            at = at + 1;
        }
    }
    proof {
        assert(html@.skip(at as int).len() == 0);
        assert(text@ + Seq::<char>::empty() =~= text@);
    }
    text
}

} // verus!
