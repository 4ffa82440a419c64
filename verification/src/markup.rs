//! The markup of a news description, as a grammar over sequences of
//! characters: what stands at a cursor, which span it yields, and where the
//! cursor stands afterwards.

use crate::text::{before, from_first, lemma_first_index, lemma_past_shorter, past, past_match};
use vstd::prelude::*;

verus! {

/// The opener of a code span.
pub open spec fn code_open() -> Seq<char> {
    "<code>"@
}

/// The tag that closes a paragraph.
pub open spec fn para_close() -> Seq<char> {
    "</p>"@
}

/// The start of an anchor's opening tag.
pub open spec fn anchor_open() -> Seq<char> {
    "<a"@
}

/// The text that comes before the target of an anchor.
pub open spec fn href_key() -> Seq<char> {
    "href=\""@
}

/// What the marks hold, character by character.
pub proof fn lemma_marks()
    ensures
        code_open() == seq!['<', 'c', 'o', 'd', 'e', '>'],
        para_close() == seq!['<', '/', 'p', '>'],
        anchor_open() == seq!['<', 'a'],
        href_key() == seq!['h', 'r', 'e', 'f', '=', '"'],
{
    reveal_strlit("<code>");
    reveal_strlit("</p>");
    reveal_strlit("<a");
    reveal_strlit("href=\"");
    assert(code_open() =~= seq!['<', 'c', 'o', 'd', 'e', '>']);
    assert(para_close() =~= seq!['<', '/', 'p', '>']);
    assert(anchor_open() =~= seq!['<', 'a']);
    assert(href_key() =~= seq!['h', 'r', 'e', 'f', '=', '"']);
}

/// What stands at the start of a text, by the first rule that matches.
pub enum Lead {
    /// Nothing: the text is empty.
    End,
    /// The opener of a code span.
    Code,
    /// The close of a paragraph.
    Break,
    /// The opening tag of an anchor, or of any element whose name begins
    /// with `a`.
    Anchor,
    /// Any other tag.
    Tag,
    /// Ordinary text.
    Text,
}

/// What stands at the start of `s`.
pub open spec fn lead(s: Seq<char>) -> Lead {
    if s.len() == 0 {
        Lead::End
    } else if code_open().is_prefix_of(s) {
        Lead::Code
    } else if para_close().is_prefix_of(s) {
        Lead::Break
    } else if anchor_open().is_prefix_of(s) {
        Lead::Anchor
    } else if s[0] == '<' {
        Lead::Tag
    } else {
        Lead::Text
    }
}

/// A stretch of markup that yields one item, with its text as it stands in
/// the source, character references and all.
pub enum SpanView {
    /// The text of a code span.
    Code(Seq<char>),
    /// A run of ordinary text.
    Text(Seq<char>),
    /// The end of a paragraph.
    Break,
    /// An anchor: its target, then its label.
    Link(Seq<char>, Seq<char>),
}

/// `s` without the tags at its start that yield nothing.
pub open spec fn past_tags(s: Seq<char>) -> Seq<char>
    decreases s.len(),
    via past_tags_decreases
{
    if lead(s) == Lead::Tag {
        past_tags(past(s, '>'))
    } else {
        s
    }
}

#[via_fn]
proof fn past_tags_decreases(s: Seq<char>) {
    lemma_past_shorter(s, '>');
}

/// The span at the start of `s`, where a span stands there.
///
/// The text of a code span and the label of an anchor end in front of the
/// next `<`, the target of an anchor in front of the next `"`. The target
/// is sought behind the first `href="` of the whole text; where there is
/// none, it is the text itself up to its first `"`.
pub open spec fn span_at(s: Seq<char>) -> SpanView {
    match lead(s) {
        Lead::Code => SpanView::Code(before(s.skip(code_open().len() as int), '<')),
        Lead::Break => SpanView::Break,
        Lead::Anchor => SpanView::Link(
            before(past_match(s, href_key()), '"'),
            before(past(s, '>'), '<'),
        ),
        _ => SpanView::Text(before(s, '<')),
    }
}

/// What is left of `s` behind the span at its start.
///
/// A code span ends with the first `>` behind its opener, an anchor with
/// the second `>` of the text, whatever tags those close.
pub open spec fn past_span(s: Seq<char>) -> Seq<char> {
    match lead(s) {
        Lead::Code => past(s.skip(code_open().len() as int), '>'),
        Lead::Break => s.skip(para_close().len() as int),
        Lead::Anchor => past(past(s, '>'), '>'),
        _ => from_first(s, '<'),
    }
}

/// The first span that `s` yields, if it yields any.
pub open spec fn first_span(s: Seq<char>) -> Option<SpanView> {
    if past_tags(s).len() == 0 {
        None
    } else {
        Some(span_at(past_tags(s)))
    }
}

/// What is left of `s` once its first span has been taken: nothing where
/// it yields none.
pub open spec fn past_first_span(s: Seq<char>) -> Seq<char> {
    if past_tags(s).len() == 0 {
        past_tags(s)
    } else {
        past_span(past_tags(s))
    }
}

/// Passing over tags leaves an end of the text, at whose start no such tag
/// stands.
pub proof fn lemma_past_tags(s: Seq<char>)
    ensures
        past_tags(s).is_suffix_of(s),
        lead(past_tags(s)) != Lead::Tag,
    decreases s.len(),
{
    if lead(s) == Lead::Tag {
        lemma_past_shorter(s, '>');
        lemma_past_tags(past(s, '>'));
    }
}

/// A span takes at least one character, and leaves an end of the text.
pub proof fn lemma_span_advances(s: Seq<char>)
    requires
        lead(s) != Lead::End,
        lead(s) != Lead::Tag,
    ensures
        past_span(s).is_suffix_of(s),
        past_span(s).len() < s.len(),
{
    lemma_marks();
    match lead(s) {
        Lead::Code => {
            lemma_past_shorter(s.skip(6), '>');
        },
        Lead::Break => {},
        Lead::Anchor => {
            lemma_past_shorter(s, '>');
            lemma_past_shorter(past(s, '>'), '>');
        },
        _ => {
            lemma_first_index(s, '<');
        },
    }
}

/// One step of the walk over a text that is not empty takes at least one
/// character, and leaves an end of the text.
pub proof fn lemma_step_advances(s: Seq<char>)
    ensures
        past_first_span(s).is_suffix_of(s),
        s.len() > 0 ==> past_first_span(s).len() < s.len(),
        first_span(s) is None ==> past_first_span(s).len() == 0,
{
    lemma_past_tags(s);
    if past_tags(s).len() > 0 {
        lemma_span_advances(past_tags(s));
    }
}

/// The stretches of `s` that the successive steps of the walk take, up to
/// the step that reaches its end. A step passes over the tags that yield
/// nothing and takes one span, or finds that none is left.
pub open spec fn strides(s: Seq<char>) -> Seq<Seq<char>>
    decreases s.len(),
    via strides_decreases
{
    if s.len() == 0 {
        Seq::empty()
    } else {
        seq![s.take(s.len() - past_first_span(s).len())] + strides(past_first_span(s))
    }
}

#[via_fn]
proof fn strides_decreases(s: Seq<char>) {
    lemma_step_advances(s);
}

/// The texts of `parts`, one behind the other.
pub open spec fn joined(parts: Seq<Seq<char>>) -> Seq<char>
    decreases parts.len(),
{
    if parts.len() == 0 {
        Seq::empty()
    } else {
        parts[0] + joined(parts.drop_first())
    }
}

/// The lengths of `parts`, added up.
pub open spec fn total_len(parts: Seq<Seq<char>>) -> nat
    decreases parts.len(),
{
    if parts.len() == 0 {
        0
    } else {
        parts[0].len() + total_len(parts.drop_first())
    }
}

/// The walk over any text ends, and takes all of it: there are at most as
/// many steps as the text has characters, each step takes at least one
/// character, the stretches taken are the text when put one behind the
/// other, and their lengths add up to its length.
pub proof fn lemma_walk_covers(s: Seq<char>)
    ensures
        strides(s).len() <= s.len(),
        forall|i: int| 0 <= i < strides(s).len() ==> (#[trigger] strides(s)[i]).len() >= 1,
        joined(strides(s)) == s,
        total_len(strides(s)) == s.len(),
    decreases s.len(),
{
    if s.len() > 0 {
        let rest = past_first_span(s);
        let taken = s.take(s.len() - rest.len());
        lemma_step_advances(s);
        lemma_walk_covers(rest);
        assert(strides(s).drop_first() =~= strides(rest));
        assert(taken + rest =~= s);
        assert forall|i: int| 0 <= i < strides(s).len() implies (#[trigger] strides(s)[i]).len()
            >= 1 by {
            if i > 0 {
                assert(strides(s)[i] == strides(rest)[i - 1]);
            }
        }
    }
}

} // verus!
