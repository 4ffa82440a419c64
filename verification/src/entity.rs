//! Decoding of HTML character references, with a fallback for text that does
//! not decode.

use crate::text::lemma_empty_text;
use vstd::prelude::*;
use vstd::string::StringExecFns;

verus! {

/// What `htmlescape::decode_html` makes of the text `s`: the text with every
/// character reference replaced by the character it names, or `None` where
/// the text holds a reference that is unknown, malformed or left open.
pub uninterp spec fn html_decoded(s: Seq<char>) -> Option<Seq<char>>;

/// `htmlescape::decode_html`, with its error dropped. The function reads
/// nothing but its argument, so its outcome is the one that `html_decoded`
/// names for that text.
#[verifier::external_body]
fn decode_html(s: &str) -> (outcome: Option<String>)
    ensures
        match outcome {
            Some(t) => html_decoded(s@) == Some(t@),
            None => html_decoded(s@) is None,
        },
{
    htmlescape::decode_html(s).ok()
}

/// The text that an attempt at decoding leaves: what was decoded, or
/// `fallback` where the attempt failed.
pub open spec fn settled(outcome: Option<Seq<char>>, fallback: Seq<char>) -> Seq<char> {
    match outcome {
        Some(t) => t,
        None => fallback,
    }
}

/// `raw` with its character references decoded; `raw` itself where it does
/// not decode.
pub open spec fn decoded(raw: Seq<char>) -> Seq<char> {
    settled(html_decoded(raw), raw)
}

/// The view of the outcome of an attempt at decoding.
pub open spec fn outcome_view(outcome: Option<String>) -> Option<Seq<char>> {
    match outcome {
        Some(t) => Some(t@),
        None => None,
    }
}

/// Settles the outcome of an attempt at decoding: the decoded text where
/// there is one, a copy of `fallback` where there is none.
pub fn settle(outcome: Option<String>, fallback: &str) -> (text: String)
    ensures
        text@ == settled(outcome_view(outcome), fallback@),
{
    match outcome {
        Some(t) => t,
        None => String::from_str(fallback),
    }
}

/// Decodes the character references in `text`. Decoding is advisory: text
/// that does not decode comes back as it is.
pub fn decode_entities(text: &str) -> (out: String)
    ensures
        out@ == decoded(text@),
{
    settle(decode_html(text), text)
}

/// Decodes the character references in `text`, and gives up the text
/// where it does not decode: the result is then empty.
pub fn decode_or_empty(text: &str) -> (out: String)
    ensures
        out@ == settled(html_decoded(text@), Seq::empty()),
{
    proof {
        lemma_empty_text();
    }
    settle(decode_html(text), "")
}

} // verus!
