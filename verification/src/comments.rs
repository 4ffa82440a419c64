//! The comments on a package's page in the AUR.

use crate::error::AurError;
use crate::text::{trim, trimmed};
use kuchiki::traits::TendrilSink;
use vstd::prelude::*;
use vstd::string::StringExecFns;
use vstd::utf8::encode_utf8;

verus! {

/// An AUR comment.
#[derive(Clone, Debug)]
pub struct Comment {
    /// The title of the comment. This includes the author and date.
    pub title: String,
    /// The content of the comment itself.
    pub content: String,
}

/// What a comment holds, as plain text.
pub struct CommentView {
    /// The title of the comment.
    pub title: Seq<char>,
    /// The content of the comment.
    pub content: Seq<char>,
}

impl View for Comment {
    type V = CommentView;

    open spec fn view(&self) -> CommentView {
        CommentView { title: self.title@, content: self.content@ }
    }
}

/// The path of the page that shows all the comments on the package `pkg`,
/// from the root of the AUR.
pub open spec fn comments_path_of(pkg: Seq<char>) -> Seq<char> {
    "packages/"@ + pkg + "/comments?&PP=1000000"@
}

/// The path of the page that shows all the comments on the package `pkg`,
/// from the root of the AUR.
pub fn comments_path(pkg: &str) -> (path: String)
    ensures
        path@ == comments_path_of(pkg@),
{
    let mut path = String::from_str("packages/");
    path.append(pkg);
    path.append("/comments?&PP=1000000");
    path
}

/// The URL that the url crate makes of `reference` when it reads it as a
/// reference from the URL `base`, as text: what `Url::join` gives for
/// `reference` on what `Url::parse` gives for `base`. `None` where `base`
/// is no URL or `reference` names none from it.
pub uninterp spec fn joined_url(base: Seq<char>, reference: Seq<char>) -> Option<Seq<char>>;

/// `Url::parse` on `base`, then `Url::join` with `reference`, and the URL
/// that comes of it as text (`String::from`). Both read nothing but the two
/// texts, so the outcome is the one that `joined_url` names for them; an
/// error is the one of the call that failed.
#[verifier::external_body]
fn join_text(base: &str, reference: &str) -> (joined: Result<String, url::ParseError>)
    ensures
        match joined {
            Ok(url) => joined_url(base@, reference@) == Some(url@),
            Err(_) => joined_url(base@, reference@) is None,
        },
{
    Ok(String::from(url::Url::parse(base)?.join(reference)?))
}

/// What this library makes of the outcome of joining a path to a URL: the
/// URL that was found, or the error that holds the reason why none was.
pub open spec fn join_outcome(joined: Result<String, url::ParseError>) -> Result<String, AurError> {
    match joined {
        Ok(url) => Ok(url),
        Err(err) => Err(AurError::Url(err)),
    }
}

/// Turns the outcome of joining a path to a URL into the URL that was
/// found, or into the error that holds the reason why none was.
pub fn url_or_error(joined: Result<String, url::ParseError>) -> (url: Result<String, AurError>)
    ensures
        url == join_outcome(joined),
{
    match joined {
        Ok(url) => Ok(url),
        Err(err) => Err(AurError::from(err)),
    }
}

/// The URL of the page that shows all the comments on the package `pkg`,
/// where `base` is the URL of the AUR: the path that `comments_path` gives
/// for `pkg`, joined to `base`. Fails where `base` is no URL or the path
/// cannot be joined to it, with the error of the url crate.
pub fn comments_url(base: &str, pkg: &str) -> (url: Result<String, AurError>)
    ensures
        match url {
            Ok(url) => joined_url(base@, comments_path_of(pkg@)) == Some(url@),
            Err(err) => joined_url(base@, comments_path_of(pkg@)) is None && err is Url,
        },
{
    let path = comments_path(pkg);
    url_or_error(join_text(base, path.as_str()))
}

/// The greatest number of bytes of a page that can be read: a third of
/// 2^31, rounded down. kuchiki holds the text that it reads in buffers that
/// cannot grow past 2^31 bytes, and it may put three bytes into one of them
/// for one byte of the page, as it does where it replaces a NUL byte.
pub const MAX_PAGE_BYTES: usize = 0x2aaa_aaaa;

/// Whether the page `html` is short enough to be read.
pub open spec fn page_fits(html: Seq<char>) -> bool {
    encode_utf8(html).len() <= MAX_PAGE_BYTES
}

/// Whether the page `html` is short enough to be read.
pub fn fits_page(html: &str) -> (fits: bool)
    ensures
        fits == page_fits(html@),
{
    html.as_bytes().len() <= MAX_PAGE_BYTES
}

/// The texts of the elements of the HTML document `html` that the list of
/// CSS selectors `selectors` matches, in the order of the document, as
/// kuchiki finds them; `None` where kuchiki does not take `selectors` for a
/// list of selectors. The text of an element is all the text inside it.
pub uninterp spec fn element_texts(html: Seq<char>, selectors: Seq<char>) -> Option<Seq<Seq<char>>>;

/// The views of a list of texts.
pub open spec fn text_views(texts: Seq<String>) -> Seq<Seq<char>> {
    texts.map_values(|text: String| text@)
}

/// `kuchiki::parse_html` with `TendrilSink::one`, then `NodeRef::select` and,
/// for each element found, `NodeRef::text_contents`. The document and what
/// is found in it depend on the two texts alone, so the outcome is the one
/// that `element_texts` names for them. This is claimed for the two lists
/// of selectors that this library seeks with, and for a page short enough
/// that no buffer of kuchiki can outgrow its limit: `one` panics where one
/// does.
#[verifier::external_body]
fn select_texts(html: &str, selectors: &str) -> (found: Option<Vec<String>>)
    requires
        page_fits(html@),
        selectors@ == header_selectors() || selectors@ == body_selectors(),
    ensures
        match found {
            Some(texts) => element_texts(html@, selectors@) == Some(text_views(texts@)),
            None => element_texts(html@, selectors@) is None,
        },
{
    let document = kuchiki::parse_html().one(html);
    match document.select(selectors) {
        Ok(elements) => Some(elements.map(|node| node.text_contents()).collect()),
        Err(()) => None,
    }
}

/// The selectors of the headers of the comments on a package's page.
pub open spec fn header_selectors() -> Seq<char> {
    "div.comments h4.comment-header"@
}

/// The selectors of the bodies of the comments on a package's page.
pub open spec fn body_selectors() -> Seq<char> {
    "div.comments div.article-content"@
}

/// The texts that were found, or none where nothing could be sought.
pub open spec fn found_texts(found: Option<Seq<Seq<char>>>) -> Seq<Seq<char>> {
    match found {
        Some(texts) => texts,
        None => Seq::empty(),
    }
}

/// The comments that headers and bodies make: the first header with the
/// first body, and so on, as far as both reach, each text without the white
/// space at its ends.
pub open spec fn paired(titles: Seq<Seq<char>>, contents: Seq<Seq<char>>) -> Seq<CommentView> {
    Seq::new(
        if titles.len() <= contents.len() {
            titles.len()
        } else {
            contents.len()
        },
        |i: int| CommentView { title: trimmed(titles[i]), content: trimmed(contents[i]) },
    )
}

/// The comments on the package page `html`.
pub open spec fn comments_of(html: Seq<char>) -> Seq<CommentView> {
    paired(
        found_texts(element_texts(html, header_selectors())),
        found_texts(element_texts(html, body_selectors())),
    )
}

/// The views of a list of comments.
pub open spec fn comment_views(comments: Seq<Comment>) -> Seq<CommentView> {
    comments.map_values(|comment: Comment| comment@)
}

/// Makes comments of the headers and the bodies found on a package's page.
pub fn pair_comments(titles: &Vec<String>, contents: &Vec<String>) -> (comments: Vec<Comment>)
    ensures
        comment_views(comments@) == paired(text_views(titles@), text_views(contents@)),
{
    let count = if titles.len() <= contents.len() {
        titles.len()
    } else {
        contents.len()
    };
    let mut comments: Vec<Comment> = Vec::with_capacity(count);
    let mut i: usize = 0;
    while i < count
        invariant
            i <= count,
            count <= titles.len(),
            count <= contents.len(),
            comments.len() == i,
            forall|j: int|
                0 <= j < i ==> (#[trigger] comments@[j])@ == (CommentView {
                    title: trimmed(titles@[j]@),
                    content: trimmed(contents@[j]@),
                }),
        decreases count - i,
    {
        let comment = Comment {
            title: String::from_str(trim(titles[i].as_str())),
            content: String::from_str(trim(contents[i].as_str())),
        };
        comments.push(comment);
        i = i + 1;
    }
    proof {
        assert(comment_views(comments@) =~= paired(text_views(titles@), text_views(contents@)));
    }
    comments
}

/// The texts that were found, or an empty list where nothing could be
/// sought.
fn found_or_none(found: Option<Vec<String>>) -> (texts: Vec<String>)
    ensures
        text_views(texts@) == found_texts(
            match found {
                Some(texts) => Some(text_views(texts@)),
                None => None,
            },
        ),
{
    match found {
        Some(texts) => texts,
        None => {
            let texts: Vec<String> = Vec::new();
            assert(text_views(texts@) =~= Seq::empty());
            texts
        },
    }
}

/// Reads the comments from the text of a package's page in the AUR. The
/// page must be short enough to be read, which `fits_page` tells.
pub fn parse_comments(html: &str) -> (comments: Vec<Comment>)
    requires
        page_fits(html@),
    ensures
        comment_views(comments@) == comments_of(html@),
{
    let titles = found_or_none(select_texts(html, "div.comments h4.comment-header"));
    let contents = found_or_none(select_texts(html, "div.comments div.article-content"));
    pair_comments(&titles, &contents)
}

} // verus!
