//! News entries and the items that their descriptions hold.

use crate::entity::{decode_entities, decode_or_empty, decoded, html_decoded, settled};
use crate::error::AurError;
use crate::markup::{
    first_span, lemma_marks, lemma_past_tags, lemma_step_advances, lemma_walk_covers,
    past_first_span, past_tags, strides, SpanView,
};
use crate::text::{
    cut_before, cut_past, cut_past_match, drop_chars, lemma_empty_text, lemma_past_shorter,
    starts_with,
};
use vstd::prelude::*;
use vstd::std_specs::iter::IteratorSpec;
use vstd::string::StrSliceExecFns;
use vstd::string::StringExecFns;

verus! {

/// What a news item holds, as plain text.
pub enum ItemView {
    /// A code block.
    Code(Seq<char>),
    /// Text.
    Text(Seq<char>),
    /// A URL: its target, then its label.
    Url(Seq<char>, Seq<char>),
}

/// A news item, as the walk over a `Content` yields it.
///
/// A `Content` can be turned into a string as a whole, but a reader may want
/// to treat some items in a way of its own, such as colouring the code
/// blocks.
#[derive(Clone, Eq, PartialEq, Debug)]
pub enum NewsItem {
    /// A code block.
    Code(String),
    /// Text.
    Text(String),
    /// A URL: its target, then its label.
    Url(String, String),
}

impl View for NewsItem {
    type V = ItemView;

    open spec fn view(&self) -> ItemView {
        match self {
            NewsItem::Code(s) => ItemView::Code(s@),
            NewsItem::Text(s) => ItemView::Text(s@),
            NewsItem::Url(target, label) => ItemView::Url(target@, label@),
        }
    }
}

/// A stretch of a description that yields one item, borrowed from the
/// description as it stands there, with its character references not yet
/// decoded.
#[derive(Clone, Copy, Eq, PartialEq, Debug)]
pub enum Span<'a> {
    /// The text of a code span.
    Code(&'a str),
    /// A run of ordinary text.
    Text(&'a str),
    /// The end of a paragraph.
    Break,
    /// An anchor: its target, then its label.
    Link(&'a str, &'a str),
}

impl<'a> View for Span<'a> {
    type V = SpanView;

    open spec fn view(&self) -> SpanView {
        match self {
            Span::Code(s) => SpanView::Code(s@),
            Span::Text(s) => SpanView::Text(s@),
            Span::Break => SpanView::Break,
            Span::Link(target, label) => SpanView::Link(target@, label@),
        }
    }
}

/// The text that the end of a paragraph yields.
pub open spec fn line_break() -> Seq<char> {
    "\n"@
}

/// The item that a span yields: its text decoded, a line break for the end
/// of a paragraph.
pub open spec fn item_of(span: SpanView) -> ItemView {
    match span {
        SpanView::Code(raw) => ItemView::Code(decoded(raw)),
        SpanView::Text(raw) => ItemView::Text(decoded(raw)),
        SpanView::Break => ItemView::Text(line_break()),
        SpanView::Link(target, label) => ItemView::Url(decoded(target), decoded(label)),
    }
}

/// The first item that the description `s` yields, if it yields any.
pub open spec fn first_item(s: Seq<char>) -> Option<ItemView> {
    match first_span(s) {
        Some(span) => Some(item_of(span)),
        None => None,
    }
}

/// All the items that the description `s` yields, in order.
pub open spec fn items_of(s: Seq<char>) -> Seq<ItemView>
    decreases s.len(),
    via items_of_decreases
{
    match first_item(s) {
        Some(item) => seq![item] + items_of(past_first_span(s)),
        None => Seq::empty(),
    }
}

#[via_fn]
proof fn items_of_decreases(s: Seq<char>) {
    lemma_step_advances(s);
}

/// A description yields at most one item for each step of the walk over
/// it, and so no more items than it has characters.
pub proof fn lemma_items_bounded(s: Seq<char>)
    ensures
        items_of(s).len() <= strides(s).len() <= s.len(),
    decreases s.len(),
{
    lemma_walk_covers(s);
    if s.len() > 0 {
        lemma_step_advances(s);
        lemma_items_bounded(past_first_span(s));
    } else {
        lemma_past_tags(s);
    }
}

/// The text of a description is a function of the description alone: two
/// cursors that stand at the start of equal descriptions, such as two that
/// were made from one entry, yield the same items and the same text.
pub proof fn lemma_rendering_repeats(first: Content, second: Content)
    requires
        first@ == second@,
    ensures
        items_of(first@) == items_of(second@),
        rendered(items_of(first@)) == rendered(items_of(second@)),
{
}

impl<'a> Span<'a> {
    /// The item that this span yields.
    pub fn decode(&self) -> (item: NewsItem)
        ensures
            item@ == item_of(self@),
    {
        match self {
            Span::Code(raw) => NewsItem::Code(decode_entities(raw)),
            Span::Text(raw) => NewsItem::Text(decode_entities(raw)),
            Span::Break => NewsItem::Text(String::from_str("\n")),
            Span::Link(target, label) => NewsItem::Url(
                decode_entities(target),
                decode_entities(label),
            ),
        }
    }
}

/// The view of a span that may be missing.
pub open spec fn span_view(span: Option<Span>) -> Option<SpanView> {
    match span {
        Some(span) => Some(span@),
        None => None,
    }
}

/// The view of an item that may be missing.
pub open spec fn item_view(item: Option<NewsItem>) -> Option<ItemView> {
    match item {
        Some(item) => Some(item@),
        None => None,
    }
}

/// The content of a news entry: a cursor into its description, which walks
/// it item by item.
///
/// The walk is done on a best effort: `<code>`, `<a>` and `</p>` are
/// handled, every other tag is passed over, and no text is refused.
#[derive(Debug, Clone)]
pub struct Content<'a> {
    rest: &'a str,
}

impl<'a> View for Content<'a> {
    type V = Seq<char>;

    /// The part of the description that the cursor has not walked yet.
    closed spec fn view(&self) -> Seq<char> {
        self.rest@
    }
}

impl<'a> Content<'a> {
    /// A cursor at the start of `description`.
    pub fn new(description: &'a str) -> (content: Self)
        ensures
            content@ == description@,
    {
        Content { rest: description }
    }

    /// Takes the next span from the description, with its text as it stands
    /// there, and moves the cursor behind it. Returns `None` once the
    /// description yields no more spans; the cursor then stands at its end.
    pub fn next_span(&mut self) -> (span: Option<Span<'a>>)
        ensures
            span_view(span) == first_span(old(self)@),
            final(self)@ == past_first_span(old(self)@),
    {
        loop
            invariant
                past_tags(self@) == past_tags(old(self)@),
            decreases self@.len(),
        {
            proof {
                lemma_marks();
            }
            let rest = self.rest;
            if rest.is_empty() {
                return None;
            }
            if starts_with(rest, "<code>") {
                let body = drop_chars(rest, 6);
                let code = cut_before(body, '<').0;
                self.rest = cut_past(body, '>');
                return Some(Span::Code(code));
            }
            if starts_with(rest, "</p>") {
                self.rest = drop_chars(rest, 4);
                return Some(Span::Break);
            }
            if starts_with(rest, "<a") {
                let target = cut_before(cut_past_match(rest, "href=\""), '"').0;
                let inner = cut_past(rest, '>');
                let label = cut_before(inner, '<').0;
                self.rest = cut_past(inner, '>');
                return Some(Span::Link(target, label));
            }
            if rest.get_char(0) == '<' {
                proof {
                    lemma_past_shorter(rest@, '>');
                }
                self.rest = cut_past(rest, '>');
            } else {
                let (text, tail) = cut_before(rest, '<');
                self.rest = tail;
                return Some(Span::Text(text));
            }
        }
    }

    /// Takes the next item from the description and moves the cursor behind
    /// it. Returns `None` once the description yields no more items; the
    /// cursor then stands at its end. Every call on a description that is
    /// not at its end moves the cursor forward by at least one character.
    pub fn next(&mut self) -> (item: Option<NewsItem>)
        ensures
            item_view(item) == first_item(old(self)@),
            final(self)@ == past_first_span(old(self)@),
            final(self)@.is_suffix_of(old(self)@),
            old(self)@.len() > 0 ==> final(self)@.len() < old(self)@.len(),
            item is None ==> final(self)@.len() == 0,
    {
        proof {
            lemma_step_advances(self@);
        }
        match self.next_span() {
            Some(span) => Some(span.decode()),
            None => None,
        }
    }

    /// All the items that are left in the description, in order. The cursor
    /// itself stays where it is.
    pub fn items(&self) -> (items: Vec<NewsItem>)
        ensures
            item_views(items@) == items_of(self@),
    {
        let mut cursor = Content { rest: self.rest };
        let mut items: Vec<NewsItem> = Vec::new();
        loop
            invariant
                item_views(items@) + items_of(cursor@) == items_of(self@),
            ensures
                item_views(items@) == items_of(self@),
            decreases cursor@.len(),
        {
            let ghost before = items@;
            match cursor.next() {
                Some(item) => {
                    items.push(item);
                    assert(item_views(items@) =~= item_views(before) + seq![item@]);
                },
                None => {
                    break ;
                },
            }
        }
        items
    }

    /// The items that are left in the description, joined into one text.
    /// The cursor itself stays where it is.
    pub fn to_string(&self) -> (text: String)
        ensures
            text@ == rendered(items_of(self@)),
    {
        let items = self.items();
        render(items.as_slice())
    }
}

/// The views of a sequence of items.
pub open spec fn item_views(items: Seq<NewsItem>) -> Seq<ItemView> {
    items.map_values(|item: NewsItem| item@)
}

/// The text that stands for one item: the text of a code block or of a run
/// of text as it is, and for a URL its label, then its target in round
/// brackets.
pub open spec fn shown(item: ItemView) -> Seq<char> {
    match item {
        ItemView::Code(text) => text,
        ItemView::Text(text) => text,
        ItemView::Url(target, label) => label + " ("@ + target + ")"@,
    }
}

/// The text that stands for a sequence of items: what stands for each, in
/// order, with nothing in between.
pub open spec fn rendered(items: Seq<ItemView>) -> Seq<char>
    decreases items.len(),
{
    if items.len() == 0 {
        Seq::empty()
    } else {
        rendered(items.drop_last()) + shown(items.last())
    }
}

/// Joins items into one text.
pub fn render(items: &[NewsItem]) -> (text: String)
    ensures
        text@ == rendered(item_views(items@)),
{
    let ghost views = item_views(items@);
    let mut text = String::new();
    let mut i: usize = 0;
    while i < items.len()
        invariant
            i <= items.len(),
            views == item_views(items@),
            text@ == rendered(views.take(i as int)),
        decreases items.len() - i,
    {
        let ghost sofar = text@;
        match &items[i] {
            NewsItem::Code(code) => {
                text.append(code.as_str());
            },
            NewsItem::Text(plain) => {
                text.append(plain.as_str());
            },
            NewsItem::Url(target, label) => {
                text.append(label.as_str());
                text.append(" (");
                text.append(target.as_str());
                text.append(")");
            },
        }
        proof {
            assert(views.take(i + 1).drop_last() =~= views.take(i as int));
            assert(views.take(i + 1).last() == items@[i as int]@);
            assert(text@ =~= sofar + shown(items@[i as int]@));
        }
        i = i + 1;
    }
    proof {
        assert(views.take(items.len() as int) =~= views);
    }
    text
}

/// One entry of a feed: the fields that a news entry is made from, each
/// missing where the feed left it out.
#[derive(Debug, Clone)]
pub struct FeedItem {
    /// The title of the entry.
    pub title: Option<String>,
    /// The date on which the entry was published.
    pub pub_date: Option<String>,
    /// The description of the entry: its text, as markup.
    pub description: Option<String>,
    /// The encoded content of the entry.
    pub content: Option<String>,
}

/// What an entry of a feed holds, as plain text.
pub struct FeedItemView {
    /// The title of the entry.
    pub title: Option<Seq<char>>,
    /// The date on which the entry was published.
    pub pub_date: Option<Seq<char>>,
    /// The description of the entry.
    pub description: Option<Seq<char>>,
    /// The encoded content of the entry.
    pub content: Option<Seq<char>>,
}

/// The view of a text that may be missing.
pub open spec fn text_view(text: Option<String>) -> Option<Seq<char>> {
    match text {
        Some(text) => Some(text@),
        None => None,
    }
}

/// The view of a borrowed text that may be missing.
pub open spec fn str_view(text: Option<&str>) -> Option<Seq<char>> {
    match text {
        Some(text) => Some(text@),
        None => None,
    }
}

impl View for FeedItem {
    type V = FeedItemView;

    open spec fn view(&self) -> FeedItemView {
        FeedItemView {
            title: text_view(self.title),
            pub_date: text_view(self.pub_date),
            description: text_view(self.description),
            content: text_view(self.content),
        }
    }
}

/// What a news entry holds, as plain text.
pub struct NewsView {
    /// The title of the entry, if it has one.
    pub title: Option<Seq<char>>,
    /// The date on which the entry was published, if it tells.
    pub date: Option<Seq<char>>,
    /// The description of the entry, as markup: empty where it has none.
    pub description: Seq<char>,
    /// The encoded content of the entry, as the feed gave it.
    pub encoded: Option<Seq<char>>,
    /// The encoded content of the entry, decoded: empty where it has none
    /// or where it does not decode.
    pub content: Seq<char>,
}

/// The news entry that is made from an entry of a feed.
pub open spec fn news_of(item: FeedItemView) -> NewsView {
    NewsView {
        title: item.title,
        date: item.pub_date,
        description: settled(item.description, Seq::empty()),
        encoded: item.content,
        content: settled(html_decoded(settled(item.content, Seq::empty())), Seq::empty()),
    }
}

/// The text that stands for a news entry: its date, ` -- `, its title, an
/// empty line, then the text of its description. `No Title` stands for a
/// missing date and `No Date` for a missing title.
pub open spec fn entry_text(entry: NewsView) -> Seq<char> {
    settled(entry.date, "No Title"@) + " -- "@ + settled(entry.title, "No Date"@) + "\n\n"@
        + rendered(items_of(entry.description))
}

/// A news entry.
#[derive(Debug, Clone)]
pub struct News {
    item: FeedItem,
    content: String,
}

impl View for News {
    type V = NewsView;

    closed spec fn view(&self) -> NewsView {
        NewsView {
            title: text_view(self.item.title),
            date: text_view(self.item.pub_date),
            description: settled(text_view(self.item.description), Seq::empty()),
            encoded: text_view(self.item.content),
            content: self.content@,
        }
    }
}

impl News {
    /// Makes a news entry from an entry of a feed.
    pub fn new(item: FeedItem) -> (news: Self)
        ensures
            news@ == news_of(item@),
    {
        let content = match &item.content {
            Some(encoded) => decode_or_empty(encoded.as_str()),
            None => {
                proof {
                    lemma_empty_text();
                }
                decode_or_empty("")
            },
        };
        News { item, content }
    }

    /// Gets the content of the news entry: a cursor that stands at the
    /// start of its description, whatever was got from the entry before.
    pub fn content(&self) -> (content: Content<'_>)
        ensures
            content@ == self@.description,
    {
        match &self.item.description {
            Some(description) => Content::new(description.as_str()),
            None => {
                proof {
                    lemma_empty_text();
                }
                Content::new("")
            },
        }
    }

    /// Gets the title of the news entry.
    pub fn title(&self) -> (title: Option<&str>)
        ensures
            str_view(title) == self@.title,
    {
        match &self.item.title {
            Some(title) => Some(title.as_str()),
            None => None,
        }
    }

    /// Gets the date the news entry was published.
    pub fn date(&self) -> (date: Option<&str>)
        ensures
            str_view(date) == self@.date,
    {
        match &self.item.pub_date {
            Some(date) => Some(date.as_str()),
            None => None,
        }
    }

    /// The news entry as text.
    pub fn to_string(&self) -> (text: String)
        ensures
            text@ == entry_text(self@),
    {
        let date = match self.date() {
            Some(date) => date,
            None => "No Title",
        };
        let title = match self.title() {
            Some(title) => title,
            None => "No Date",
        };
        let body = self.content().to_string();
        let mut text = String::from_str(date);
        text.append(" -- ");
        text.append(title);
        text.append("\n\n");
        text.append(body.as_str());
        text
    }
}

/// The entries of the feed that `rss::Channel::read_from` reads from
/// `bytes`, in the order of the feed; `None` where it finds no feed in
/// them.
pub uninterp spec fn feed_items(bytes: Seq<u8>) -> Option<Seq<FeedItemView>>;

/// The views of a list of entries of a feed.
pub open spec fn feed_views(items: Seq<FeedItem>) -> Seq<FeedItemView> {
    items.map_values(|item: FeedItem| item@)
}

/// The views of a list of news entries.
pub open spec fn news_views(news: Seq<News>) -> Seq<NewsView> {
    news.map_values(|entry: News| entry@)
}

/// `rss::Channel::read_from` on a slice of bytes, then
/// `rss::Channel::into_items`, with four fields moved out of each item. The
/// reader reads nothing but the bytes, so the outcome is the one that
/// `feed_items` names for them. rss reads nested elements that bear a
/// namespace prefix by calling itself once for each level, so a feed that
/// nests them deep enough runs the stack out.
#[verifier::external_body]
fn read_items(bytes: &[u8]) -> (read: Result<Vec<FeedItem>, rss::Error>)
    ensures
        match read {
            Ok(items) => feed_items(bytes@) == Some(feed_views(items@)),
            Err(_) => feed_items(bytes@) is None,
        },
{
    let channel = rss::Channel::read_from(bytes)?;
    Ok(
        channel.into_items().into_iter().map(
            |item| FeedItem {
                title: item.title,
                pub_date: item.pub_date,
                description: item.description,
                content: item.content,
            },
        ).collect(),
    )
}

/// Makes the news entries of the entries of a feed, in the same order.
pub fn news_from(items: Vec<FeedItem>) -> (news: Vec<News>)
    ensures
        news_views(news@) == feed_views(items@).map_values(|item: FeedItemView| news_of(item)),
{
    let ghost all = items@;
    let mut news: Vec<News> = Vec::new();
    for item in it: items
        invariant
            it.seq() == all,
            news.len() == it.index(),
            forall|j: int| 0 <= j < news.len() ==> (#[trigger] news@[j])@ == news_of(all[j]@),
    {
        news.push(News::new(item));
    }
    proof {
        assert(news_views(news@) =~= feed_views(all).map_values(
            |item: FeedItemView| news_of(item),
        ));
    }
    news
}

/// Reads the news entries from the bytes of an RSS feed. Fails where the
/// bytes hold no feed that rss can read, with the error that rss gives.
pub fn read_news(bytes: &[u8]) -> (news: Result<Vec<News>, AurError>)
    ensures
        match news {
            Ok(news) => feed_items(bytes@) matches Some(items) && news_views(news@)
                == items.map_values(|item: FeedItemView| news_of(item)),
            Err(err) => feed_items(bytes@) is None && err is Rss,
        },
{
    match read_items(bytes) {
        Ok(items) => Ok(news_from(items)),
        Err(err) => Err(AurError::from(err)),
    }
}

} // verus!
