use libaur::{Content, NewsItem, Span};

fn items(description: &str) -> Vec<NewsItem> {
    Content::new(description).items()
}

fn text(s: &str) -> NewsItem {
    NewsItem::Text(s.to_string())
}

#[test]
fn it_works() {
    assert_eq!(2 + 2, 4);
}

#[test]
fn plain_text_is_one_text_item() {
    assert_eq!(items("plain text"), vec![text("plain text")]);
}

#[test]
fn code_span_is_decoded() {
    assert_eq!(
        items("<code>x &lt; y</code>"),
        vec![NewsItem::Code("x < y".to_string())]
    );
}

#[test]
fn anchor_gives_target_and_label() {
    let description = "<a href=\"https://x\">label</a>";
    assert_eq!(
        items(description),
        vec![NewsItem::Url("https://x".to_string(), "label".to_string())]
    );
    assert_eq!(Content::new(description).to_string(), "label (https://x)");
}

#[test]
fn paragraph_end_gives_a_line_break() {
    assert_eq!(items("a</p>b"), vec![text("a"), text("\n"), text("b")]);
    assert_eq!(Content::new("a</p>b").to_string(), "a\nb");
}

#[test]
fn unknown_tags_are_passed_over() {
    assert_eq!(items("<em>hi</em>"), vec![text("hi")]);
}

#[test]
fn empty_description_yields_nothing() {
    assert_eq!(items(""), Vec::<NewsItem>::new());
    assert_eq!(Content::new("").to_string(), "");
}

#[test]
fn next_walks_item_by_item() {
    let mut content = Content::new("<p>one</p><p>two <code>three</code></p>");
    assert_eq!(content.next(), Some(text("one")));
    assert_eq!(content.next(), Some(text("\n")));
    assert_eq!(content.next(), Some(text("two ")));
    assert_eq!(content.next(), Some(NewsItem::Code("three".to_string())));
    assert_eq!(content.next(), Some(text("\n")));
    assert_eq!(content.next(), None);
    assert_eq!(content.next(), None);
}

#[test]
fn next_span_keeps_references_undecoded() {
    let mut content = Content::new("a &amp; b<code>&lt;</code>");
    assert_eq!(content.next_span(), Some(Span::Text("a &amp; b")));
    assert_eq!(content.next_span(), Some(Span::Code("&lt;")));
    assert_eq!(content.next_span(), None);
}

#[test]
fn span_decodes_to_item() {
    assert_eq!(Span::Text("a &amp; b").decode(), text("a & b"));
    assert_eq!(Span::Code("&bogus;").decode(), NewsItem::Code("&bogus;".to_string()));
    assert_eq!(Span::Break.decode(), text("\n"));
    assert_eq!(
        Span::Link("x?a=1&amp;b=2", "&gt;").decode(),
        NewsItem::Url("x?a=1&b=2".to_string(), ">".to_string())
    );
}

#[test]
fn code_span_ends_with_the_first_closing_bracket_behind_its_opener() {
    assert_eq!(
        items("<code>a > b</code>"),
        vec![NewsItem::Code("a > b".to_string()), text(" b")]
    );
}

#[test]
fn anchor_without_href_takes_the_text_up_to_the_first_quote() {
    assert_eq!(
        items("<a name=\"top\">here</a>"),
        vec![NewsItem::Url("<a name=".to_string(), "here".to_string())]
    );
    assert_eq!(
        items("<a>x</a>"),
        vec![NewsItem::Url("<a>x</a>".to_string(), "x".to_string())]
    );
}

#[test]
fn anchor_target_is_decoded() {
    assert_eq!(
        items("<a href=\"https://x/?a=1&amp;b=2\">x &amp; y</a> z"),
        vec![
            NewsItem::Url("https://x/?a=1&b=2".to_string(), "x & y".to_string()),
            text(" z"),
        ]
    );
}

#[test]
fn any_tag_that_begins_with_a_is_read_as_an_anchor() {
    assert_eq!(
        items("<abbr>x</abbr>y"),
        vec![NewsItem::Url("<abbr>x</abbr>y".to_string(), "x".to_string()), text("y")]
    );
}

#[test]
fn truncated_markup_degrades() {
    assert_eq!(items("<code>abc"), vec![NewsItem::Code("abc".to_string())]);
    assert_eq!(items("<code>"), vec![NewsItem::Code(String::new())]);
    assert_eq!(items("<em"), Vec::<NewsItem>::new());
    assert_eq!(items("text<"), vec![text("text")]);
    assert_eq!(
        items("<a href=\"x"),
        vec![NewsItem::Url("x".to_string(), String::new())]
    );
    assert_eq!(items("</p"), Vec::<NewsItem>::new());
}

#[test]
fn text_that_does_not_decode_is_kept() {
    assert_eq!(items("fish &bogus; chips"), vec![text("fish &bogus; chips")]);
    assert_eq!(items("a & b"), vec![text("a & b")]);
    assert_eq!(items("<code>&#xZZ;</code>"), vec![NewsItem::Code("&#xZZ;".to_string())]);
}

#[test]
fn text_beyond_ascii_is_walked_by_characters() {
    assert_eq!(
        items("gr\u{fc}\u{df}e <code>\u{3b1}\u{3b2}</code>\u{1f600}</p>"),
        vec![
            text("gr\u{fc}\u{df}e "),
            NewsItem::Code("\u{3b1}\u{3b2}".to_string()),
            text("\u{1f600}"),
            text("\n"),
        ]
    );
}

#[test]
fn every_step_moves_forward_and_the_walk_takes_the_whole_text() {
    let description = "<div><p>a &amp; b <a href=\"u\">l</a></p><code>c</code>tail<br></div>";
    let mut content = Content::new(description);
    let mut steps = 0;
    while content.next().is_some() {
        steps += 1;
        assert!(steps <= description.chars().count());
    }
    assert_eq!(steps, 5);
    assert_eq!(content.next_span(), None);
    assert_eq!(content.to_string(), "");
}

#[test]
fn rendering_twice_gives_the_same_text() {
    let description = "<p>See <a href=\"https://archlinux.org\">the site</a> and run <code>pacman -Syu</code>.</p>";
    let content = Content::new(description);
    let first = content.to_string();
    let second = content.to_string();
    assert_eq!(first, second);
    assert_eq!(Content::new(description).to_string(), first);
    assert_eq!(first, "See the site (https://archlinux.org) and run pacman -Syu.\n");
}

#[test]
fn items_start_where_the_cursor_stands() {
    let mut content = Content::new("one</p>two");
    assert_eq!(content.next(), Some(text("one")));
    assert_eq!(content.items(), vec![text("\n"), text("two")]);
    assert_eq!(content.to_string(), "\ntwo");
    assert_eq!(content.next(), Some(text("\n")));
}

#[test]
fn render_joins_items_without_separators() {
    let items = vec![
        text("a "),
        NewsItem::Code("b".to_string()),
        NewsItem::Url("t".to_string(), "l".to_string()),
        text("!"),
    ];
    assert_eq!(libaur::news::render(&items), "a bl (t)!");
    assert_eq!(libaur::news::render(&[]), "");
}
