use libaur::news::{news_from, read_news};
use libaur::{AurError, FeedItem, News, NewsItem};

fn item(title: Option<&str>, date: Option<&str>, description: Option<&str>) -> FeedItem {
    FeedItem {
        title: title.map(String::from),
        pub_date: date.map(String::from),
        description: description.map(String::from),
        content: None,
    }
}

#[test]
fn entry_gives_title_and_date() {
    let news = News::new(item(Some("Title"), Some("Mon, 01 Jan 2024"), Some("text")));
    assert_eq!(news.title(), Some("Title"));
    assert_eq!(news.date(), Some("Mon, 01 Jan 2024"));
    let bare = News::new(item(None, None, None));
    assert_eq!(bare.title(), None);
    assert_eq!(bare.date(), None);
}

#[test]
fn content_starts_at_the_beginning_each_time() {
    let news = News::new(item(None, None, Some("a</p>b")));
    let mut first = news.content();
    assert_eq!(first.next(), Some(NewsItem::Text("a".to_string())));
    let mut second = news.content();
    assert_eq!(second.next(), Some(NewsItem::Text("a".to_string())));
    assert_eq!(first.next(), Some(NewsItem::Text("\n".to_string())));
    assert_eq!(news.content().to_string(), "a\nb");
    assert_eq!(news.content().to_string(), "a\nb");
}

#[test]
fn entry_without_description_has_empty_content() {
    let news = News::new(item(Some("t"), None, None));
    assert_eq!(news.content().next(), None);
    assert_eq!(news.content().to_string(), "");
}

#[test]
fn entry_as_text() {
    let news = News::new(item(
        Some("Update"),
        Some("Mon, 01 Jan 2024 00:00:00 +0000"),
        Some("<p>Run <code>pacman -Syu</code></p>"),
    ));
    assert_eq!(
        news.to_string(),
        "Mon, 01 Jan 2024 00:00:00 +0000 -- Update\n\nRun pacman -Syu\n"
    );
}

#[test]
fn entry_as_text_with_placeholders() {
    assert_eq!(
        News::new(item(None, None, Some("plain"))).to_string(),
        "No Title -- No Date\n\nplain"
    );
    assert_eq!(
        News::new(item(Some("T"), None, None)).to_string(),
        "No Title -- T\n\n"
    );
    assert_eq!(
        News::new(item(None, Some("D"), None)).to_string(),
        "D -- No Date\n\n"
    );
}

#[test]
fn encoded_content_is_decoded_or_given_up() {
    let mut with_content = item(None, None, None);
    with_content.content = Some("a &amp; b".to_string());
    assert!(format!("{:?}", News::new(with_content)).contains("content: \"a & b\""));
    let mut undecodable = item(None, None, None);
    undecodable.content = Some("a &bogus; b".to_string());
    assert!(format!("{:?}", News::new(undecodable)).ends_with("content: \"\" }"));
}

const FEED: &str = "<?xml version=\"1.0\" encoding=\"utf-8\"?>\n\
<rss version=\"2.0\" xmlns:content=\"http://purl.org/rss/1.0/modules/content/\"><channel>\
<title>Arch Linux: Recent news updates</title>\
<link>https://archlinux.org/news/</link>\
<description>The latest and greatest news from the Arch Linux development staff.</description>\
<item><title>First</title><pubDate>Mon, 01 Jan 2024 00:00:00 +0000</pubDate>\
<description>&lt;p&gt;Run &lt;code&gt;pacman -Syu&lt;/code&gt; &amp;amp; reboot&lt;/p&gt;</description>\
<content:encoded>x &amp;lt; y</content:encoded></item>\
<item><description>plain</description></item>\
</channel></rss>";

#[test]
fn news_are_read_from_a_feed() {
    let news = read_news(FEED.as_bytes()).unwrap();
    assert_eq!(news.len(), 2);
    assert_eq!(news[0].title(), Some("First"));
    assert_eq!(news[0].date(), Some("Mon, 01 Jan 2024 00:00:00 +0000"));
    assert_eq!(
        news[0].content().items(),
        vec![
            NewsItem::Text("Run ".to_string()),
            NewsItem::Code("pacman -Syu".to_string()),
            NewsItem::Text(" & reboot".to_string()),
            NewsItem::Text("\n".to_string()),
        ]
    );
    assert!(format!("{:?}", news[0]).ends_with("content: \"x < y\" }"));
    assert_eq!(news[1].title(), None);
    assert_eq!(news[1].date(), None);
    assert_eq!(news[1].to_string(), "No Title -- No Date\n\nplain");
}

#[test]
fn feed_without_entries_gives_no_news() {
    let feed = "<rss version=\"2.0\"><channel><title>t</title><link>l</link>\
<description>d</description></channel></rss>";
    assert_eq!(read_news(feed.as_bytes()).unwrap().len(), 0);
}

#[test]
fn bytes_that_hold_no_feed_give_an_rss_error() {
    assert!(matches!(read_news(b"<html></html>"), Err(AurError::Rss(_))));
    assert!(matches!(read_news(b""), Err(AurError::Rss(_))));
}

#[test]
fn news_keep_the_order_of_the_entries() {
    let news = news_from(vec![
        item(Some("a"), None, None),
        item(Some("b"), None, None),
        item(Some("c"), None, None),
    ]);
    let titles: Vec<Option<&str>> = news.iter().map(|entry| entry.title()).collect();
    assert_eq!(titles, vec![Some("a"), Some("b"), Some("c")]);
    assert!(news_from(Vec::new()).is_empty());
}
