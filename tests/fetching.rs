use izrss::feeds::{ingest_feed, Feed};
use izrss::fetch::{
    build_feed, build_post, content_or_placeholder, feed_from_document, post_from_entry, FetchedDocument,
    FetchedEntry,
};

const RSS_A: &str = r#"<?xml version="1.0"?>
<rss version="2.0"><channel><title>Feed A</title><link>https://a.example</link><description>d</description>
<item><guid>a1</guid><title>First</title><link>https://a.example/1</link><description>one</description></item>
<item><guid>a2</guid><link>https://a.example/2</link></item>
</channel></rss>"#;

const RSS_C: &str = r#"<?xml version="1.0"?>
<rss version="2.0"><channel><link>https://c.example</link><description>d</description>
<item><guid>c1</guid><title>Only</title></item>
</channel></rss>"#;

const ATOM_LINKS: &str = r#"<?xml version="1.0" encoding="utf-8"?>
<feed xmlns="http://www.w3.org/2005/Atom"><title>L</title><id>urn:l</id><updated>2024-01-01T00:00:00Z</updated>
<entry><id>urn:e1</id><title>Two links</title><updated>2024-01-01T00:00:00Z</updated>
<link href="https://l.example/first"/><link rel="related" href="https://l.example/second"/>
<content type="html">&lt;p&gt;Body text&lt;/p&gt;</content></entry>
</feed>"#;

// Reads a body the way the application does, with feed_rs.
fn parse(body: &str) -> Option<FetchedDocument> {
    let doc = feed_rs::parser::parse(body.as_bytes()).ok()?;
    let entries = doc
        .entries
        .into_iter()
        .map(|e| FetchedEntry {
            id: e.id,
            title: e.title.map(|t| t.content),
            content: e.content.map(|c| c.body),
            links: e.links.into_iter().map(|l| l.href).collect(),
            published: e.published.map(|d| d.to_string()),
        })
        .collect();
    Some(FetchedDocument { title: doc.title.map(|t| t.content), id: doc.id, entries })
}

fn feed_of(url: &str, body: &str) -> Option<Feed> {
    parse(body).map(|d| feed_from_document(url.to_string(), d))
}

fn entry(content: Option<Option<&str>>, links: Vec<&str>) -> FetchedEntry {
    FetchedEntry {
        id: "e".to_string(),
        title: None,
        content: content.map(|c| c.map(|h| h.to_string())),
        links: links.into_iter().map(|l| l.to_string()).collect(),
        published: None,
    }
}

#[test]
fn placeholders_for_missing_parts() {
    let p = build_post(entry(None, vec![]), None);
    assert_eq!(p.title, "Untitled Post");
    assert_eq!(p.content, "No content available");
    assert_eq!(p.date, "");
    assert_eq!(p.link, None);
    assert!(!p.read);
    let f = build_feed("u".to_string(), None, "i".to_string(), vec![]);
    assert_eq!(f.title, "Untitled Feed");
    assert_eq!(f.url, "u");
}

#[test]
fn given_parts_are_kept() {
    let e = FetchedEntry {
        id: "x".to_string(),
        title: Some("T".to_string()),
        content: Some(Some("<p>body</p>".to_string())),
        links: vec!["https://l".to_string(), "https://m".to_string()],
        published: Some("2024-05-01 10:00:00 UTC".to_string()),
    };
    let p = build_post(e, Some("body".to_string()));
    assert_eq!(p.id, "x");
    assert_eq!(p.title, "T");
    assert_eq!(p.content, "body");
    assert_eq!(p.link.as_deref(), Some("https://l"));
    assert_eq!(p.date, "2024-05-01 10:00:00 UTC");
}

#[test]
fn conversion_counts_only_with_a_body() {
    assert_eq!(build_post(entry(Some(None), vec![]), Some("stray".to_string())).content, "No content available");
    assert_eq!(build_post(entry(None, vec![]), Some("stray".to_string())).content, "No content available");
    assert_eq!(build_post(entry(Some(Some("<p>h</p>")), vec![]), None).content, "No content available");
}

#[test]
fn content_placeholder_only_when_absent() {
    assert_eq!(content_or_placeholder(None), "No content available");
    assert_eq!(content_or_placeholder(Some("text".to_string())), "text");
}

#[test]
fn html_body_is_converted() {
    let p = post_from_entry(entry(Some(Some("<p>Hello <strong>world</strong></p>")), vec![]));
    assert!(p.content.contains("Hello"));
    assert!(!p.content.contains("<p>"));
    assert_ne!(p.content, "No content available");
    assert_eq!(post_from_entry(entry(None, vec![])).content, "No content available");
    assert_eq!(post_from_entry(entry(Some(None), vec![])).content, "No content available");
}

#[test]
fn parses_a_feed_document() {
    let f = feed_of("https://a.example/rss", RSS_A).unwrap();
    assert_eq!(f.url, "https://a.example/rss");
    assert_eq!(f.title, "Feed A");
    assert_eq!(f.posts.len(), 2);
    assert_eq!(f.posts[0].id, "a1");
    assert_eq!(f.posts[0].title, "First");
    assert_eq!(f.posts[0].link.as_deref(), Some("https://a.example/1"));
    assert_eq!(f.posts[1].title, "Untitled Post");
    assert!(f.posts.iter().all(|p| !p.read));
    let c = feed_of("https://c.example/rss", RSS_C).unwrap();
    assert_eq!(c.title, "Untitled Feed");
}

#[test]
fn first_link_and_html_content_from_atom() {
    let f = feed_of("https://l.example/atom", ATOM_LINKS).unwrap();
    assert_eq!(f.posts[0].link.as_deref(), Some("https://l.example/first"));
    assert!(f.posts[0].content.contains("Body text"));
}

#[test]
fn bad_document_yields_nothing() {
    assert!(feed_of("u", "this is not a feed").is_none());
}

#[test]
fn podcast_with_duration_is_delivered() {
    let body = r#"<?xml version="1.0" encoding="UTF-8"?>
<rss version="2.0" xmlns:itunes="http://www.itunes.com/dtds/podcast-1.0.dtd"><channel><title>P</title>
<link>https://p.example</link><description>d</description>
<item><guid>p1</guid><title>Ep</title><itunes:duration>00:42:10</itunes:duration></item></channel></rss>"#;
    let f = feed_of("u", body).unwrap();
    assert_eq!(f.posts[0].title, "Ep");
}

#[test]
fn one_failed_feed_does_not_stop_others() {
    let outcomes: Vec<(&str, Option<&str>)> =
        vec![("https://a.example/rss", Some(RSS_A)), ("https://b.example/rss", None), ("https://c.example/rss", Some(RSS_C))];
    let mut feeds: Vec<Feed> = Vec::new();
    for (url, body) in outcomes {
        if let Some(f) = body.and_then(|b| feed_of(url, b)) {
            ingest_feed(&mut feeds, f);
        }
    }
    let urls: Vec<&str> = feeds.iter().map(|f| f.url.as_str()).collect();
    assert_eq!(urls, vec!["https://a.example/rss", "https://c.example/rss"]);
}

#[test]
fn published_time_becomes_the_date() {
    let body = r#"<?xml version="1.0"?>
<rss version="2.0"><channel><title>D</title><link>https://d.example</link><description>d</description>
<item><guid>d1</guid><title>Dated</title><pubDate>Mon, 01 Jan 2024 10:00:00 GMT</pubDate></item>
</channel></rss>"#;
    let f = feed_of("u", body).unwrap();
    assert!(f.posts[0].date.starts_with("2024-01-01 10:00:00"));
}

#[test]
fn document_becomes_feed_entry_by_entry() {
    let doc = FetchedDocument {
        title: None,
        id: "doc".to_string(),
        entries: vec![
            entry(None, vec![]),
            FetchedEntry { id: "second".to_string(), ..entry(Some(Some("<p>x</p>")), vec!["https://x"]) },
        ],
    };
    let f = feed_from_document("https://u".to_string(), doc);
    assert_eq!(f.title, "Untitled Feed");
    assert_eq!(f.id, "doc");
    assert_eq!(f.url, "https://u");
    assert_eq!(f.posts.len(), 2);
    assert_eq!(f.posts[0].id, "e");
    assert_eq!(f.posts[0].content, "No content available");
    assert_eq!(f.posts[1].id, "second");
    assert_eq!(f.posts[1].link.as_deref(), Some("https://x"));
    assert!(f.posts[1].content.contains('x'));
    assert!(f.posts.iter().all(|p| !p.read));
}
