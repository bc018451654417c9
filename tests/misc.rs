use izrss::cache::{cache_key, cache_lookup, CacheError, CacheStep, CACHE_TTL_NANOS};
use izrss::config::{default_dateformat, default_home, default_reader_size, default_theme, Colors, Config, Size};
use izrss::reader::{ScrollState, View};

#[test]
fn cache_key_is_hex_sha256() {
    assert_eq!(
        cache_key("https://example.com/feed.xml"),
        "7a775db75c1d6d17181c9905dcb7bfdc05c44d0d733030eeddf0a24278180e6c"
    );
    assert_eq!(cache_key(""), "e3b0c44298fc1c149afbf4c8996fb92427ae41e4649b934ca495991b7852b855");
}

#[test]
fn cache_key_deterministic_and_distinct() {
    assert_eq!(cache_key("https://example.org/rss"), cache_key("https://example.org/rss"));
    assert_ne!(cache_key("https://example.org/rss"), cache_key("https://example.com/feed.xml"));
    assert_eq!(cache_key("https://example.org/rss").len(), 64);
}

#[test]
fn cache_freshness_window() {
    let t: u128 = 1_700_000_000_000_000_000;
    assert_eq!(cache_lookup(None, t), Ok(CacheStep::Fetch));
    assert_eq!(cache_lookup(Some(t), t), Ok(CacheStep::ReadCached));
    assert_eq!(cache_lookup(Some(t), t + CACHE_TTL_NANOS - 1), Ok(CacheStep::ReadCached));
    assert_eq!(cache_lookup(Some(t), t + CACHE_TTL_NANOS), Ok(CacheStep::Fetch));
    assert_eq!(cache_lookup(Some(t), t + 2 * CACHE_TTL_NANOS), Ok(CacheStep::Fetch));
    assert_eq!(cache_lookup(Some(t + 1), t), Err(CacheError::ModifiedInFuture));
    assert_eq!(CACHE_TTL_NANOS, 3_600_000_000_000);
}

#[test]
fn config_defaults() {
    let c = Colors::default();
    assert_eq!(c.text, "#cdd6f4");
    assert_eq!(c.inverttext, "#1e1e2e");
    assert_eq!(c.subtext, "#a6adc8");
    assert_eq!(c.accent, "#74c7ec");
    assert_eq!(c.borders, "#313244");
    assert_eq!(default_home(), "home");
    assert_eq!(default_dateformat(), "02/01/2006");
    assert!(matches!(default_reader_size(), Size::Recommended));
    assert_eq!(default_theme(), None);
}

#[test]
fn config_getters() {
    let conf = Config {
        home: default_home(),
        colors: Colors::default(),
        dateformat: default_dateformat(),
        urls: vec!["https://a".to_string(), "https://b".to_string()],
    };
    assert_eq!(conf.get_feed_urls(), vec!["https://a".to_string(), "https://b".to_string()]);
    assert_eq!(conf.get_text_color(), "#cdd6f4");
    assert_eq!(conf.get_invert_text_color(), "#1e1e2e");
    assert_eq!(conf.get_subtext_color(), "#a6adc8");
    assert_eq!(conf.get_accent_color(), "#74c7ec");
    assert_eq!(conf.get_borders_color(), "#313244");
}

#[test]
fn scrolling_stays_in_bounds() {
    let mut s = ScrollState::new(2);
    assert_eq!((s.position, s.total, s.view_size), (0, 2, 1));
    s.scroll_up();
    assert_eq!(s.position, 0);
    s.scroll_down();
    s.scroll_down();
    s.scroll_down();
    assert_eq!(s.position, 2);
    s.scroll_up();
    assert_eq!(s.position, 1);
}

#[test]
fn visible_offset_keeps_last_page_full() {
    let mut s = ScrollState::new(10);
    s.view_size = 4;
    for _ in 0..8 {
        s.scroll_down();
    }
    assert_eq!(s.visible_offset(), 6);
    s.scroll_up();
    s.scroll_up();
    s.scroll_up();
    assert_eq!(s.visible_offset(), 5);
    s.view_size = 20;
    assert_eq!(s.visible_offset(), 0);
}

#[test]
fn view_transitions() {
    assert_eq!(View::Feeds.opened(true), View::Posts);
    assert_eq!(View::Feeds.opened(false), View::Feeds);
    assert_eq!(View::Posts.opened(true), View::Post);
    assert_eq!(View::Post.opened(true), View::Post);
    assert_eq!(View::Post.closed(), View::Posts);
    assert_eq!(View::Posts.closed(), View::Feeds);
    assert_eq!(View::Feeds.closed(), View::Feeds);
}
