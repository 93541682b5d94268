use termnews::aggregate::merge_results;
use termnews::config::{default_config, resolve_config, Config, FeedGroup};
use termnews::feed::{items_from_feed_bytes, normalize_feed, RawFeed, RawItem};
use termnews::item::NewsItem;
use termnews::session::SessionState;

fn item(title: &str) -> NewsItem {
    NewsItem {
        title: title.to_string(),
        source: "src".to_string(),
        tag: Some("RSS".to_string()),
        url: None,
    }
}

const FEED_XML: &str = r#"<?xml version="1.0"?>
<rss version="2.0">
  <channel>
    <title>Chan</title>
    <link>http://chan.example/</link>
    <description>d</description>
    <item><title>A</title><link>http://chan.example/a</link></item>
    <item><title>B</title></item>
  </channel>
</rss>"#;

#[test]
fn feed_bytes_become_normalized_items() {
    let items = items_from_feed_bytes(FEED_XML.as_bytes()).expect("feed should parse");
    assert_eq!(items.len(), 2);
    assert_eq!(items[0].title, "A");
    assert_eq!(items[0].source, "Chan");
    assert_eq!(items[0].tag.as_deref(), Some("RSS"));
    assert_eq!(items[0].url.as_deref(), Some("http://chan.example/a"));
    assert_eq!(items[1].title, "B");
    assert_eq!(items[1].url, None);
}

#[test]
fn malformed_feed_yields_nothing() {
    assert!(items_from_feed_bytes(b"this is not xml at all").is_none());
}

#[test]
fn entry_without_title_gets_placeholder() {
    let xml = r#"<rss version="2.0"><channel><title>C</title>
        <item><link>http://c/x</link></item></channel></rss>"#;
    let items = items_from_feed_bytes(xml.as_bytes()).expect("feed should parse");
    assert_eq!(items.len(), 1);
    assert_eq!(items[0].title, "No Title");
}

#[test]
fn one_source_is_capped_at_fifteen_items() {
    let mut xml = String::from(r#"<rss version="2.0"><channel><title>Big</title>"#);
    for i in 0..20 {
        xml.push_str(&format!("<item><title>t{}</title></item>", i));
    }
    xml.push_str("</channel></rss>");
    let items = items_from_feed_bytes(xml.as_bytes()).expect("feed should parse");
    assert_eq!(items.len(), 15);
    assert_eq!(items[0].title, "t0");
    assert_eq!(items[14].title, "t14");
}

#[test]
fn normalize_tags_items_with_channel_title_and_marker() {
    let feed = RawFeed {
        title: "Chan".to_string(),
        items: vec![
            RawItem { title: Some("A".to_string()), link: Some("http://c/a".to_string()) },
            RawItem { title: None, link: None },
        ],
    };
    let out = normalize_feed(&feed);
    assert_eq!(out.len(), 2);
    assert_eq!(out[0].title, "A");
    assert_eq!(out[0].source, "Chan");
    assert_eq!(out[0].tag.as_deref(), Some("RSS"));
    assert_eq!(out[0].url.as_deref(), Some("http://c/a"));
    assert_eq!(out[1].title, "No Title");
    assert_eq!(out[1].url, None);
}

#[test]
fn merge_keeps_only_successes_in_order() {
    // Three sources; the middle one failed. The merge is the concatenation
    // of the two successes and nothing else.
    let a = vec![item("a1"), item("a2")];
    let b = vec![item("b1")];
    let merged = merge_results(vec![Some(a), None, Some(b)]);
    let titles: Vec<&str> = merged.iter().map(|i| i.title.as_str()).collect();
    assert_eq!(titles, vec!["a1", "a2", "b1"]);
}

#[test]
fn merge_of_all_failures_is_empty() {
    assert!(merge_results(vec![None, None, None]).is_empty());
    assert!(merge_results(vec![]).is_empty());
}

#[test]
fn aggregation_end_to_end_with_one_timed_out_source() {
    // A tab with sources [ok1, fail, ok2]: after aggregation the session
    // shows exactly ok1's and ok2's items and is no longer loading.
    let ok1 = vec![item("ok1-a"), item("ok1-b")];
    let ok2 = vec![item("ok2-a")];
    let merged = merge_results(vec![Some(ok1), None, Some(ok2)]);

    let mut s = SessionState::new(default_config());
    s.commit_refresh(0, merged);
    let titles: Vec<&str> = s.items.iter().map(|i| i.title.as_str()).collect();
    assert_eq!(titles, vec!["ok1-a", "ok1-b", "ok2-a"]);
    assert!(!s.is_loading);
    assert_eq!(s.selected, Some(0));
}

#[test]
fn config_resolution_prefers_local_then_user_then_default() {
    let group = |name: &str| FeedGroup { name: name.to_string(), urls: vec!["u".to_string()] };

    let c = resolve_config(Some(Config { feeds: vec![group("L")] }), Some(Config {
        feeds: vec![group("U")],
    }));
    assert_eq!(c.feeds[0].name, "L");

    // A parsed override with no groups is unusable: the user file wins.
    let c2 = resolve_config(Some(Config { feeds: vec![] }), Some(Config {
        feeds: vec![group("U")],
    }));
    assert_eq!(c2.feeds[0].name, "U");

    // With neither usable the built-in default applies.
    let c3 = resolve_config(Some(Config { feeds: vec![] }), None);
    assert_eq!(c3.feeds[0].name, "Tech Hub");
}

#[test]
fn default_config_has_the_built_in_groups() {
    let c = default_config();
    let names: Vec<&str> = c.feeds.iter().map(|f| f.name.as_str()).collect();
    assert_eq!(names, vec!["Tech Hub", "World", "Sports", "Rust"]);
    assert_eq!(c.feeds[0].urls.len(), 3);
    assert_eq!(c.feeds[0].urls[0], "https://techcrunch.com/feed/");
    assert_eq!(c.feeds[3].urls[0], "https://blog.rust-lang.org/feed.xml");
}
