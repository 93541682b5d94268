//! One source's fetch pipeline after transport: parse the document bytes as a
//! syndication feed and normalize a bounded number of its entries.

use vstd::prelude::*;

use crate::item::NewsItem;

verus! {

/// At most this many items are taken from any one source.
pub const SOURCE_ITEM_CAP: usize = 15;

/// One entry of a parsed feed document, reduced to the two fields the library
/// reads.
pub struct RawItem {
    pub title: Option<String>,
    pub link: Option<String>,
}

/// A parsed feed document: the channel's declared title and its entries.
pub struct RawFeed {
    pub title: String,
    pub items: Vec<RawItem>,
}

pub open spec fn raw_item_view(it: RawItem) -> (Option<Seq<char>>, Option<Seq<char>>) {
    (
        match it.title {
            Some(t) => Some(t@),
            None => None,
        },
        match it.link {
            Some(l) => Some(l@),
            None => None,
        },
    )
}

pub open spec fn raw_feed_view(f: RawFeed) -> (Seq<char>, Seq<
    (Option<Seq<char>>, Option<Seq<char>>),
>) {
    (f.title@, f.items@.map_values(|it: RawItem| raw_item_view(it)))
}

/// What the feed parser yields on given document bytes: the channel title
/// and, per entry, the optional title and link — or nothing, when the bytes
/// are not a well-formed feed document.
pub uninterp spec fn feed_of(bytes: Seq<u8>) -> Option<
    (Seq<char>, Seq<(Option<Seq<char>>, Option<Seq<char>>)>),
>;

/// Relies on rss::Channel::read_from: whether the bytes parse as a feed, and
/// the channel title and each item's title and link when they do, depend on
/// the bytes alone and are handed over unchanged.
#[verifier::external_body]
fn parse_feed(bytes: &[u8]) -> (r: Option<RawFeed>)
    ensures
        match r {
            Some(f) => feed_of(bytes@) == Some(raw_feed_view(f)),
            None => feed_of(bytes@) is None,
        },
{
    match rss::Channel::read_from(bytes) {
        Ok(channel) => Some(
            RawFeed {
                title: channel.title().to_string(),
                items: channel.items().iter().map(
                    |it| RawItem {
                        title: it.title().map(|s| s.to_string()),
                        link: it.link().map(|s| s.to_string()),
                    },
                ).collect(),
            },
        ),
        Err(_) => None,
    }
}

/// How one normalized item relates to the raw entry it came from: the entry's
/// title, or a fixed placeholder when it has none; the channel title as the
/// item's source; the fixed feed marker as its tag; the entry's link carried
/// over.
pub open spec fn news_matches_raw(
    src: Seq<char>,
    raw: (Option<Seq<char>>, Option<Seq<char>>),
    n: NewsItem,
) -> bool {
    &&& n.source@ == src
    &&& n.tag matches Some(t) && t@ == "RSS"@
    &&& match raw.1 {
        Some(l) => n.url matches Some(u) && u@ == l,
        None => n.url is None,
    }
    &&& match raw.0 {
        Some(t) => n.title@ == t,
        None => n.title@ == "No Title"@,
    }
}

/// Normalize a parsed feed into list items, taking at most
/// [`SOURCE_ITEM_CAP`] entries in document order.
pub fn normalize_feed(feed: &RawFeed) -> (out: Vec<NewsItem>)
    ensures
        out@.len() == vstd::math::min(feed.items@.len() as int, SOURCE_ITEM_CAP as int),
        forall|k: int|
            0 <= k < out@.len() ==> news_matches_raw(
                feed.title@,
                raw_item_view(feed.items@[k]),
                #[trigger] out@[k],
            ),
{
    let cap: usize = if feed.items.len() < SOURCE_ITEM_CAP {
        feed.items.len()
    } else {
        SOURCE_ITEM_CAP
    };
    let mut out: Vec<NewsItem> = Vec::new();
    let mut idx: usize = 0;
    while idx < cap
        invariant
            idx <= cap,
            cap == vstd::math::min(feed.items@.len() as int, SOURCE_ITEM_CAP as int),
            out@.len() == idx,
            forall|k: int|
                0 <= k < idx ==> news_matches_raw(
                    feed.title@,
                    raw_item_view(feed.items@[k]),
                    #[trigger] out@[k],
                ),
        decreases cap - idx,
    {
        let entry = &feed.items[idx];
        let title: String = match &entry.title {
            Some(t) => t.clone(),
            None => "No Title".to_owned(),
        };
        let url: Option<String> = match &entry.link {
            Some(l) => Some(l.clone()),
            None => None,
        };
        out.push(
            NewsItem { title, source: feed.title.clone(), tag: Some("RSS".to_owned()), url },
        );
        idx = idx + 1;
    }
    out
}

/// The whole per-source step after transport: parse the fetched bytes as a
/// feed and normalize at most [`SOURCE_ITEM_CAP`] of its entries. Returns
/// nothing exactly when the bytes do not parse; the caller counts that source
/// as having contributed nothing.
pub fn items_from_feed_bytes(bytes: &[u8]) -> (r: Option<Vec<NewsItem>>)
    ensures
        match r {
            Some(v) => feed_of(bytes@) matches Some(f) && v@.len() == vstd::math::min(
                f.1.len() as int,
                SOURCE_ITEM_CAP as int,
            ) && (forall|k: int|
                0 <= k < v@.len() ==> news_matches_raw(f.0, f.1[k], #[trigger] v@[k])),
            None => feed_of(bytes@) is None,
        },
{
    match parse_feed(bytes) {
        Some(feed) => {
            let out = normalize_feed(&feed);
            proof {
                let f = raw_feed_view(feed);
                assert(forall|k: int|
                    0 <= k < f.1.len() ==> #[trigger] f.1[k] == raw_item_view(feed.items@[k]));
            }
            Some(out)
        },
        None => None,
    }
}

} // verus!
