//! Feed groups: the static description of each tab's set of source URLs.

use vstd::prelude::*;

verus! {

/// One tab: a display name and the ordered source URLs whose items are merged
/// into the tab's list. Immutable once loaded; identified by its position.
pub struct FeedGroup {
    pub name: String,
    pub urls: Vec<String>,
}

/// The configured sequence of feed groups.
pub struct Config {
    pub feeds: Vec<FeedGroup>,
}

impl Config {
    /// A usable configuration has at least one group, so that tab index 0 is
    /// always valid.
    pub open spec fn wf(self) -> bool {
        self.feeds@.len() > 0
    }
}

/// What the built-in starting set of feed groups holds, group by group.
pub open spec fn is_default_config(c: Config) -> bool {
    &&& c.feeds@.len() == 4
    &&& c.feeds@[0].name@ == "Tech Hub"@
    &&& c.feeds@[0].urls@.len() == 3
    &&& c.feeds@[0].urls@[0]@ == "https://techcrunch.com/feed/"@
    &&& c.feeds@[0].urls@[1]@ == "https://www.theverge.com/rss/index.xml"@
    &&& c.feeds@[0].urls@[2]@ == "https://wired.com/feed/rss"@
    &&& c.feeds@[1].name@ == "World"@
    &&& c.feeds@[1].urls@.len() == 2
    &&& c.feeds@[1].urls@[0]@ == "http://feeds.bbci.co.uk/news/world/rss.xml"@
    &&& c.feeds@[1].urls@[1]@ == "https://www.aljazeera.com/xml/rss/all.xml"@
    &&& c.feeds@[2].name@ == "Sports"@
    &&& c.feeds@[2].urls@.len() == 1
    &&& c.feeds@[2].urls@[0]@ == "https://www.espn.com/espn/rss/news"@
    &&& c.feeds@[3].name@ == "Rust"@
    &&& c.feeds@[3].urls@.len() == 1
    &&& c.feeds@[3].urls@[0]@ == "https://blog.rust-lang.org/feed.xml"@
}

/// The built-in starting set of feed groups, used when no configuration file
/// is found.
pub fn default_config() -> (c: Config)
    ensures
        c.wf(),
        is_default_config(c),
{
    let mut tech_urls: Vec<String> = Vec::new();
    tech_urls.push("https://techcrunch.com/feed/".to_owned());
    tech_urls.push("https://www.theverge.com/rss/index.xml".to_owned());
    tech_urls.push("https://wired.com/feed/rss".to_owned());

    let mut world_urls: Vec<String> = Vec::new();
    world_urls.push("http://feeds.bbci.co.uk/news/world/rss.xml".to_owned());
    world_urls.push("https://www.aljazeera.com/xml/rss/all.xml".to_owned());

    let mut sports_urls: Vec<String> = Vec::new();
    sports_urls.push("https://www.espn.com/espn/rss/news".to_owned());

    let mut rust_urls: Vec<String> = Vec::new();
    rust_urls.push("https://blog.rust-lang.org/feed.xml".to_owned());

    let mut feeds: Vec<FeedGroup> = Vec::new();
    feeds.push(FeedGroup { name: "Tech Hub".to_owned(), urls: tech_urls });
    feeds.push(FeedGroup { name: "World".to_owned(), urls: world_urls });
    feeds.push(FeedGroup { name: "Sports".to_owned(), urls: sports_urls });
    feeds.push(FeedGroup { name: "Rust".to_owned(), urls: rust_urls });

    Config { feeds }
}

/// Pick the configuration to run with: the local override when it parsed and
/// is usable, else the per-user one under the same condition, else the
/// built-in default. A parsed configuration with no groups counts as
/// unusable, since the session needs tab 0 to exist.
pub fn resolve_config(local: Option<Config>, user: Option<Config>) -> (c: Config)
    ensures
        c.wf(),
        match local {
            Some(l) => l.wf() ==> c == l,
            None => true,
        },
        (match local {
            Some(l) => !l.wf(),
            None => true,
        }) ==> match user {
            Some(u) => u.wf() ==> c == u,
            None => true,
        },
        (match local {
            Some(l) => !l.wf(),
            None => true,
        }) && (match user {
            Some(u) => !u.wf(),
            None => true,
        }) ==> is_default_config(c),
{
    if let Some(l) = local {
        if l.feeds.len() > 0 {
            return l;
        }
    }
    if let Some(u) = user {
        if u.feeds.len() > 0 {
            return u;
        }
    }
    default_config()
}

} // verus!
