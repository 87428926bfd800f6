//! The feed parser adapter: raw feed text becomes one tagged variant — Atom
//! or RSS — whose fields are plain values the normalizer can read.

use vstd::prelude::*;

verus! {

/// The error taxonomy of a whole fetch-and-normalize call. Field-level
/// absence is never escalated to one of these.
#[derive(Clone, Copy, Debug, PartialEq, Eq, Structural)]
pub enum FeedError {
    /// The fetch itself failed (connection or timeout).
    Transport,
    /// The response body could not be read or decoded.
    BodyRead,
    /// The text matched neither the Atom nor the RSS grammar.
    FeedParse,
}

/// One Atom entry, reduced to the plain values the normalizer reads.
pub struct RawAtomEntry {
    pub title: String,
    pub published: Option<String>,
    pub updated: String,
    pub summary: Option<String>,
    pub content: Option<String>,
    pub links: Vec<String>,
}

/// One RSS item, reduced to the plain values the normalizer reads.
pub struct RawRssItem {
    pub title: Option<String>,
    pub description: Option<String>,
    pub content: Option<String>,
    pub pub_date: Option<String>,
    pub link: Option<String>,
}

/// A parsed Atom feed: its document fields and its entries, in order.
pub struct RawAtomFeed {
    pub title: String,
    pub icon: Option<String>,
    pub logo: Option<String>,
    pub links: Vec<String>,
    pub entries: Vec<RawAtomEntry>,
}

/// A parsed RSS channel: its document fields and its items, in order.
pub struct RawRssFeed {
    pub title: String,
    pub link: String,
    pub items: Vec<RawRssItem>,
}

/// The tagged variant a parse produces.
pub enum RawFeed {
    Atom(RawAtomFeed),
    Rss(RawRssFeed),
}

/// Mathematical model of one Atom entry.
pub struct AtomEntryV {
    pub title: Seq<char>,
    pub published: Option<Seq<char>>,
    pub updated: Seq<char>,
    pub summary: Option<Seq<char>>,
    pub content: Option<Seq<char>>,
    pub links: Seq<Seq<char>>,
}

/// Mathematical model of one RSS item.
pub struct RssItemV {
    pub title: Option<Seq<char>>,
    pub description: Option<Seq<char>>,
    pub content: Option<Seq<char>>,
    pub pub_date: Option<Seq<char>>,
    pub link: Option<Seq<char>>,
}

/// Mathematical model of a parsed Atom feed.
pub struct AtomFeedV {
    pub title: Seq<char>,
    pub icon: Option<Seq<char>>,
    pub logo: Option<Seq<char>>,
    pub links: Seq<Seq<char>>,
    pub entries: Seq<AtomEntryV>,
}

/// Mathematical model of a parsed RSS channel.
pub struct RssFeedV {
    pub title: Seq<char>,
    pub link: Seq<char>,
    pub items: Seq<RssItemV>,
}

/// Mathematical model of the tagged variant.
pub enum RawFeedV {
    Atom(AtomFeedV),
    Rss(RssFeedV),
}

impl View for RawAtomEntry {
    type V = AtomEntryV;

    open spec fn view(&self) -> AtomEntryV {
        AtomEntryV {
            title: self.title@,
            published: self.published.deep_view(),
            updated: self.updated@,
            summary: self.summary.deep_view(),
            content: self.content.deep_view(),
            links: self.links.deep_view(),
        }
    }
}

impl View for RawRssItem {
    type V = RssItemV;

    open spec fn view(&self) -> RssItemV {
        RssItemV {
            title: self.title.deep_view(),
            description: self.description.deep_view(),
            content: self.content.deep_view(),
            pub_date: self.pub_date.deep_view(),
            link: self.link.deep_view(),
        }
    }
}

impl View for RawAtomFeed {
    type V = AtomFeedV;

    open spec fn view(&self) -> AtomFeedV {
        AtomFeedV {
            title: self.title@,
            icon: self.icon.deep_view(),
            logo: self.logo.deep_view(),
            links: self.links.deep_view(),
            entries: self.entries@.map_values(|e: RawAtomEntry| e@),
        }
    }
}

impl View for RawRssFeed {
    type V = RssFeedV;

    open spec fn view(&self) -> RssFeedV {
        RssFeedV {
            title: self.title@,
            link: self.link@,
            items: self.items@.map_values(|it: RawRssItem| it@),
        }
    }
}

impl View for RawFeed {
    type V = RawFeedV;

    open spec fn view(&self) -> RawFeedV {
        match self {
            RawFeed::Atom(f) => RawFeedV::Atom(f@),
            RawFeed::Rss(f) => RawFeedV::Rss(f@),
        }
    }
}

#[verifier::external_type_specification]
#[verifier::external_body]
pub struct ExAtomFeed(atom_syndication::Feed);

#[verifier::external_type_specification]
#[verifier::external_body]
pub struct ExRssChannel(rss::Channel);

/// A parsed feed before field extraction, still held by the parsing crates.
pub enum SynFeed {
    Atom(atom_syndication::Feed),
    Rss(rss::Channel),
}

/// What a parsed `atom_syndication::Feed` value holds, as plain values: the
/// accessors below hand out its components.
pub uninterp spec fn atom_model(f: atom_syndication::Feed) -> AtomFeedV;

/// What a parsed `rss::Channel` value holds, as plain values: the accessors
/// below hand out its components.
pub uninterp spec fn channel_model(c: rss::Channel) -> RssFeedV;

/// What `str::parse::<syndication::Feed>` returns for a given text: the
/// parse first tries the Atom grammar, then the RSS grammar, and both are
/// functions of the text alone; `None` when neither matched.
pub uninterp spec fn feed_model_of(s: Seq<char>) -> Option<RawFeedV>;

/// Whether a text parses as a feed at all.
pub open spec fn is_feed_text(s: Seq<char>) -> bool {
    feed_model_of(s) is Some
}

/// Relies on `str::parse::<syndication::Feed>`: `Some` exactly on text that
/// matches the Atom or the RSS grammar, tagged by which one matched and
/// holding that text's parse.
#[verifier::external_body]
fn parse_syndication(text: &str) -> (r: Option<SynFeed>)
    ensures
        r is Some <==> is_feed_text(text@),
        r matches Some(SynFeed::Atom(f)) ==> feed_model_of(text@) == Some(
            RawFeedV::Atom(atom_model(f)),
        ),
        r matches Some(SynFeed::Rss(c)) ==> feed_model_of(text@) == Some(
            RawFeedV::Rss(channel_model(c)),
        ),
{
    match text.parse::<syndication::Feed>() {
        Ok(syndication::Feed::Atom(feed)) => Some(SynFeed::Atom(feed)),
        Ok(syndication::Feed::RSS(channel)) => Some(SynFeed::Rss(channel)),
        Err(_) => None,
    }
}

/// Relies on `atom_syndication::Feed`'s accessors `title`, `icon`, `logo`
/// and `links`, and `Link::href`: the feed's document fields, as owned
/// strings.
#[verifier::external_body]
fn atom_feed_fields(f: &atom_syndication::Feed) -> (r: (
    String,
    Option<String>,
    Option<String>,
    Vec<String>,
))
    ensures
        r.0@ == atom_model(*f).title,
        r.1.deep_view() == atom_model(*f).icon,
        r.2.deep_view() == atom_model(*f).logo,
        r.3.deep_view() == atom_model(*f).links,
{
    (
        f.title().to_string(),
        f.icon().map(|s| s.to_string()),
        f.logo().map(|s| s.to_string()),
        f.links().iter().map(|l| l.href().to_string()).collect(),
    )
}

/// Relies on `atom_syndication::Feed::entries`: how many entries the feed
/// holds.
#[verifier::external_body]
fn atom_entry_count(f: &atom_syndication::Feed) -> (n: usize)
    ensures
        n == atom_model(*f).entries.len(),
{
    f.entries().len()
}

/// Relies on `atom_syndication::Feed::entries` and the entry accessors
/// `title`, `published`, `updated`, `summary`, `content`, `Content::value`,
/// `links` and `Link::href`: the fields of the entry at `i`, as owned plain
/// values; `None` exactly past the end.
#[verifier::external_body]
fn atom_entry_at(f: &atom_syndication::Feed, i: usize) -> (r: Option<RawAtomEntry>)
    ensures
        r is Some <==> i < atom_model(*f).entries.len(),
        r matches Some(e) ==> e@ == atom_model(*f).entries[i as int],
{
    f.entries().get(i).map(|e| RawAtomEntry {
        title: e.title().to_string(),
        published: e.published().map(|s| s.to_string()),
        updated: e.updated().to_string(),
        summary: e.summary().map(|s| s.to_string()),
        content: e.content().and_then(|c| c.value()).map(|s| s.to_string()),
        links: e.links().iter().map(|l| l.href().to_string()).collect(),
    })
}

/// Relies on `rss::Channel`'s accessors `title` and `link`: the channel's
/// document fields, as owned strings.
#[verifier::external_body]
fn rss_channel_fields(c: &rss::Channel) -> (r: (String, String))
    ensures
        r.0@ == channel_model(*c).title,
        r.1@ == channel_model(*c).link,
{
    (c.title().to_string(), c.link().to_string())
}

/// Relies on `rss::Channel::items`: how many items the channel holds.
#[verifier::external_body]
fn rss_item_count(c: &rss::Channel) -> (n: usize)
    ensures
        n == channel_model(*c).items.len(),
{
    c.items().len()
}

/// Relies on `rss::Channel::items` and the item accessors `title`,
/// `description`, `content`, `pub_date` and `link`: the fields of the item
/// at `i`, as owned plain values; `None` exactly past the end.
#[verifier::external_body]
fn rss_item_at(c: &rss::Channel, i: usize) -> (r: Option<RawRssItem>)
    ensures
        r is Some <==> i < channel_model(*c).items.len(),
        r matches Some(it) ==> it@ == channel_model(*c).items[i as int],
{
    c.items().get(i).map(|it| RawRssItem {
        title: it.title().map(|s| s.to_string()),
        description: it.description().map(|s| s.to_string()),
        content: it.content().map(|s| s.to_string()),
        pub_date: it.pub_date().map(|s| s.to_string()),
        link: it.link().map(|s| s.to_string()),
    })
}

/// Extracts every Atom entry, in document order.
fn atom_entries(f: &atom_syndication::Feed) -> (entries: Vec<RawAtomEntry>)
    ensures
        entries@.map_values(|e: RawAtomEntry| e@) == atom_model(*f).entries,
{
    let n = atom_entry_count(f);
    let mut entries: Vec<RawAtomEntry> = Vec::new();
    let mut i: usize = 0;
    while i < n
        invariant
            i <= n,
            n == atom_model(*f).entries.len(),
            entries@.len() == i,
            forall|k: int| 0 <= k < i ==> entries@[k]@ == atom_model(*f).entries[k],
        decreases n - i,
    {
        match atom_entry_at(f, i) {
            Some(e) => entries.push(e),
            None => (),
        }
        i += 1;
    }
    assert(entries@.map_values(|e: RawAtomEntry| e@) =~= atom_model(*f).entries);
    entries
}

/// Extracts every RSS item, in document order.
fn rss_items(c: &rss::Channel) -> (items: Vec<RawRssItem>)
    ensures
        items@.map_values(|it: RawRssItem| it@) == channel_model(*c).items,
{
    let n = rss_item_count(c);
    let mut items: Vec<RawRssItem> = Vec::new();
    let mut i: usize = 0;
    while i < n
        invariant
            i <= n,
            n == channel_model(*c).items.len(),
            items@.len() == i,
            forall|k: int| 0 <= k < i ==> items@[k]@ == channel_model(*c).items[k],
        decreases n - i,
    {
        match rss_item_at(c, i) {
            Some(it) => items.push(it),
            None => (),
        }
        i += 1;
    }
    assert(items@.map_values(|it: RawRssItem| it@) =~= channel_model(*c).items);
    items
}

/// Parses raw feed text into the tagged variant, reducing every field to a
/// plain value. The result is exactly that text's parse; it fails — with
/// the parse error and nothing else — exactly on text that matches neither
/// grammar.
pub fn parse_feed(text: &str) -> (r: Result<RawFeed, FeedError>)
    ensures
        r is Ok <==> is_feed_text(text@),
        r matches Ok(raw) ==> feed_model_of(text@) == Some(raw@),
        r matches Err(e) ==> e == FeedError::FeedParse,
{
    match parse_syndication(text) {
        None => Err(FeedError::FeedParse),
        Some(SynFeed::Atom(feed)) => {
            let (title, icon, logo, links) = atom_feed_fields(&feed);
            let entries = atom_entries(&feed);
            let raw = RawAtomFeed { title, icon, logo, links, entries };
            proof {
                assert(raw@ == atom_model(feed));
            }
            Ok(RawFeed::Atom(raw))
        },
        Some(SynFeed::Rss(channel)) => {
            let (title, link) = rss_channel_fields(&channel);
            let items = rss_items(&channel);
            let raw = RawRssFeed { title, link, items };
            proof {
                assert(raw@ == channel_model(channel));
            }
            Ok(RawFeed::Rss(raw))
        },
    }
}

} // verus!
