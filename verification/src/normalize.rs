//! The field normalizer: per entry, independent of variant, every canonical
//! field is derived by an explicit ordered fallback chain — first match wins
//! — and the sanitizer and the date normalizer are applied on the way.

use vstd::prelude::*;
use crate::dates::parse_date;
use crate::feed::{AtomEntryV, RawAtomEntry, RawFeed, RawFeedV, RawRssItem, RssItemV};
use crate::sanitize::{clean_of, process_markup, unwrap_noscript};

verus! {

/// Which grammar the source text matched.
#[derive(Clone, Copy, Debug, PartialEq, Eq, Structural)]
pub enum FeedKind {
    Atom,
    Rss,
}

/// One canonical item. The description and the content have always passed
/// through the sanitizer, even when empty; `published` is epoch seconds with
/// 0 standing in for anything unparseable; absent sources leave their
/// documented defaults, never an error.
pub struct FeedItem {
    pub title: String,
    pub description: String,
    pub content: String,
    pub published: i64,
    pub published_raw: String,
    pub link: String,
}

/// The canonical document: the variant tag, the document fields, and the
/// items in source order. Icon and logo are populated only for Atom.
pub struct FeedDocument {
    pub kind: FeedKind,
    pub title: String,
    pub icon: Option<String>,
    pub logo: Option<String>,
    pub links: Vec<String>,
    pub items: Vec<FeedItem>,
}

/// Mathematical model of one canonical item.
pub struct ItemV {
    pub title: Seq<char>,
    pub description: Seq<char>,
    pub content: Seq<char>,
    pub published: i64,
    pub published_raw: Seq<char>,
    pub link: Seq<char>,
}

/// Mathematical model of the canonical document.
pub struct DocumentV {
    pub kind: FeedKind,
    pub title: Seq<char>,
    pub icon: Option<Seq<char>>,
    pub logo: Option<Seq<char>>,
    pub links: Seq<Seq<char>>,
    pub items: Seq<ItemV>,
}

impl View for FeedItem {
    type V = ItemV;

    open spec fn view(&self) -> ItemV {
        ItemV {
            title: self.title@,
            description: self.description@,
            content: self.content@,
            published: self.published,
            published_raw: self.published_raw@,
            link: self.link@,
        }
    }
}

impl View for FeedDocument {
    type V = DocumentV;

    open spec fn view(&self) -> DocumentV {
        DocumentV {
            kind: self.kind,
            title: self.title@,
            icon: self.icon.deep_view(),
            logo: self.logo.deep_view(),
            links: self.links.deep_view(),
            items: self.items@.map_values(|it: FeedItem| it@),
        }
    }
}

/// Atom published-date source: the published field; else the updated field
/// when non-empty; else the sentinel.
pub open spec fn atom_date_source(e: AtomEntryV) -> Seq<char> {
    match e.published {
        Some(p) => p,
        None => if e.updated.len() > 0 {
            e.updated
        } else {
            "NO_DATE"@
        },
    }
}

/// Atom description source: the summary; else empty.
pub open spec fn atom_desc_source(e: AtomEntryV) -> Seq<char> {
    match e.summary {
        Some(s) => s,
        None => Seq::empty(),
    }
}

/// Atom content source: the explicit content field's value; else empty.
pub open spec fn atom_content_source(e: AtomEntryV) -> Seq<char> {
    match e.content {
        Some(c) => c,
        None => Seq::empty(),
    }
}

/// Atom link: the first entry of the item's link set; else empty.
pub open spec fn atom_link_source(e: AtomEntryV) -> Seq<char> {
    if e.links.len() > 0 {
        e.links[0]
    } else {
        Seq::empty()
    }
}

/// RSS published-date source: the single publication-date field; else empty.
pub open spec fn rss_date_source(it: RssItemV) -> Seq<char> {
    match it.pub_date {
        Some(d) => d,
        None => Seq::empty(),
    }
}

/// RSS description source: the item description; else empty.
pub open spec fn rss_desc_source(it: RssItemV) -> Seq<char> {
    match it.description {
        Some(d) => d,
        None => Seq::empty(),
    }
}

/// RSS content source: the explicit content field; else empty.
pub open spec fn rss_content_source(it: RssItemV) -> Seq<char> {
    match it.content {
        Some(c) => c,
        None => Seq::empty(),
    }
}

/// RSS link: the item link; else empty.
pub open spec fn rss_link_source(it: RssItemV) -> Seq<char> {
    match it.link {
        Some(l) => l,
        None => Seq::empty(),
    }
}

/// RSS title: the underlying value as-is; absence yields empty.
pub open spec fn rss_title_source(it: RssItemV) -> Seq<char> {
    match it.title {
        Some(t) => t,
        None => Seq::empty(),
    }
}

/// The canonical item an Atom entry becomes, given the epoch seconds the
/// date normalizer produced for its date source.
pub open spec fn atom_item_model(e: AtomEntryV, epoch: i64) -> ItemV {
    ItemV {
        title: e.title,
        description: clean_of(unwrap_noscript(atom_desc_source(e))),
        content: clean_of(unwrap_noscript(atom_content_source(e))),
        published: epoch,
        published_raw: atom_date_source(e),
        link: atom_link_source(e),
    }
}

/// The canonical item an RSS item becomes, given the epoch seconds the date
/// normalizer produced for its date source.
pub open spec fn rss_item_model(it: RssItemV, epoch: i64) -> ItemV {
    ItemV {
        title: rss_title_source(it),
        description: clean_of(unwrap_noscript(rss_desc_source(it))),
        content: clean_of(unwrap_noscript(rss_content_source(it))),
        published: epoch,
        published_raw: rss_date_source(it),
        link: rss_link_source(it),
    }
}

/// How many items the parsed feed holds.
pub open spec fn item_count(f: RawFeedV) -> nat {
    match f {
        RawFeedV::Atom(a) => a.entries.len(),
        RawFeedV::Rss(r) => r.items.len(),
    }
}

/// The canonical document a parsed feed becomes, given the epoch seconds of
/// each item's date source, in item order.
pub open spec fn document_model(f: RawFeedV, epochs: Seq<i64>) -> DocumentV {
    match f {
        RawFeedV::Atom(a) => DocumentV {
            kind: FeedKind::Atom,
            title: a.title,
            icon: a.icon,
            logo: a.logo,
            links: a.links,
            items: Seq::new(a.entries.len(), |i: int| atom_item_model(a.entries[i], epochs[i])),
        },
        RawFeedV::Rss(r) => DocumentV {
            kind: FeedKind::Rss,
            title: r.title,
            icon: None,
            logo: None,
            links: seq![r.link],
            items: Seq::new(r.items.len(), |i: int| rss_item_model(r.items[i], epochs[i])),
        },
    }
}

/// The date-source string of an Atom entry, by the documented fallback.
pub fn atom_date_field(e: &RawAtomEntry) -> (r: String)
    ensures
        r@ == atom_date_source(e@),
{
    match &e.published {
        Some(p) => p.clone(),
        None => {
            if !e.updated.as_str().is_empty() {
                e.updated.clone()
            } else {
                "NO_DATE".to_owned()
            }
        },
    }
}

/// The date-source string of an RSS item, by the documented fallback.
pub fn rss_date_field(it: &RawRssItem) -> (r: String)
    ensures
        r@ == rss_date_source(it@),
{
    match &it.pub_date {
        Some(d) => d.clone(),
        None => String::new(),
    }
}

/// One Atom entry, normalized: fallback chains, sanitizer, and the given
/// epoch seconds for the date source.
pub fn build_atom_item(e: &RawAtomEntry, epoch: i64) -> (r: FeedItem)
    ensures
        r@ == atom_item_model(e@, epoch),
{
    let description = match &e.summary {
        Some(s) => process_markup(s.as_str()),
        None => {
            let empty = String::new();
            process_markup(empty.as_str())
        },
    };
    let content = match &e.content {
        Some(c) => process_markup(c.as_str()),
        None => {
            let empty = String::new();
            process_markup(empty.as_str())
        },
    };
    let link = if e.links.len() > 0 {
        e.links[0].clone()
    } else {
        String::new()
    };
    FeedItem {
        title: e.title.clone(),
        description,
        content,
        published: epoch,
        published_raw: atom_date_field(e),
        link,
    }
}

/// One RSS item, normalized: fallback chains, sanitizer, and the given
/// epoch seconds for the date source.
pub fn build_rss_item(it: &RawRssItem, epoch: i64) -> (r: FeedItem)
    ensures
        r@ == rss_item_model(it@, epoch),
{
    let title = match &it.title {
        Some(t) => t.clone(),
        None => String::new(),
    };
    let description = match &it.description {
        Some(d) => process_markup(d.as_str()),
        None => {
            let empty = String::new();
            process_markup(empty.as_str())
        },
    };
    let content = match &it.content {
        Some(c) => process_markup(c.as_str()),
        None => {
            let empty = String::new();
            process_markup(empty.as_str())
        },
    };
    let link = match &it.link {
        Some(l) => l.clone(),
        None => String::new(),
    };
    FeedItem {
        title,
        description,
        content,
        published: epoch,
        published_raw: rss_date_field(it),
        link,
    }
}

/// The epoch seconds of each item's date source, in item order, by the
/// best-effort date normalizer.
pub fn feed_dates(f: &RawFeed) -> (r: Vec<i64>)
    ensures
        r@.len() == item_count(f@),
{
    let mut epochs: Vec<i64> = Vec::new();
    match f {
        RawFeed::Atom(a) => {
            let mut i: usize = 0;
            while i < a.entries.len()
                invariant
                    i <= a.entries@.len(),
                    epochs@.len() == i,
                decreases a.entries@.len() - i,
            {
                let ds = atom_date_field(&a.entries[i]);
                epochs.push(parse_date(ds.as_str()));
                i += 1;
            }
        },
        RawFeed::Rss(r) => {
            let mut i: usize = 0;
            while i < r.items.len()
                invariant
                    i <= r.items@.len(),
                    epochs@.len() == i,
                decreases r.items@.len() - i,
            {
                let ds = rss_date_field(&r.items[i]);
                epochs.push(parse_date(ds.as_str()));
                i += 1;
            }
        },
    }
    epochs
}

/// A copy of an optional string, by value.
fn clone_opt_string(v: &Option<String>) -> (r: Option<String>)
    ensures
        r.deep_view() == v.deep_view(),
{
    match v {
        Some(s) => Some(s.clone()),
        None => None,
    }
}

/// A copy of a string vector, by value.
fn clone_strings(v: &Vec<String>) -> (r: Vec<String>)
    ensures
        r.deep_view() == v.deep_view(),
{
    let mut out: Vec<String> = Vec::new();
    let mut i: usize = 0;
    while i < v.len()
        invariant
            i <= v@.len(),
            out@.len() == i,
            forall|k: int| 0 <= k < i ==> out@[k]@ == v@[k]@,
        decreases v@.len() - i,
    {
        out.push(v[i].clone());
        i += 1;
    }
    assert(out.deep_view() =~= v.deep_view());
    out
}

/// The whole normalization of a parsed feed, given the epoch seconds of each
/// item's date source: items in document order, per-variant document fields.
pub fn build_document(f: &RawFeed, epochs: &Vec<i64>) -> (doc: FeedDocument)
    requires
        epochs@.len() == item_count(f@),
    ensures
        doc@ == document_model(f@, epochs@),
{
    match f {
        RawFeed::Atom(a) => {
            let mut items: Vec<FeedItem> = Vec::new();
            let mut i: usize = 0;
            while i < a.entries.len()
                invariant
                    i <= a.entries@.len(),
                    epochs@.len() == a.entries@.len(),
                    items@.len() == i,
                    forall|k: int| 0 <= k < i ==> items@[k]@ == atom_item_model(
                        a.entries@[k]@,
                        epochs@[k],
                    ),
                decreases a.entries@.len() - i,
            {
                let item = build_atom_item(&a.entries[i], epochs[i]);
                items.push(item);
                i += 1;
            }
            let doc = FeedDocument {
                kind: FeedKind::Atom,
                title: a.title.clone(),
                icon: clone_opt_string(&a.icon),
                logo: clone_opt_string(&a.logo),
                links: clone_strings(&a.links),
                items,
            };
            proof {
                assert(doc@.items =~= document_model(f@, epochs@).items);
            }
            doc
        },
        RawFeed::Rss(r) => {
            let mut items: Vec<FeedItem> = Vec::new();
            let mut i: usize = 0;
            while i < r.items.len()
                invariant
                    i <= r.items@.len(),
                    epochs@.len() == r.items@.len(),
                    items@.len() == i,
                    forall|k: int| 0 <= k < i ==> items@[k]@ == rss_item_model(
                        r.items@[k]@,
                        epochs@[k],
                    ),
                decreases r.items@.len() - i,
            {
                let item = build_rss_item(&r.items[i], epochs[i]);
                items.push(item);
                i += 1;
            }
            let mut links: Vec<String> = Vec::new();
            links.push(r.link.clone());
            let doc = FeedDocument {
                kind: FeedKind::Rss,
                title: r.title.clone(),
                icon: None,
                logo: None,
                links,
                items,
            };
            proof {
                assert(doc@.items =~= document_model(f@, epochs@).items);
                assert(doc@.links =~= document_model(f@, epochs@).links);
            }
            doc
        },
    }
}

/// Normalization end to end on a parsed feed: the result is the canonical
/// document for some outcome of the per-item date parses.
pub fn normalize_document(f: &RawFeed) -> (doc: FeedDocument)
    ensures
        exists|epochs: Seq<i64>|
            epochs.len() == item_count(f@) && doc@ == #[trigger] document_model(f@, epochs),
{
    let epochs = feed_dates(f);
    let doc = build_document(f, &epochs);
    proof {
        assert(doc@ == document_model(f@, epochs@));
    }
    doc
}

/// An RSS item without a link still gets the `link` field, holding the
/// empty string.
pub proof fn lemma_rss_missing_link(it: RssItemV, epoch: i64)
    requires
        it.link is None,
    ensures
        rss_item_model(it, epoch).link == Seq::<char>::empty(),
{
}

} // verus!
