//! A feed-normalization library: it parses RSS/Atom text into canonical
//! items, sanitizes embedded markup, normalizes timestamps, and emits one
//! stable JSON document.

pub mod dates;
pub mod feed;
pub mod json;
pub mod normalize;
pub mod sanitize;
pub mod text;

use vstd::prelude::*;

verus! {

use crate::feed::{feed_model_of, parse_feed, is_feed_text, FeedError, RawFeedV};
use crate::json::{json_of_document, render_document};
use crate::normalize::{document_model, item_count, normalize_document};

/// The whole fetch-free call on pre-fetched raw feed text: parse into the
/// tagged variant, normalize every item in document order, and render the
/// canonical JSON document. Fails — always with the parse error, never with
/// a partial document — exactly on text that matches neither the Atom nor
/// the RSS grammar; item-level absence never fails. On success the output
/// is the canonical JSON of that text's parse, for some outcome of the
/// per-item date parses.
pub fn normalize_feed(text: &str) -> (r: Result<String, FeedError>)
    ensures
        r is Ok <==> is_feed_text(text@),
        r matches Err(e) ==> e == FeedError::FeedParse,
        r matches Ok(s) ==> exists|f: RawFeedV, epochs: Seq<i64>|
            feed_model_of(text@) == Some(f) && epochs.len() == item_count(f) && s@
                == #[trigger] json_of_document(document_model(f, epochs)),
{
    match parse_feed(text) {
        Err(e) => Err(e),
        Ok(raw) => {
            let doc = normalize_document(&raw);
            let json = render_document(&doc);
            proof {
                let epochs = choose|epochs: Seq<i64>|
                    epochs.len() == item_count(raw@) && doc@ == #[trigger] document_model(
                        raw@,
                        epochs,
                    );
                assert(json@ == json_of_document(document_model(raw@, epochs)));
            }
            Ok(json)
        },
    }
}

/// Normalizing identical raw text twice yields byte-identical JSON whenever
/// the two calls' per-item date parses agree: any two outputs that meet the
/// success contract of `normalize_feed` for one text and equal date
/// outcomes are equal, so all nondeterminism is confined to those
/// outcomes. The date normalizer consults the clock only for date strings
/// missing a date or a time component; with complete timestamps the output
/// is fully determined by the text.
pub proof fn lemma_idempotent_modulo_dates(
    text: Seq<char>,
    f1: RawFeedV,
    f2: RawFeedV,
    epochs1: Seq<i64>,
    epochs2: Seq<i64>,
    out1: Seq<char>,
    out2: Seq<char>,
)
    requires
        feed_model_of(text) == Some(f1),
        feed_model_of(text) == Some(f2),
        epochs1 == epochs2,
        out1 == json_of_document(document_model(f1, epochs1)),
        out2 == json_of_document(document_model(f2, epochs2)),
    ensures
        out1 == out2,
{
}

} // verus!
