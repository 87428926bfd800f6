//! Markup sanitization: a noscript-unwrap stage followed by allow-list
//! cleaning. Both stages always run; neither ever fails.

use vstd::prelude::*;
use crate::text::{
    contains_sub, find_from, lemma_find_from_some, str_to_chars, chars_to_string, find_first,
    contains_pattern,
};

verus! {

/// The marker whose presence anywhere in the text triggers the unwrap stage.
pub open spec fn noscript_marker() -> Seq<char> {
    "noscript"@
}

/// The noscript open tag.
pub open spec fn noscript_open() -> Seq<char> {
    "<noscript>"@
}

/// The noscript close tag.
pub open spec fn noscript_close() -> Seq<char> {
    "</noscript>"@
}

/// The tag-stripping scan: when the text holds a well-formed pair — the first
/// `<noscript>` open tag, and the first `</noscript>` close tag after it —
/// only the span between the two tags is kept. Otherwise the text passes
/// through unchanged.
pub open spec fn strip_noscript_tags(s: Seq<char>) -> Seq<char> {
    match find_from(s, noscript_open(), 0) {
        Some(i) => match find_from(s, noscript_close(), i + noscript_open().len()) {
            Some(j) => s.subrange(i + noscript_open().len(), j),
            None => s,
        },
        None => s,
    }
}

/// The whole unwrap stage: the stripping scan runs only when the marker
/// occurs somewhere in the text.
pub open spec fn unwrap_noscript(s: Seq<char>) -> Seq<char> {
    if contains_sub(s, noscript_marker()) {
        strip_noscript_tags(s)
    } else {
        s
    }
}

/// What `ammonia::clean` returns for a given text: safe-to-render HTML,
/// a function of the input alone.
pub uninterp spec fn clean_of(s: Seq<char>) -> Seq<char>;

/// Relies on `ammonia::clean`: strips scripts, styles, event-handler
/// attributes and non-allow-listed tags with a fixed conservative policy;
/// deterministic in the input text.
#[verifier::external_body]
fn clean_markup(src: &str) -> (r: String)
    ensures
        r@ == clean_of(src@),
{
    ammonia::clean(src)
}

/// Whether the text holds the noscript marker anywhere.
pub fn has_noscript_tag(markup: &str) -> (r: bool)
    ensures
        r == contains_sub(markup@, noscript_marker()),
{
    let chars = str_to_chars(markup);
    let pat = str_to_chars("noscript");
    contains_pattern(&chars, &pat)
}

/// The tag-stripping scan on its own: everything before the end of the first
/// `<noscript>` open tag and everything from the first `</noscript>` close
/// tag after it are dropped; without such a pair the text is unchanged.
pub fn clean_before_after_noscript_tag(s: &str) -> (r: String)
    ensures
        r@ == strip_noscript_tags(s@),
{
    let chars = str_to_chars(s);
    let open_tag = str_to_chars("<noscript>");
    let close_tag = str_to_chars("</noscript>");
    match find_first(&chars, &open_tag, 0) {
        None => s.to_owned(),
        Some(i) => {
            proof {
                lemma_find_from_some(chars@, open_tag@, 0, i as int);
                assert(chars.len() == chars@.len());
                assert(i + open_tag@.len() <= chars@.len());
            }
            let start = i + open_tag.len();
            match find_first(&chars, &close_tag, start) {
                None => s.to_owned(),
                Some(j) => {
                    proof {
                        lemma_find_from_some(chars@, close_tag@, start as int, j as int);
                    }
                    let mut inner: Vec<char> = Vec::new();
                    let mut k: usize = start;
                    while k < j
                        invariant
                            start <= k <= j,
                            j <= chars@.len(),
                            inner@ == chars@.subrange(start as int, k as int),
                        decreases j - k,
                    {
                        inner.push(chars[k]);
                        assert(inner@ =~= chars@.subrange(start as int, k + 1));
                        k += 1;
                    }
                    chars_to_string(&inner)
                },
            }
        },
    }
}

/// The full sanitizer, two mandatory stages: noscript unwrap when the
/// marker is present, then allow-list cleaning. It never fails; malformed
/// input degrades to stripped output.
pub fn process_markup(src: &str) -> (r: String)
    ensures
        r@ == clean_of(unwrap_noscript(src@)),
{
    if has_noscript_tag(src) {
        let content = clean_before_after_noscript_tag(src);
        clean_markup(content.as_str())
    } else {
        clean_markup(src)
    }
}

} // verus!
