//! The JSON serializer: the canonical document becomes one stable JSON
//! string, with a fixed key order and standard string escaping.

use vstd::prelude::*;
use crate::normalize::{DocumentV, FeedDocument, FeedItem, FeedKind, ItemV};
use crate::text::{chars_to_string, contains_sub, match_at, str_to_chars};

verus! {

/// Hexadecimal digit for a value below 16.
pub open spec fn hex_digit(n: int) -> char {
    if n == 0 { '0' } else if n == 1 { '1' } else if n == 2 { '2' } else if n == 3 { '3' }
    else if n == 4 { '4' } else if n == 5 { '5' } else if n == 6 { '6' } else if n == 7 { '7' }
    else if n == 8 { '8' } else if n == 9 { '9' } else if n == 10 { 'a' } else if n == 11 { 'b' }
    else if n == 12 { 'c' } else if n == 13 { 'd' } else if n == 14 { 'e' } else { 'f' }
}

/// What one character becomes inside a JSON string: quotes and backslashes
/// get a backslash, common control characters their short escapes, the rest
/// of the control range a `\u00..` escape, everything else stays itself.
pub open spec fn esc_char(c: char) -> Seq<char> {
    if c == '"' { seq!['\\', '"'] }
    else if c == '\\' { seq!['\\', '\\'] }
    else if c == '\n' { seq!['\\', 'n'] }
    else if c == '\r' { seq!['\\', 'r'] }
    else if c == '\t' { seq!['\\', 't'] }
    else if (c as u32) < 32 {
        seq!['\\', 'u', '0', '0', hex_digit(c as int / 16), hex_digit(c as int % 16)]
    } else {
        seq![c]
    }
}

/// The whole text, escaped character by character.
pub open spec fn json_escape(s: Seq<char>) -> Seq<char>
    decreases s.len(),
{
    if s.len() == 0 {
        Seq::empty()
    } else {
        esc_char(s[0]) + json_escape(s.drop_first())
    }
}

/// Escaping goes character by character: appending one character appends
/// its escape.
pub proof fn lemma_escape_push(s: Seq<char>, c: char)
    ensures
        json_escape(s.push(c)) == json_escape(s) + esc_char(c),
    decreases s.len(),
{
    if s.len() == 0 {
        assert(s.push(c)[0] == c);
        assert(s.push(c).drop_first() =~= Seq::<char>::empty());
        assert(json_escape(s.push(c)) == esc_char(c) + json_escape(Seq::<char>::empty()));
        assert(esc_char(c) + Seq::<char>::empty() =~= Seq::<char>::empty() + esc_char(c));
    } else {
        assert(s.push(c).drop_first() =~= s.drop_first().push(c));
        lemma_escape_push(s.drop_first(), c);
        assert(s.push(c)[0] == s[0]);
        assert(json_escape(s.push(c)) =~= json_escape(s) + esc_char(c));
    }
}

/// A JSON string literal: the escaped text between two quotes.
pub open spec fn quoted(s: Seq<char>) -> Seq<char> {
    "\""@ + json_escape(s) + "\""@
}

/// An optional JSON string: a literal, or `null`.
pub open spec fn opt_json(v: Option<Seq<char>>) -> Seq<char> {
    match v {
        Some(s) => quoted(s),
        None => "null"@,
    }
}

/// Decimal digit for a value below 10.
pub open spec fn dec_digit(n: int) -> char {
    if n == 0 { '0' } else if n == 1 { '1' } else if n == 2 { '2' } else if n == 3 { '3' }
    else if n == 4 { '4' } else if n == 5 { '5' } else if n == 6 { '6' } else if n == 7 { '7' }
    else if n == 8 { '8' } else { '9' }
}

/// The decimal digits of a natural number, most significant first.
pub open spec fn dec_nat(n: nat) -> Seq<char>
    decreases n,
{
    if n < 10 {
        seq![dec_digit(n as int)]
    } else {
        dec_nat(n / 10).push(dec_digit((n % 10) as int))
    }
}

/// The decimal form of an integer: a minus sign for negative values.
pub open spec fn dec_int(v: int) -> Seq<char> {
    if v < 0 {
        "-"@ + dec_nat((-v) as nat)
    } else {
        dec_nat(v as nat)
    }
}

/// A JSON array body of string literals, comma-separated, in order.
pub open spec fn links_json(ls: Seq<Seq<char>>) -> Seq<char>
    decreases ls.len(),
{
    if ls.len() == 0 {
        Seq::empty()
    } else if ls.len() == 1 {
        quoted(ls[0])
    } else {
        links_json(ls.drop_last()) + ","@ + quoted(ls.last())
    }
}

/// One canonical item as a JSON object: always the same six keys, in this
/// order, whatever the source fields were.
pub open spec fn json_of_item(it: ItemV) -> Seq<char> {
    "{\"title\":"@ + quoted(it.title) + ",\"description\":"@ + quoted(it.description)
        + ",\"content\":"@ + quoted(it.content) + ",\"published\":"@ + dec_int(it.published as int)
        + ",\"publishedRaw\":"@ + quoted(it.published_raw) + ",\"link\":"@ + quoted(it.link) + "}"@
}

/// A JSON array body of item objects, comma-separated, in order.
pub open spec fn items_json(items: Seq<ItemV>) -> Seq<char>
    decreases items.len(),
{
    if items.len() == 0 {
        Seq::empty()
    } else if items.len() == 1 {
        json_of_item(items[0])
    } else {
        items_json(items.drop_last()) + ","@ + json_of_item(items.last())
    }
}

/// The variant tag's value.
pub open spec fn kind_str(k: FeedKind) -> Seq<char> {
    match k {
        FeedKind::Atom => "atom"@,
        FeedKind::Rss => "rss"@,
    }
}

/// The whole canonical document as one JSON object: type and title always;
/// icon and logo only for Atom; then the link array and the item array.
pub open spec fn json_of_document(d: DocumentV) -> Seq<char> {
    "{\"type\":\""@ + kind_str(d.kind) + "\",\"title\":"@ + quoted(d.title) + (match d.kind {
        FeedKind::Atom => ",\"icon\":"@ + opt_json(d.icon) + ",\"logo\":"@ + opt_json(d.logo),
        FeedKind::Rss => Seq::<char>::empty(),
    }) + ",\"links\":["@ + links_json(d.links) + "],\"items\":["@ + items_json(d.items) + "]}"@
}

/// Hexadecimal digit of a value below 16.
fn hex_digit_char(n: u32) -> (r: char)
    requires
        n < 16,
    ensures
        r == hex_digit(n as int),
{
    if n == 0 { '0' } else if n == 1 { '1' } else if n == 2 { '2' } else if n == 3 { '3' }
    else if n == 4 { '4' } else if n == 5 { '5' } else if n == 6 { '6' } else if n == 7 { '7' }
    else if n == 8 { '8' } else if n == 9 { '9' } else if n == 10 { 'a' } else if n == 11 { 'b' }
    else if n == 12 { 'c' } else if n == 13 { 'd' } else if n == 14 { 'e' } else { 'f' }
}

/// Decimal digit of a value below 10.
fn dec_digit_char(n: u64) -> (r: char)
    requires
        n < 10,
    ensures
        r == dec_digit(n as int),
{
    if n == 0 { '0' } else if n == 1 { '1' } else if n == 2 { '2' } else if n == 3 { '3' }
    else if n == 4 { '4' } else if n == 5 { '5' } else if n == 6 { '6' } else if n == 7 { '7' }
    else if n == 8 { '8' } else { '9' }
}

/// Appends the escape of one character.
fn escape_char_into(out: &mut Vec<char>, c: char)
    ensures
        final(out)@ == old(out)@ + esc_char(c),
{
    if c == '"' {
        out.push('\\');
        out.push('"');
    } else if c == '\\' {
        out.push('\\');
        out.push('\\');
    } else if c == '\n' {
        out.push('\\');
        out.push('n');
    } else if c == '\r' {
        out.push('\\');
        out.push('r');
    } else if c == '\t' {
        out.push('\\');
        out.push('t');
    } else if (c as u32) < 32 {
        let n = c as u32;
        out.push('\\');
        out.push('u');
        out.push('0');
        out.push('0');
        out.push(hex_digit_char(n / 16));
        out.push(hex_digit_char(n % 16));
    } else {
        out.push(c);
    }
    assert(out@ =~= old(out)@ + esc_char(c));
}

/// Escapes a whole character sequence.
fn escape_chars(s: &Vec<char>) -> (out: Vec<char>)
    ensures
        out@ == json_escape(s@),
{
    let mut out: Vec<char> = Vec::new();
    let mut i: usize = 0;
    while i < s.len()
        invariant
            i <= s@.len(),
            out@ == json_escape(s@.subrange(0, i as int)),
        decreases s@.len() - i,
    {
        escape_char_into(&mut out, s[i]);
        proof {
            lemma_escape_push(s@.subrange(0, i as int), s@[i as int]);
            assert(s@.subrange(0, i + 1) =~= s@.subrange(0, i as int).push(s@[i as int]));
        }
        i += 1;
    }
    assert(s@.subrange(0, s@.len() as int) =~= s@);
    out
}

/// Appends a JSON string literal holding `s`.
fn append_quoted(out: &mut String, s: &str)
    ensures
        final(out)@ == old(out)@ + quoted(s@),
{
    out.append("\"");
    let chars = str_to_chars(s);
    let esc = escape_chars(&chars);
    let esc_str = chars_to_string(&esc);
    out.append(esc_str.as_str());
    out.append("\"");
    assert(out@ =~= old(out)@ + quoted(s@));
}

/// Appends an optional JSON string literal, or `null`.
fn append_opt(out: &mut String, v: &Option<String>)
    ensures
        final(out)@ == old(out)@ + opt_json(v.deep_view()),
{
    match v {
        Some(s) => append_quoted(out, s.as_str()),
        None => out.append("null"),
    }
}

/// Appends the decimal digits of `n`.
fn push_dec_u64(out: &mut Vec<char>, n: u64)
    ensures
        final(out)@ == old(out)@ + dec_nat(n as nat),
    decreases n,
{
    if n < 10 {
        out.push(dec_digit_char(n));
        assert(out@ =~= old(out)@ + dec_nat(n as nat));
    } else {
        push_dec_u64(out, n / 10);
        out.push(dec_digit_char(n % 10));
        assert(out@ =~= old(out)@ + dec_nat(n as nat));
    }
}

/// The decimal form of a signed 64-bit value.
fn int_dec_chars(v: i64) -> (out: Vec<char>)
    ensures
        out@ == dec_int(v as int),
{
    let mut out: Vec<char> = Vec::new();
    if v >= 0 {
        push_dec_u64(&mut out, v as u64);
        assert(out@ =~= dec_int(v as int));
    } else {
        out.push('-');
        assert(out@ =~= "-"@) by {
            reveal_strlit("-");
        }
        let m: u64 = ((-(v + 1)) as u64) + 1;
        assert(m as nat == (-(v as int)) as nat);
        push_dec_u64(&mut out, m);
        assert(out@ =~= dec_int(v as int));
    }
    out
}

/// Appends one item object.
fn append_item(out: &mut String, it: &FeedItem)
    ensures
        final(out)@ == old(out)@ + json_of_item(it@),
{
    out.append("{\"title\":");
    append_quoted(out, it.title.as_str());
    out.append(",\"description\":");
    append_quoted(out, it.description.as_str());
    out.append(",\"content\":");
    append_quoted(out, it.content.as_str());
    out.append(",\"published\":");
    let digits = int_dec_chars(it.published);
    let digit_str = chars_to_string(&digits);
    out.append(digit_str.as_str());
    out.append(",\"publishedRaw\":");
    append_quoted(out, it.published_raw.as_str());
    out.append(",\"link\":");
    append_quoted(out, it.link.as_str());
    out.append("}");
    assert(out@ =~= old(out)@ + json_of_item(it@));
}

/// Appends the body of the link array.
fn append_links(out: &mut String, links: &Vec<String>)
    ensures
        final(out)@ == old(out)@ + links_json(links.deep_view()),
{
    let mut i: usize = 0;
    while i < links.len()
        invariant
            i <= links@.len(),
            out@ == old(out)@ + links_json(links.deep_view().subrange(0, i as int)),
        decreases links@.len() - i,
    {
        if i > 0 {
            out.append(",");
        }
        append_quoted(out, links[i].as_str());
        proof {
            let dv = links.deep_view();
            assert(dv[i as int] == links@[i as int]@);
            assert(dv.subrange(0, i + 1).drop_last() =~= dv.subrange(0, i as int));
            assert(dv.subrange(0, i + 1).last() == dv[i as int]);
            assert(out@ =~= old(out)@ + links_json(dv.subrange(0, i + 1)));
        }
        i += 1;
    }
    proof {
        assert(links.deep_view().subrange(0, links@.len() as int) =~= links.deep_view());
    }
}

/// Appends the body of the item array.
fn append_items(out: &mut String, items: &Vec<FeedItem>)
    ensures
        final(out)@ == old(out)@ + items_json(items@.map_values(|it: FeedItem| it@)),
{
    let ghost model = items@.map_values(|it: FeedItem| it@);
    let mut i: usize = 0;
    while i < items.len()
        invariant
            i <= items@.len(),
            model == items@.map_values(|it: FeedItem| it@),
            model.len() == items@.len(),
            out@ == old(out)@ + items_json(model.subrange(0, i as int)),
        decreases items@.len() - i,
    {
        if i > 0 {
            out.append(",");
        }
        append_item(out, &items[i]);
        proof {
            assert(model[i as int] == items@[i as int]@);
            assert(model.subrange(0, i + 1).drop_last() =~= model.subrange(0, i as int));
            assert(model.subrange(0, i + 1).last() == model[i as int]);
            assert(out@ =~= old(out)@ + items_json(model.subrange(0, i + 1)));
        }
        i += 1;
    }
    proof {
        assert(model.subrange(0, model.len() as int) =~= model);
    }
}

/// The canonical document, rendered as its one JSON string.
#[verifier::rlimit(60)]
pub fn render_document(d: &FeedDocument) -> (r: String)
    ensures
        r@ == json_of_document(d@),
{
    let mut out = String::new();
    out.append("{\"type\":\"");
    match d.kind {
        FeedKind::Atom => out.append("atom"),
        FeedKind::Rss => out.append("rss"),
    }
    out.append("\",\"title\":");
    append_quoted(&mut out, d.title.as_str());
    match d.kind {
        FeedKind::Atom => {
            out.append(",\"icon\":");
            append_opt(&mut out, &d.icon);
            out.append(",\"logo\":");
            append_opt(&mut out, &d.logo);
        },
        FeedKind::Rss => (),
    }
    out.append(",\"links\":[");
    append_links(&mut out, &d.links);
    out.append("],\"items\":[");
    append_items(&mut out, &d.items);
    out.append("]}");
    assert(out@ =~= json_of_document(d@));
    out
}

/// Every text occurs in itself.
pub proof fn lemma_contains_self(s: Seq<char>)
    ensures
        contains_sub(s, s),
{
    assert(s.subrange(0, s.len() as int) =~= s);
    assert(match_at(s, s, 0));
}

/// An occurrence in the left part survives concatenation.
pub proof fn lemma_contains_left(a: Seq<char>, b: Seq<char>, p: Seq<char>)
    requires
        contains_sub(a, p),
    ensures
        contains_sub(a + b, p),
{
    let i = choose|i: int| match_at(a, p, i);
    assert((a + b).subrange(i, i + p.len() as int) =~= a.subrange(i, i + p.len() as int));
    assert(match_at(a + b, p, i));
}

/// An occurrence in the right part survives concatenation.
pub proof fn lemma_contains_right(a: Seq<char>, b: Seq<char>, p: Seq<char>)
    requires
        contains_sub(b, p),
    ensures
        contains_sub(a + b, p),
{
    let i = choose|i: int| match_at(b, p, i);
    assert((a + b).subrange(a.len() + i, a.len() + i + p.len() as int) =~= b.subrange(
        i,
        i + p.len() as int,
    ));
    assert(match_at(a + b, p, a.len() + i));
}

/// Occurrence is transitive: what occurs in an occurring part occurs in
/// the whole.
pub proof fn lemma_contains_trans(a: Seq<char>, b: Seq<char>, p: Seq<char>)
    requires
        contains_sub(a, b),
        contains_sub(b, p),
    ensures
        contains_sub(a, p),
{
    let i = choose|i: int| match_at(a, b, i);
    let j = choose|j: int| match_at(b, p, j);
    assert forall|k: int| 0 <= k < p.len() implies a.subrange(
        i + j,
        i + j + p.len() as int,
    )[k] == p[k] by {
        assert(a.subrange(i, i + b.len() as int)[j + k] == b[j + k]);
        assert(b.subrange(j, j + p.len() as int)[k] == p[k]);
    }
    assert(a.subrange(i + j, i + j + p.len() as int) =~= p);
    assert(match_at(a, p, i + j));
}

/// Every item object holds all six keys, whatever the source fields were.
pub proof fn lemma_item_has_keys(it: ItemV)
    ensures
        contains_sub(json_of_item(it), "\"title\""@),
        contains_sub(json_of_item(it), "\"description\""@),
        contains_sub(json_of_item(it), "\"content\""@),
        contains_sub(json_of_item(it), "\"published\""@),
        contains_sub(json_of_item(it), "\"publishedRaw\""@),
        contains_sub(json_of_item(it), "\"link\""@),
{
    let t1 = "{\"title\":"@;
    let t3 = ",\"description\":"@;
    let t5 = ",\"content\":"@;
    let t7 = ",\"published\":"@;
    let t9 = ",\"publishedRaw\":"@;
    let t11 = ",\"link\":"@;
    let s2 = t1 + quoted(it.title);
    let s3 = s2 + t3;
    let s4 = s3 + quoted(it.description);
    let s5 = s4 + t5;
    let s6 = s5 + quoted(it.content);
    let s7 = s6 + t7;
    let s8 = s7 + dec_int(it.published as int);
    let s9 = s8 + t9;
    let s10 = s9 + quoted(it.published_raw);
    let s11 = s10 + t11;
    let s12 = s11 + quoted(it.link);
    assert(json_of_item(it) == s12 + "}"@);
    reveal_strlit("{\"title\":");
    reveal_strlit(",\"description\":");
    reveal_strlit(",\"content\":");
    reveal_strlit(",\"published\":");
    reveal_strlit(",\"publishedRaw\":");
    reveal_strlit(",\"link\":");
    reveal_strlit("\"title\"");
    reveal_strlit("\"description\"");
    reveal_strlit("\"content\"");
    reveal_strlit("\"published\"");
    reveal_strlit("\"publishedRaw\"");
    reveal_strlit("\"link\"");
    assert(t1.subrange(1, 8) =~= "\"title\""@);
    assert(match_at(t1, "\"title\""@, 1));
    assert(t3.subrange(1, 14) =~= "\"description\""@);
    assert(match_at(t3, "\"description\""@, 1));
    assert(t5.subrange(1, 10) =~= "\"content\""@);
    assert(match_at(t5, "\"content\""@, 1));
    assert(t7.subrange(1, 12) =~= "\"published\""@);
    assert(match_at(t7, "\"published\""@, 1));
    assert(t9.subrange(1, 15) =~= "\"publishedRaw\""@);
    assert(match_at(t9, "\"publishedRaw\""@, 1));
    assert(t11.subrange(1, 7) =~= "\"link\""@);
    assert(match_at(t11, "\"link\""@, 1));
    let k1 = "\"title\""@;
    lemma_contains_left(t1, quoted(it.title), k1);
    lemma_contains_left(s2, t3, k1);
    lemma_contains_left(s3, quoted(it.description), k1);
    lemma_contains_left(s4, t5, k1);
    lemma_contains_left(s5, quoted(it.content), k1);
    lemma_contains_left(s6, t7, k1);
    lemma_contains_left(s7, dec_int(it.published as int), k1);
    lemma_contains_left(s8, t9, k1);
    lemma_contains_left(s9, quoted(it.published_raw), k1);
    lemma_contains_left(s10, t11, k1);
    lemma_contains_left(s11, quoted(it.link), k1);
    lemma_contains_left(s12, "}"@, k1);
    let k2 = "\"description\""@;
    lemma_contains_right(s2, t3, k2);
    lemma_contains_left(s3, quoted(it.description), k2);
    lemma_contains_left(s4, t5, k2);
    lemma_contains_left(s5, quoted(it.content), k2);
    lemma_contains_left(s6, t7, k2);
    lemma_contains_left(s7, dec_int(it.published as int), k2);
    lemma_contains_left(s8, t9, k2);
    lemma_contains_left(s9, quoted(it.published_raw), k2);
    lemma_contains_left(s10, t11, k2);
    lemma_contains_left(s11, quoted(it.link), k2);
    lemma_contains_left(s12, "}"@, k2);
    let k3 = "\"content\""@;
    lemma_contains_right(s4, t5, k3);
    lemma_contains_left(s5, quoted(it.content), k3);
    lemma_contains_left(s6, t7, k3);
    lemma_contains_left(s7, dec_int(it.published as int), k3);
    lemma_contains_left(s8, t9, k3);
    lemma_contains_left(s9, quoted(it.published_raw), k3);
    lemma_contains_left(s10, t11, k3);
    lemma_contains_left(s11, quoted(it.link), k3);
    lemma_contains_left(s12, "}"@, k3);
    let k4 = "\"published\""@;
    lemma_contains_right(s6, t7, k4);
    lemma_contains_left(s7, dec_int(it.published as int), k4);
    lemma_contains_left(s8, t9, k4);
    lemma_contains_left(s9, quoted(it.published_raw), k4);
    lemma_contains_left(s10, t11, k4);
    lemma_contains_left(s11, quoted(it.link), k4);
    lemma_contains_left(s12, "}"@, k4);
    let k5 = "\"publishedRaw\""@;
    lemma_contains_right(s8, t9, k5);
    lemma_contains_left(s9, quoted(it.published_raw), k5);
    lemma_contains_left(s10, t11, k5);
    lemma_contains_left(s11, quoted(it.link), k5);
    lemma_contains_left(s12, "}"@, k5);
    let k6 = "\"link\""@;
    lemma_contains_right(s10, t11, k6);
    lemma_contains_left(s11, quoted(it.link), k6);
    lemma_contains_left(s12, "}"@, k6);
}

/// The item array holds each item's object.
pub proof fn lemma_items_json_contains(items: Seq<ItemV>, i: int)
    requires
        0 <= i < items.len(),
    ensures
        contains_sub(items_json(items), json_of_item(items[i])),
    decreases items.len(),
{
    if items.len() == 1 {
        lemma_contains_self(json_of_item(items[0]));
    } else if i == items.len() - 1 {
        lemma_contains_self(json_of_item(items.last()));
        lemma_contains_right(
            items_json(items.drop_last()) + ","@,
            json_of_item(items.last()),
            json_of_item(items.last()),
        );
    } else {
        lemma_items_json_contains(items.drop_last(), i);
        assert(items.drop_last()[i] == items[i]);
        let p = json_of_item(items[i]);
        lemma_contains_left(items_json(items.drop_last()), ","@, p);
        lemma_contains_left(
            items_json(items.drop_last()) + ","@,
            json_of_item(items.last()),
            p,
        );
    }
}

/// The rendered document holds each of its items' objects.
pub proof fn lemma_document_contains_item(d: DocumentV, i: int)
    requires
        0 <= i < d.items.len(),
    ensures
        contains_sub(json_of_document(d), json_of_item(d.items[i])),
{
    let p = json_of_item(d.items[i]);
    let head = "{\"type\":\""@ + kind_str(d.kind) + "\",\"title\":"@ + quoted(d.title) + (match d
        .kind {
        FeedKind::Atom => ",\"icon\":"@ + opt_json(d.icon) + ",\"logo\":"@ + opt_json(d.logo),
        FeedKind::Rss => Seq::<char>::empty(),
    }) + ",\"links\":["@ + links_json(d.links) + "],\"items\":["@;
    assert(json_of_document(d) == (head + items_json(d.items)) + "]}"@);
    lemma_items_json_contains(d.items, i);
    lemma_contains_right(head, items_json(d.items), p);
    lemma_contains_left(head + items_json(d.items), "]}"@, p);
}

/// Every item object of every rendered document holds all six keys,
/// whichever optional source fields existed.
pub proof fn lemma_document_items_have_keys(d: DocumentV, i: int)
    requires
        0 <= i < d.items.len(),
    ensures
        contains_sub(json_of_document(d), "\"title\""@),
        contains_sub(json_of_document(d), "\"description\""@),
        contains_sub(json_of_document(d), "\"content\""@),
        contains_sub(json_of_document(d), "\"published\""@),
        contains_sub(json_of_document(d), "\"publishedRaw\""@),
        contains_sub(json_of_document(d), "\"link\""@),
{
    lemma_document_contains_item(d, i);
    lemma_item_has_keys(d.items[i]);
    let obj = json_of_item(d.items[i]);
    lemma_contains_trans(json_of_document(d), obj, "\"title\""@);
    lemma_contains_trans(json_of_document(d), obj, "\"description\""@);
    lemma_contains_trans(json_of_document(d), obj, "\"content\""@);
    lemma_contains_trans(json_of_document(d), obj, "\"published\""@);
    lemma_contains_trans(json_of_document(d), obj, "\"publishedRaw\""@);
    lemma_contains_trans(json_of_document(d), obj, "\"link\""@);
}

} // verus!
