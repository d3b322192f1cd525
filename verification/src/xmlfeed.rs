//! Tolerant extraction over Atom/XML feed text. The management API mixes
//! attribute- and element-style encodings and foreign namespace prefixes,
//! so rather than a structural XML mapping this module matches known
//! literal tag spans: the `next` link, each `<entry>` with its `<title>`
//! and `<content>`, and scalar property tags inside an entry's content.

use vstd::prelude::*;
use crate::strutil::{
    check_match_at, find_from, find_from_spec, is_space, is_space_char, lemma_find_match,
    match_at, replace_all, replace_all_spec, substring,
};

verus! {

// ---------------------------------------------------------------------------
// Next-link extraction
// ---------------------------------------------------------------------------

/// First index at or after `i` whose character is not ASCII whitespace.
pub open spec fn ws_end(s: Seq<char>, i: int) -> int
    decreases s.len() - i,
{
    if 0 <= i < s.len() && is_space(s[i]) {
        ws_end(s, i + 1)
    } else {
        i
    }
}

proof fn lemma_ws_end(s: Seq<char>, i: int, j: int)
    requires
        0 <= i <= j <= s.len(),
        forall|k: int| i <= k < j ==> is_space(s[k]),
        j == s.len() || !is_space(s[j]),
    ensures
        ws_end(s, i) == j,
    decreases j - i,
{
    if i < j {
        lemma_ws_end(s, i + 1, j);
    }
}

fn skip_whitespace(s: &str, i: usize) -> (r: usize)
    requires
        i <= s@.len(),
    ensures
        r == ws_end(s@, i as int),
        i <= r <= s@.len(),
{
    let slen = s.unicode_len();
    let mut j = i;
    while j < slen && is_space_char(s.get_char(j))
        invariant
            i <= j <= slen,
            slen == s@.len(),
            forall|k: int| i <= k < j ==> is_space(s@[k]),
        decreases slen - j,
    {
        j = j + 1;
    }
    proof {
        lemma_ws_end(s@, i as int, j as int);
    }
    j
}

/// Where the link's `href` value begins, if the `<link` at `i` carries
/// `rel="next"` and then `href="`, each separated by at least one run of
/// whitespace (the feed writer varies the spacing).
pub open spec fn link_href_start(s: Seq<char>, i: int) -> Option<int> {
    let j = ws_end(s, i + "<link"@.len());
    if j == i + "<link"@.len() {
        None
    } else if !match_at(s, "rel=\"next\""@, j) {
        None
    } else {
        let k = ws_end(s, j + "rel=\"next\""@.len());
        if k == j + "rel=\"next\""@.len() {
            None
        } else if !match_at(s, "href=\""@, k) {
            None
        } else {
            Some(k + "href=\""@.len())
        }
    }
}

/// Start of the first `next` link's `href` value at or after `from`:
/// each `<link` occurrence is tried in turn until one carries the
/// `rel="next" href="` attributes.
pub open spec fn next_link_start(s: Seq<char>, from: int) -> Option<int>
    decreases s.len() - from + 1,
    via next_link_start_decreases
{
    match find_from_spec(s, "<link"@, from) {
        None => None,
        Some(i) => match link_href_start(s, i) {
            Some(v) => Some(v),
            None => next_link_start(s, i + 1),
        },
    }
}

#[via_fn]
proof fn next_link_start_decreases(s: Seq<char>, from: int) {
    match find_from_spec(s, "<link"@, from) {
        Some(i) => {
            if from >= 0 {
                lemma_find_match(s, "<link"@, from, i);
            }
        }
        None => {}
    }
}

/// The raw `href` of the feed's `next` link: the text between the
/// `href="` of the first whitespace-tolerant `<link rel="next" href="`
/// span and the closing quote.
pub open spec fn next_link_raw(xml: Seq<char>) -> Option<Seq<char>> {
    match next_link_start(xml, 0) {
        Some(start) => match find_from_spec(xml, "\""@, start) {
            Some(j) => Some(xml.subrange(start, j)),
            None => None,
        },
        None => None,
    }
}

fn link_href_at(s: &str, i: usize) -> (r: Option<usize>)
    requires
        match_at(s@, "<link"@, i as int),
    ensures
        r matches Some(v) ==> link_href_start(s@, i as int) == Some(v as int),
        r is None ==> link_href_start(s@, i as int) is None,
{
    proof {
        reveal_strlit("<link");
        reveal_strlit("rel=\"next\"");
        reveal_strlit("href=\"");
    }
    let _slen = s.unicode_len();
    let j = skip_whitespace(s, i + 5);
    if j == i + 5 {
        return None;
    }
    if !check_match_at(s, "rel=\"next\"", j) {
        return None;
    }
    let k = skip_whitespace(s, j + 10);
    if k == j + 10 {
        return None;
    }
    if !check_match_at(s, "href=\"", k) {
        return None;
    }
    Some(k + 6)
}

/// The `next` link with XML entity escaping of `&` undone.
pub open spec fn next_link_of(xml: Seq<char>) -> Option<Seq<char>> {
    match next_link_raw(xml) {
        Some(raw) => Some(replace_all_spec(raw, "&amp;"@, "&"@)),
        None => None,
    }
}

/// An optional owned string viewed as an optional text value.
pub open spec fn opt_str_is(o: Option<String>, v: Option<Seq<char>>) -> bool {
    match o {
        Some(a) => v matches Some(b) && a@ == b,
        None => v is None,
    }
}

/// Pull the feed's `next` link out of the raw XML, decoding `&amp;`.
#[verifier::loop_isolation(false)]
pub fn extract_next_link(xml: &str) -> (r: Option<String>)
    ensures
        opt_str_is(r, next_link_of(xml@)),
{
    proof {
        reveal_strlit("&amp;");
        reveal_strlit("<link");
    }
    let slen = xml.unicode_len();
    let mut pos: usize = 0;
    loop
        invariant
            pos <= slen + 1,
            next_link_start(xml@, 0) == next_link_start(xml@, pos as int),
        decreases slen + 1 - pos,
    {
        match find_from(xml, "<link", pos) {
            None => {
                return None;
            }
            Some(i) => {
                proof {
                    lemma_find_match(xml@, "<link"@, pos as int, i as int);
                }
                match link_href_at(xml, i) {
                    Some(start) => {
                        match find_from(xml, "\"", start) {
                            None => {
                                return None;
                            }
                            Some(j) => {
                                proof {
                                    lemma_find_match(xml@, "\""@, start as int, j as int);
                                }
                                let raw = substring(xml, start, j);
                                return Some(replace_all(raw.as_str(), "&amp;", "&"));
                            }
                        }
                    }
                    None => {
                        pos = i + 1;
                    }
                }
            }
        }
    }
}

// ---------------------------------------------------------------------------
// Tag spans
// ---------------------------------------------------------------------------

/// The text between the first `<name ...>` (or `<name>`) opening tag and
/// the literal `</name>` closing tag after it.
pub open spec fn tag_inner_text(s: Seq<char>, name: Seq<char>) -> Option<Seq<char>> {
    match find_from_spec(s, "<"@ + name, 0) {
        Some(i) => match find_from_spec(s, ">"@, i) {
            Some(j) => match find_from_spec(s, "</"@ + name + ">"@, j + 1) {
                Some(k) => Some(s.subrange(j + 1, k)),
                None => None,
            },
            None => None,
        },
        None => None,
    }
}

/// Extract the inner text of the first `name` element.
pub fn extract_tag_inner(s: &str, name: &str) -> (r: Option<String>)
    ensures
        opt_str_is(r, tag_inner_text(s@, name@)),
{
    proof {
        reveal_strlit(">");
    }
    let _slen = s.unicode_len();
    let mut open_pat = String::from_str("<");
    open_pat.append(name);
    proof {
        assert(open_pat@ =~= "<"@ + name@);
    }
    match find_from(s, open_pat.as_str(), 0) {
        None => None,
        Some(i) => {
            proof {
                lemma_find_match(s@, open_pat@, 0, i as int);
            }
            match find_from(s, ">", i) {
                None => None,
                Some(j) => {
                    proof {
                        lemma_find_match(s@, ">"@, i as int, j as int);
                    }
                    let mut close_pat = String::from_str("</");
                    close_pat.append(name);
                    close_pat.append(">");
                    proof {
                        assert(close_pat@ =~= "</"@ + name@ + ">"@);
                    }
                    match find_from(s, close_pat.as_str(), j + 1) {
                        None => None,
                        Some(k) => {
                            proof {
                                lemma_find_match(s@, close_pat@, j + 1, k as int);
                            }
                            Some(substring(s, j + 1, k))
                        }
                    }
                }
            }
        }
    }
}

// ---------------------------------------------------------------------------
// Entry extraction
// ---------------------------------------------------------------------------

/// Title and content of one `<entry>` body: the title is required (an
/// entry without one is dropped), missing content is empty text.
pub open spec fn entry_fields(body: Seq<char>) -> Option<(Seq<char>, Seq<char>)> {
    match tag_inner_text(body, "title"@) {
        Some(t) => Some(
            (
                t,
                match tag_inner_text(body, "content"@) {
                    Some(c) => c,
                    None => Seq::<char>::empty(),
                },
            ),
        ),
        None => None,
    }
}

/// All `(title, content)` pairs of the feed's entries, in feed order.
pub open spec fn entries_from(s: Seq<char>, from: int) -> Seq<(Seq<char>, Seq<char>)>
    decreases s.len() - from,
    via entries_from_decreases
{
    match find_from_spec(s, "<entry"@, from) {
        None => Seq::empty(),
        Some(i) => match find_from_spec(s, "</entry>"@, i) {
            None => Seq::empty(),
            Some(e) => {
                let rest = entries_from(s, e + "</entry>"@.len());
                match entry_fields(s.subrange(i, e)) {
                    Some(tc) => seq![tc] + rest,
                    None => rest,
                }
            }
        },
    }
}

#[via_fn]
proof fn entries_from_decreases(s: Seq<char>, from: int) {
    reveal_strlit("<entry");
    reveal_strlit("</entry>");
    match find_from_spec(s, "<entry"@, from) {
        Some(i) => {
            if from >= 0 {
                lemma_find_match(s, "<entry"@, from, i);
                match find_from_spec(s, "</entry>"@, i) {
                    Some(e) => {
                        lemma_find_match(s, "</entry>"@, i, e);
                    }
                    None => {}
                }
            }
        }
        None => {}
    }
}

/// Owned entry pairs viewed as text pairs.
pub open spec fn pairs_view(v: Seq<(String, String)>) -> Seq<(Seq<char>, Seq<char>)> {
    Seq::new(v.len(), |i: int| (v[i].0@, v[i].1@))
}

fn extract_entry_fields(body: &str) -> (r: Option<(String, String)>)
    ensures
        match r {
            Some(tc) => entry_fields(body@) == Some((tc.0@, tc.1@)),
            None => entry_fields(body@) is None,
        },
{
    match extract_tag_inner(body, "title") {
        None => None,
        Some(t) => {
            let c = match extract_tag_inner(body, "content") {
                Some(c) => c,
                None => String::new(),
            };
            Some((t, c))
        }
    }
}

/// Extract every entry's title and content from a feed.
#[verifier::loop_isolation(false)]
pub fn extract_entries(xml: &str) -> (r: Vec<(String, String)>)
    ensures
        pairs_view(r@) == entries_from(xml@, 0),
{
    proof {
        reveal_strlit("<entry");
        reveal_strlit("</entry>");
    }
    let mut res: Vec<(String, String)> = Vec::new();
    let mut pos: usize = 0;
    let slen = xml.unicode_len();
    loop
        invariant
            pos <= slen + 8,
            slen == xml@.len(),
            pairs_view(res@) + entries_from(xml@, pos as int) =~= entries_from(xml@, 0),
        decreases slen + 8 - pos,
    {
        match find_from(xml, "<entry", pos) {
            None => {
                break;
            }
            Some(i) => {
                proof {
                    lemma_find_match(xml@, "<entry"@, pos as int, i as int);
                }
                match find_from(xml, "</entry>", i) {
                    None => {
                        break;
                    }
                    Some(e) => {
                        proof {
                            lemma_find_match(xml@, "</entry>"@, i as int, e as int);
                        }
                        let body = substring(xml, i, e);
                        let ghost old_res = res@;
                        match extract_entry_fields(body.as_str()) {
                            Some(tc) => {
                                res.push(tc);
                                proof {
                                    assert(pairs_view(res@) =~= pairs_view(old_res) + seq![
                                        (res@[res@.len() - 1].0@, res@[res@.len() - 1].1@),
                                    ]);
                                }
                            }
                            None => {}
                        }
                        proof {
                            assert(pairs_view(res@) + entries_from(xml@, e + 8) =~= entries_from(
                                xml@,
                                0,
                            ));
                        }
                        pos = e + 8;
                    }
                }
            }
        }
    }
    proof {
        assert(entries_from(xml@, pos as int) =~= Seq::<(Seq<char>, Seq<char>)>::empty());
        assert(pairs_view(res@) =~= entries_from(xml@, 0));
    }
    res
}

/// The raw body of every `<entry>...</entry>` span, in feed order. Used
/// where an entry carries more than title and content, as message feeds
/// do.
pub open spec fn entry_bodies_from(s: Seq<char>, from: int) -> Seq<Seq<char>>
    decreases s.len() - from,
    via entry_bodies_from_decreases
{
    match find_from_spec(s, "<entry"@, from) {
        None => Seq::empty(),
        Some(i) => match find_from_spec(s, "</entry>"@, i) {
            None => Seq::empty(),
            Some(e) => seq![s.subrange(i, e)] + entry_bodies_from(s, e + "</entry>"@.len()),
        },
    }
}

#[via_fn]
proof fn entry_bodies_from_decreases(s: Seq<char>, from: int) {
    reveal_strlit("<entry");
    reveal_strlit("</entry>");
    match find_from_spec(s, "<entry"@, from) {
        Some(i) => {
            if from >= 0 {
                lemma_find_match(s, "<entry"@, from, i);
                match find_from_spec(s, "</entry>"@, i) {
                    Some(e) => {
                        lemma_find_match(s, "</entry>"@, i, e);
                    }
                    None => {}
                }
            }
        }
        None => {}
    }
}

/// Owned entry bodies viewed as text.
pub open spec fn strs_view(v: Seq<String>) -> Seq<Seq<char>> {
    Seq::new(v.len(), |i: int| v[i]@)
}

/// Extract the raw body of every entry in a feed.
#[verifier::loop_isolation(false)]
pub fn extract_entry_bodies(xml: &str) -> (r: Vec<String>)
    ensures
        strs_view(r@) == entry_bodies_from(xml@, 0),
{
    proof {
        reveal_strlit("<entry");
        reveal_strlit("</entry>");
    }
    let mut res: Vec<String> = Vec::new();
    let mut pos: usize = 0;
    let slen = xml.unicode_len();
    loop
        invariant
            pos <= slen + 8,
            slen == xml@.len(),
            strs_view(res@) + entry_bodies_from(xml@, pos as int) =~= entry_bodies_from(xml@, 0),
        decreases slen + 8 - pos,
    {
        match find_from(xml, "<entry", pos) {
            None => {
                break;
            }
            Some(i) => {
                proof {
                    lemma_find_match(xml@, "<entry"@, pos as int, i as int);
                }
                match find_from(xml, "</entry>", i) {
                    None => {
                        break;
                    }
                    Some(e) => {
                        proof {
                            lemma_find_match(xml@, "</entry>"@, i as int, e as int);
                        }
                        let body = substring(xml, i, e);
                        let ghost old_res = res@;
                        res.push(body);
                        proof {
                            assert(strs_view(res@) =~= strs_view(old_res) + seq![
                                res@[res@.len() - 1]@,
                            ]);
                            assert(strs_view(res@) + entry_bodies_from(xml@, e + 8)
                                =~= entry_bodies_from(xml@, 0));
                        }
                        pos = e + 8;
                    }
                }
            }
        }
    }
    proof {
        assert(entry_bodies_from(xml@, pos as int) =~= Seq::<Seq<char>>::empty());
        assert(strs_view(res@) =~= entry_bodies_from(xml@, 0));
    }
    res
}

// ---------------------------------------------------------------------------
// Scalar property tags
// ---------------------------------------------------------------------------

/// The value of a scalar property: the text after `<Name>` up to the next
/// closing tag, or, failing an exact match, after a namespace-prefixed
/// `:Name>` (the API emits counters as e.g. a `d2p1`-prefixed tag).
pub open spec fn tag_value_spec(s: Seq<char>, name: Seq<char>) -> Option<Seq<char>> {
    match find_from_spec(s, "<"@ + name + ">"@, 0) {
        Some(i) => value_to_close(s, i + ("<"@ + name + ">"@).len() as int),
        None => match find_from_spec(s, ":"@ + name + ">"@, 0) {
            Some(i) => value_to_close(s, i + (":"@ + name + ">"@).len() as int),
            None => None,
        },
    }
}

/// Text from `start` to the next `</`.
pub open spec fn value_to_close(s: Seq<char>, start: int) -> Option<Seq<char>> {
    match find_from_spec(s, "</"@, start) {
        Some(j) => Some(s.subrange(start, j)),
        None => None,
    }
}

fn extract_value_to_close(s: &str, start: usize) -> (r: Option<String>)
    requires
        start <= s@.len(),
    ensures
        opt_str_is(r, value_to_close(s@, start as int)),
{
    match find_from(s, "</", start) {
        None => None,
        Some(j) => {
            proof {
                lemma_find_match(s@, "</"@, start as int, j as int);
            }
            Some(substring(s, start, j))
        }
    }
}

/// Extract a scalar property value, tolerating a namespace prefix.
pub fn extract_tag_value(s: &str, name: &str) -> (r: Option<String>)
    ensures
        opt_str_is(r, tag_value_spec(s@, name@)),
{
    let _slen = s.unicode_len();
    let mut exact = String::from_str("<");
    exact.append(name);
    exact.append(">");
    proof {
        assert(exact@ =~= "<"@ + name@ + ">"@);
    }
    match find_from(s, exact.as_str(), 0) {
        Some(i) => {
            proof {
                lemma_find_match(s@, exact@, 0, i as int);
            }
            extract_value_to_close(s, i + exact.as_str().unicode_len())
        }
        None => {
            let mut pref = String::from_str(":");
            pref.append(name);
            pref.append(">");
            proof {
                assert(pref@ =~= ":"@ + name@ + ">"@);
            }
            match find_from(s, pref.as_str(), 0) {
                Some(i) => {
                    proof {
                        lemma_find_match(s@, pref@, 0, i as int);
                    }
                    extract_value_to_close(s, i + pref.as_str().unicode_len())
                }
                None => None,
            }
        }
    }
}

// ---------------------------------------------------------------------------
// Pagination step
// ---------------------------------------------------------------------------

/// A next link normalized for the self-reference check: `%24` decoded
/// back to `$`.
pub open spec fn normalized_link(link: Seq<char>) -> Seq<char> {
    replace_all_spec(link, "%24"@, "$"@)
}

/// The URL to fetch after this page, if any. Listing stops on any of the
/// three termination conditions: the page held no entries, the feed gave
/// no `next` link, or the link (normalized) points back at the page that
/// was just fetched.
pub open spec fn page_step_spec(current: Seq<char>, xml: Seq<char>) -> Option<Seq<char>> {
    if entries_from(xml, 0).len() == 0 {
        None
    } else {
        match next_link_of(xml) {
            None => None,
            Some(link) => {
                if normalized_link(link) == current {
                    None
                } else {
                    Some(link)
                }
            }
        }
    }
}

/// One page of a listing: its entries and the URL to fetch next.
pub struct FeedPage {
    pub entries: Vec<(String, String)>,
    pub next: Option<String>,
}

/// Read one feed page: its entries, and where to go next.
///
/// A `next` link that, once normalized, equals the URL this page came
/// from yields no follow-up request, so a feed that points back at
/// itself ends after a single page.
pub fn parse_feed_page(current_url: &str, xml: &str) -> (r: FeedPage)
    ensures
        pairs_view(r.entries@) == entries_from(xml@, 0),
        opt_str_is(r.next, page_step_spec(current_url@, xml@)),
        (next_link_of(xml@) matches Some(l) && normalized_link(l) == current_url@) ==> r.next
            is None,
{
    proof {
        reveal_strlit("%24");
    }
    let entries = extract_entries(xml);
    if entries.len() == 0 {
        return FeedPage { entries, next: None };
    }
    match extract_next_link(xml) {
        None => FeedPage { entries, next: None },
        Some(link) => {
            let norm = replace_all(link.as_str(), "%24", "$");
            if crate::strutil::str_eq(norm.as_str(), current_url) {
                FeedPage { entries, next: None }
            } else {
                FeedPage { entries, next: Some(link) }
            }
        }
    }
}

} // verus!
