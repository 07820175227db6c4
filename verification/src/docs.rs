//! The blog's documents: the records it reads, the queries it makes for them,
//! and how a reader's search text becomes a query.

use vstd::prelude::*;
use crate::text::starts_with_char;
use vstd::utf8::{is_char_boundary, encode_utf8, is_ascii_chars, encode_utf8_valid_utf8, is_ascii_chars_encode_utf8, is_char_boundary_start_end_of_seq, is_char_boundary_iff_not_is_continuation_byte};
use vstd::string::StringSliceAdditionalSpecFns;

verus! {

/// A document as listed in search results and on the front page.
#[derive(Clone, Debug)]
pub struct DocSearch {
    pub uri: String,
    pub title: String,
    pub desc: String,
}

/// The address of a document, as listed in the sitemap.
#[derive(Clone, Debug)]
pub struct DocUris {
    pub uri: String,
}

/// A whole document, as shown by the reader page.
#[derive(Clone, Debug)]
pub struct Doc {
    pub uri: String,
    pub title: String,
    pub desc: String,
    pub cover: String,
    pub content: String,
    pub extra: String,
    pub modified: String,
    pub authors: Vec<String>,
    pub tags: Vec<String>,
}

/// Which public documents a query selects.
#[derive(Clone, Debug)]
pub enum DocFilter {
    /// Every public document.
    Public,
    /// Public documents with this tag.
    Tag(String),
    /// Public documents by this author.
    Author(String),
    /// Public documents whose address, title or description matches this
    /// pattern, ignoring case.
    Text(String),
    /// The public document at this address.
    Uri(String),
}

/// A query on the documents: which to select, how many at most, and whether
/// the most recently modified come first.
#[derive(Clone, Debug)]
pub struct DocQuery {
    pub filter: DocFilter,
    pub limit: Option<i64>,
    pub newest_first: bool,
}

/// Whether `f` is the filter for the reader's search text `search`: empty text
/// selects every public document; `#tag` selects by tag and `@name` by author
/// (the text after the first character); any other text is matched against
/// address, title and description.
pub open spec fn is_search_filter(f: DocFilter, search: Seq<char>) -> bool {
    if search.len() == 0 {
        f is Public
    } else if search[0] == '#' {
        f matches DocFilter::Tag(t) && t@ == search.subrange(1, search.len() as int)
    } else if search[0] == '@' {
        f matches DocFilter::Author(a) && a@ == search.subrange(1, search.len() as int)
    } else {
        f matches DocFilter::Text(x) && x@ == search
    }
}

/// The filter for the reader's search text.
pub fn search_filter(search: &str) -> (f: DocFilter)
    ensures
        is_search_filter(f, search@),
{
    let n = search.unicode_len();
    if n == 0 {
        DocFilter::Public
    } else if starts_with_char(search, '#') {
        DocFilter::Tag(String::from_str(search.substring_char(1, n)))
    } else if starts_with_char(search, '@') {
        DocFilter::Author(String::from_str(search.substring_char(1, n)))
    } else {
        DocFilter::Text(String::from_str(search))
    }
}

/// The documents on the front page: the three most recently modified public ones.
pub fn last_docs_query() -> (q: DocQuery)
    ensures
        q.filter is Public,
        q.limit == Some(3i64),
        q.newest_first,
{
    DocQuery { filter: DocFilter::Public, limit: Some(3), newest_first: true }
}

/// The documents in the sitemap: every public one, in no particular order.
pub fn docs_uris_query() -> (q: DocQuery)
    ensures
        q.filter is Public,
        q.limit is None,
        !q.newest_first,
{
    DocQuery { filter: DocFilter::Public, limit: None, newest_first: false }
}

/// The search results for the reader's text: at most seven, most recently modified first.
pub fn search_query(search: &str) -> (q: DocQuery)
    ensures
        is_search_filter(q.filter, search@),
        q.limit == Some(7i64),
        q.newest_first,
{
    DocQuery { filter: search_filter(search), limit: Some(7), newest_first: true }
}

/// The public document (or file) at the address `uri`.
pub fn by_uri_query(uri: &str) -> (q: DocQuery)
    ensures
        q.filter matches DocFilter::Uri(u) && u@ == uri@,
        q.limit is None,
        !q.newest_first,
{
    DocQuery { filter: DocFilter::Uri(String::from_str(uri)), limit: None, newest_first: false }
}

/// The date part of a modification time: its first ten bytes, when the text is
/// that long and a character ends there (where slicing the text would panic, `None`).
pub fn modified_date(modified: &str) -> (d: Option<&str>)
    ensures
        match d {
            Some(date) => modified.spec_bytes().len() >= 10 && is_char_boundary(modified.spec_bytes(), 10)
                && date.spec_bytes() == modified.spec_bytes().subrange(0, 10),
            None => !(modified.spec_bytes().len() >= 10 && is_char_boundary(modified.spec_bytes(), 10)),
        },
{
    let bytes = modified.as_bytes();
    if bytes.len() >= 10 && modified.is_char_boundary(10) {
        let (date, _) = modified.split_at(10);
        Some(date)
    } else {
        None
    }
}

/// What the search box shows again: the reader's text, or nothing.
pub fn shown_query(q: Option<&str>) -> (s: String)
    ensures
        match q {
            Some(t) => s@ == t@,
            None => s@ == Seq::<char>::empty(),
        },
{
    match q {
        Some(t) => String::from_str(t),
        None => String::new(),
    }
}

/// The search filter keeps the reader's text: the tag or author after its
/// marker character, or the whole text.
pub proof fn law_search_filter_keeps_text(f: DocFilter, search: Seq<char>)
    requires
        is_search_filter(f, search),
    ensures
        f matches DocFilter::Tag(t) ==> seq!['#'] + t@ == search,
        f matches DocFilter::Author(a) ==> seq!['@'] + a@ == search,
        f matches DocFilter::Text(x) ==> x@ == search,
        f is Public <==> search.len() == 0,
        !(f is Uri),
{
    if search.len() > 0 {
        assert(search =~= seq![search[0]] + search.subrange(1, search.len() as int));
    }
}

/// A modification time written in ASCII and at least ten characters long always
/// has a date part: its first ten characters.
pub proof fn law_ascii_time_has_date(modified: Seq<char>)
    requires
        is_ascii_chars(modified),
        modified.len() >= 10,
    ensures
        encode_utf8(modified).len() >= 10,
        is_char_boundary(encode_utf8(modified), 10),
        encode_utf8(modified).subrange(0, 10) == encode_utf8(modified.subrange(0, 10)),
{
    let bytes = encode_utf8(modified);
    let head = modified.subrange(0, 10);
    is_ascii_chars_encode_utf8(modified);
    assert(is_ascii_chars(head));
    is_ascii_chars_encode_utf8(head);
    encode_utf8_valid_utf8(modified);
    if modified.len() == 10 {
        is_char_boundary_start_end_of_seq(bytes);
    } else {
        assert(modified[10] as u8 == bytes[10]);
        is_char_boundary_iff_not_is_continuation_byte(bytes, 10);
    }
    assert(bytes.subrange(0, 10) =~= encode_utf8(head));
}

/// Every search text starting with `#` searches by the tag after it and every
/// one starting with `@` by the author after it, whatever its length; any other
/// non-empty text is matched as it is, and only empty text selects everything.
pub proof fn law_search_markers(f: DocFilter, search: Seq<char>)
    requires
        is_search_filter(f, search),
    ensures
        search.len() > 0 && search[0] == '#' ==> (f matches DocFilter::Tag(t) && t@ == search.subrange(1, search.len() as int)),
        search.len() > 0 && search[0] == '@' ==> (f matches DocFilter::Author(a) && a@ == search.subrange(1, search.len() as int)),
        search.len() > 0 && search[0] != '#' && search[0] != '@' ==> (f matches DocFilter::Text(x) && x@ == search),
        search.len() == 0 ==> f is Public,
{
}

} // verus!
