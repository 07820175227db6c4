//! The blog's own pages: the sitemap, the search redirect, and the settings
//! read from the environment with their fallbacks.

use vstd::prelude::*;
use crate::text::{str_eq, concat2};

verus! {

/// A setting from the environment, or `fallback` where it is not set.
pub fn setting_or(value: Option<String>, fallback: &str) -> (s: String)
    ensures
        match value {
            Some(v) => s@ == v@,
            None => s@ == fallback@,
        },
{
    match value {
        Some(v) => v,
        None => String::from_str(fallback),
    }
}

/// The site's address where `DOMAIN` is not set.
pub const DEFAULT_DOMAIN: &'static str = "http://localhost:8080";

/// The database address where `DATABASE_URL` is not set.
pub const DEFAULT_DATABASE_URL: &'static str = "mongodb://localhost:27017/";

/// The name of the blog's database.
pub const DATABASE_NAME: &'static str = "moixllik";

/// `lines` joined with `sep` between each two.
pub open spec fn join(lines: Seq<Seq<char>>, sep: Seq<char>) -> Seq<char>
    decreases lines.len(),
{
    if lines.len() == 0 {
        Seq::empty()
    } else if lines.len() == 1 {
        lines[0]
    } else {
        join(lines.drop_last(), sep) + sep + lines.last()
    }
}

/// The address of the document page for `uri` on the site at `domain`.
pub open spec fn doc_link(domain: Seq<char>, uri: Seq<char>) -> Seq<char> {
    domain + "/d/"@ + uri
}

/// The sitemap's links: the site itself, then each document's page in the order given.
pub open spec fn sitemap_links(domain: Seq<char>, uris: Seq<Seq<char>>) -> Seq<Seq<char>> {
    seq![domain] + uris.map_values(|u: Seq<char>| doc_link(domain, u))
}

/// The sitemap text for the site at `domain` with the documents at `uris`:
/// one link per line.
pub fn sitemap(domain: &str, uris: &Vec<String>) -> (body: String)
    ensures
        body@ == join(sitemap_links(domain@, uris@.map_values(|u: String| u@)), "\n"@),
{
    let ghost us = uris@.map_values(|u: String| u@);
    let ghost links = sitemap_links(domain@, us);
    let mut body = String::from_str(domain);
    proof {
        assert(links.take(1) =~= seq![domain@]);
    }
    let mut i: usize = 0;
    while i < uris.len()
        invariant
            i <= uris@.len(),
            us == uris@.map_values(|u: String| u@),
            links == sitemap_links(domain@, us),
            body@ == join(links.take(i + 1), "\n"@),
        decreases uris@.len() - i,
    {
        body.append("\n");
        body.append(domain);
        body.append("/d/");
        body.append(uris[i].as_str());
        proof {
            assert(links.take(i + 2).drop_last() =~= links.take(i + 1));
            assert(links.take(i + 2).last() == doc_link(domain@, us[i as int]));
            assert(body@ =~= join(links.take(i + 1), "\n"@) + "\n"@ + doc_link(domain@, us[i as int]));
        }
        i = i + 1;
    }
    proof {
        assert(links.take(uris@.len() as int + 1) =~= links);
    }
    body
}

/// Where a search goes: with both a text `q` and a type `typ`, to the Muchik
/// blog when the type is `muchik` and to the document search otherwise; without
/// either, to the front page.
pub open spec fn redirect_target(q: Option<Seq<char>>, typ: Option<Seq<char>>) -> Seq<char> {
    match (q, typ) {
        (Some(text), Some(t)) => if t == "muchik"@ {
            "https://blog.moix.cc/?q="@ + text
        } else {
            "/d/?q="@ + text
        },
        _ => "/"@,
    }
}

/// The address a search redirects to.
pub fn search_redirect(q: Option<&str>, typ: Option<&str>) -> (url: String)
    ensures
        url@ == redirect_target(
            match q { Some(s) => Some(s@), None => None },
            match typ { Some(s) => Some(s@), None => None },
        ),
{
    match (q, typ) {
        (Some(text), Some(t)) => if str_eq(t, "muchik") {
            concat2("https://blog.moix.cc/?q=", text)
        } else {
            concat2("/d/?q=", text)
        },
        _ => String::from_str("/"),
    }
}

/// Joined lines begin with the first line.
proof fn lemma_join_starts_with_first(lines: Seq<Seq<char>>, sep: Seq<char>)
    requires
        lines.len() >= 1,
    ensures
        join(lines, sep).len() >= lines[0].len(),
        join(lines, sep).subrange(0, lines[0].len() as int) == lines[0],
    decreases lines.len(),
{
    if lines.len() > 1 {
        let rest = lines.drop_last();
        lemma_join_starts_with_first(rest, sep);
        let j = join(rest, sep);
        assert(join(lines, sep).subrange(0, lines[0].len() as int) =~= j.subrange(0, lines[0].len() as int));
    }
}

/// The sitemap always begins with the site's own address, and has one link
/// for the site and one for each document.
pub proof fn law_sitemap_starts_with_site(domain: Seq<char>, uris: Seq<Seq<char>>)
    ensures
        sitemap_links(domain, uris).len() == uris.len() + 1,
        join(sitemap_links(domain, uris), "\n"@).subrange(0, domain.len() as int) == domain,
{
    lemma_join_starts_with_first(sitemap_links(domain, uris), "\n"@);
}

} // verus!
