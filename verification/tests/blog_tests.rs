use moix::docs::{by_uri_query, docs_uris_query, last_docs_query, modified_date, search_filter, search_query, shown_query, DocFilter};
use moix::files::{decoded_or_empty, file_body, file_reply, File};
use moix::repos::{bearer, cache_file_name, keep_shown, Repo};
use moix::site::{search_redirect, setting_or, sitemap, DEFAULT_DOMAIN};

fn text(f: &DocFilter) -> String {
    match f {
        DocFilter::Public => "public".to_string(),
        DocFilter::Tag(t) => format!("tag:{t}"),
        DocFilter::Author(a) => format!("author:{a}"),
        DocFilter::Text(x) => format!("text:{x}"),
        DocFilter::Uri(u) => format!("uri:{u}"),
    }
}

#[test]
fn search_text_becomes_filter() {
    assert_eq!(text(&search_filter("")), "public");
    assert_eq!(text(&search_filter("#rust")), "tag:rust");
    assert_eq!(text(&search_filter("@moix")), "author:moix");
    assert_eq!(text(&search_filter("verus proofs")), "text:verus proofs");
    assert_eq!(text(&search_filter("#")), "tag:");
}

#[test]
fn queries_have_their_limits() {
    let q = last_docs_query();
    assert_eq!((text(&q.filter).as_str(), q.limit, q.newest_first), ("public", Some(3), true));
    let q = search_query("@ana");
    assert_eq!((text(&q.filter).as_str(), q.limit, q.newest_first), ("author:ana", Some(7), true));
    let q = docs_uris_query();
    assert_eq!((q.limit, q.newest_first), (None, false));
    assert_eq!(text(&by_uri_query("intro").filter), "uri:intro");
    assert_eq!(shown_query(Some("x")), "x");
    assert_eq!(shown_query(None), "");
}

#[test]
fn date_is_first_ten_bytes() {
    assert_eq!(modified_date("2024-05-01T10:00:00Z"), Some("2024-05-01"));
    assert_eq!(modified_date("2024-05-01"), Some("2024-05-01"));
    assert_eq!(modified_date("2024-05"), None);
    assert_eq!(modified_date("2024-05-0é1"), None);
}

fn repo(name: &str, archived: bool, fork: bool) -> Repo {
    Repo {
        name: name.to_string(),
        html_url: format!("https://example.org/{name}"),
        description: String::new(),
        archived,
        fork,
    }
}

#[test]
fn only_active_own_repos_are_shown() {
    let kept = keep_shown(vec![
        repo("a", false, false),
        repo("b", true, false),
        repo("c", false, true),
        repo("d", false, false),
    ]);
    let names: Vec<&str> = kept.iter().map(|r| r.name.as_str()).collect();
    assert_eq!(names, vec!["a", "d"]);
    assert!(keep_shown(vec![]).is_empty());
    let again = keep_shown(kept.clone());
    let names_again: Vec<&str> = again.iter().map(|r| r.name.as_str()).collect();
    assert_eq!(names_again, vec!["a", "d"]);
}

#[test]
fn repo_request_details() {
    assert_eq!(bearer("tok"), "Bearer tok");
    assert_eq!(bearer(""), "Bearer ");
    assert_eq!(cache_file_name(1), "github_1");
    assert_eq!(cache_file_name(366), "github_366");
}

#[test]
fn sitemap_lists_site_then_docs() {
    assert_eq!(sitemap("https://x.io", &vec![]), "https://x.io");
    assert_eq!(
        sitemap("https://x.io", &vec!["a".to_string(), "b-c".to_string()]),
        "https://x.io\nhttps://x.io/d/a\nhttps://x.io/d/b-c"
    );
}

#[test]
fn settings_fall_back() {
    assert_eq!(setting_or(None, DEFAULT_DOMAIN), "http://localhost:8080");
    assert_eq!(setting_or(Some("https://moix.cc".to_string()), DEFAULT_DOMAIN), "https://moix.cc");
}

#[test]
fn search_redirects() {
    assert_eq!(search_redirect(Some("rust"), Some("muchik")), "https://blog.moix.cc/?q=rust");
    assert_eq!(search_redirect(Some("rust"), Some("docs")), "/d/?q=rust");
    assert_eq!(search_redirect(Some("rust"), None), "/");
    assert_eq!(search_redirect(None, Some("muchik")), "/");
    assert_eq!(search_redirect(None, None), "/");
}

#[test]
fn text_files_are_sent_as_is() {
    let f = File { mime: "text/plain".to_string(), content: "héllo".to_string(), base64: false };
    assert_eq!(file_body(&f), "héllo".as_bytes().to_vec());
    let (mime, body) = file_reply(&f);
    assert_eq!(mime, "text/plain");
    assert_eq!(body, "héllo".as_bytes().to_vec());
}

#[test]
fn base64_files_are_decoded() {
    let f = File { mime: "image/png".to_string(), content: "aGVsbG8=".to_string(), base64: true };
    assert_eq!(file_body(&f), b"hello".to_vec());
}

#[test]
fn bad_base64_sends_nothing() {
    let f = File { mime: "image/png".to_string(), content: "not base64!".to_string(), base64: true };
    assert_eq!(file_body(&f), Vec::<u8>::new());
    assert_eq!(decoded_or_empty(None), Vec::<u8>::new());
    assert_eq!(decoded_or_empty(Some(vec![1, 2])), vec![1, 2]);
}
