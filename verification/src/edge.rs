//! The edge worker: which page a request asks for and the reply it gets.

use vstd::prelude::*;
use crate::text::{str_eq, concat2, concat3};

verus! {

/// The pages the worker serves.
#[derive(Clone, Copy, Debug, PartialEq, Eq, Structural)]
pub enum Route {
    /// `GET /`.
    Home,
    /// `GET /sitemap.txt`.
    Sitemap,
    /// Any other method or path.
    NotFound,
}

/// How a reply's body is to be read.
#[derive(Clone, Copy, Debug, PartialEq, Eq, Structural)]
pub enum BodyKind {
    Text,
    Html,
}

/// A reply: its status code, the kind of its body, and the body.
#[derive(Clone, Debug)]
pub struct Reply {
    pub status: u16,
    pub kind: BodyKind,
    pub body: String,
}

/// Why a request gets no reply.
#[derive(Clone, Copy, Debug, PartialEq, Eq, Structural)]
pub enum EdgeError {
    /// The sitemap was asked for but the `HOST` setting is missing.
    MissingHost,
}

/// The page a request asks for: the home page and the sitemap answer `GET`
/// only; everything else falls to the not-found page.
pub open spec fn route_spec(is_get: bool, path: Seq<char>) -> Route {
    if is_get && path == "/"@ {
        Route::Home
    } else if is_get && path == "/sitemap.txt"@ {
        Route::Sitemap
    } else {
        Route::NotFound
    }
}

/// The page a request with this method (`GET` or not) and path asks for.
pub fn route(is_get: bool, path: &str) -> (r: Route)
    ensures
        r == route_spec(is_get, path@),
{
    if is_get && str_eq(path, "/") {
        Route::Home
    } else if is_get && str_eq(path, "/sitemap.txt") {
        Route::Sitemap
    } else {
        Route::NotFound
    }
}

/// The reply for a page that does not exist: an HTML page naming the path for
/// `GET`, a plain error text otherwise, both with status 404.
pub open spec fn not_found_spec(is_get: bool, path: Seq<char>) -> (u16, BodyKind, Seq<char>) {
    if is_get {
        (404u16, BodyKind::Html, "<h1>404</h1><h2>Not found</h2><h3>"@ + path + "</h3>"@)
    } else {
        (404u16, BodyKind::Text, "404 Not Found\n"@ + path)
    }
}

/// The reply for a page that does not exist.
pub fn not_found(is_get: bool, path: &str) -> (reply: Reply)
    ensures
        (reply.status, reply.kind, reply.body@) == not_found_spec(is_get, path@),
{
    if is_get {
        Reply { status: 404, kind: BodyKind::Html, body: concat3("<h1>404</h1><h2>Not found</h2><h3>", path, "</h3>") }
    } else {
        Reply { status: 404, kind: BodyKind::Text, body: concat2("404 Not Found\n", path) }
    }
}

/// The worker's answer to a request with this method and path, where `host` is
/// the `HOST` setting: `Hello` on the home page, the host on the sitemap, and
/// the not-found reply elsewhere. Only the sitemap needs the setting.
pub fn respond(is_get: bool, path: &str, host: Option<&str>) -> (r: Result<Reply, EdgeError>)
    ensures
        match route_spec(is_get, path@) {
            Route::Home => r matches Ok(reply) && reply.status == 200 && reply.kind == BodyKind::Text
                && reply.body@ == "Hello"@,
            Route::Sitemap => match host {
                Some(h) => r matches Ok(reply) && reply.status == 200 && reply.kind == BodyKind::Text
                    && reply.body@ == h@,
                None => r == Err::<Reply, EdgeError>(EdgeError::MissingHost),
            },
            Route::NotFound => r matches Ok(reply) && (reply.status, reply.kind, reply.body@)
                == not_found_spec(is_get, path@),
        },
{
    match route(is_get, path) {
        Route::Home => Ok(Reply { status: 200, kind: BodyKind::Text, body: String::from_str("Hello") }),
        Route::Sitemap => match host {
            Some(h) => Ok(Reply { status: 200, kind: BodyKind::Text, body: String::from_str(h) }),
            None => Err(EdgeError::MissingHost),
        },
        Route::NotFound => Ok(not_found(is_get, path)),
    }
}

/// Every request but `GET /` and `GET /sitemap.txt` is answered with status 404.
pub proof fn law_unknown_is_404(is_get: bool, path: Seq<char>)
    ensures
        route_spec(is_get, path) == Route::NotFound ==> not_found_spec(is_get, path).0 == 404,
        !is_get ==> route_spec(is_get, path) == Route::NotFound,
{
}

/// Routing is exact: only `GET /` reaches the home page and only
/// `GET /sitemap.txt` the sitemap; every other `GET` path is not found.
pub proof fn law_route_exact(is_get: bool, path: Seq<char>)
    ensures
        route_spec(is_get, path) == Route::Home <==> (is_get && path == "/"@),
        route_spec(is_get, path) == Route::Sitemap <==> (is_get && path == "/sitemap.txt"@),
        is_get && path != "/"@ && path != "/sitemap.txt"@ ==> route_spec(is_get, path) == Route::NotFound,
{
    reveal_strlit("/");
    reveal_strlit("/sitemap.txt");
    assert("/"@ != "/sitemap.txt"@) by {
        assert("/"@.len() != "/sitemap.txt"@.len());
    }
}

} // verus!
