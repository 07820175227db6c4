//! The code repositories listed on the blog's front page: which are shown, and
//! the request and cache file used to fetch them.

use vstd::prelude::*;
use crate::text::{concat2, decimal, push_decimal};

verus! {

/// A code repository as the hosting service describes it.
#[derive(Debug)]
pub struct Repo {
    pub name: String,
    pub html_url: String,
    pub description: String,
    pub archived: bool,
    pub fork: bool,
}

impl Clone for Repo {
    fn clone(&self) -> (r: Repo)
        ensures
            r == *self,
    {
        Repo {
            name: self.name.clone(),
            html_url: self.html_url.clone(),
            description: self.description.clone(),
            archived: self.archived,
            fork: self.fork,
        }
    }
}

/// The repositories of `repos` that are shown, in order.
pub open spec fn shown(repos: Seq<Repo>) -> Seq<Repo> {
    repos.filter(|r: Repo| is_shown(r))
}

/// A repository is shown when it is neither archived nor a fork.
pub open spec fn is_shown(r: Repo) -> bool {
    !r.archived && !r.fork
}

/// The repositories that are shown, in the order given.
pub fn keep_shown(repos: Vec<Repo>) -> (kept: Vec<Repo>)
    ensures
        kept@ == shown(repos@),
{
    let mut kept: Vec<Repo> = Vec::new();
    let mut i: usize = 0;
    let n = repos.len();
    while i < n
        invariant
            n == repos@.len(),
            i <= n,
            kept@ == shown(repos@.take(i as int)),
        decreases n - i,
    {
        let r = repos[i].clone();
        proof {
            assert(repos@.take(i + 1).drop_last() =~= repos@.take(i as int));
            reveal(Seq::filter);
        }
        if !r.archived && !r.fork {
            kept.push(r);
        }
        i = i + 1;
    }
    proof {
        assert(repos@.take(n as int) =~= repos@);
    }
    kept
}

/// The service's address for the blog owner's repositories.
pub const REPOS_URL: &'static str = "https://api.github.com/users/moixllik/repos";

/// The user agent sent with the request.
pub const USER_AGENT: &'static str = "Mozilla/5.0";

/// The API version asked for.
pub const API_VERSION: &'static str = "2022-11-28";

/// The authorization header's value for `token`.
pub fn bearer(token: &str) -> (h: String)
    ensures
        h@ == "Bearer "@ + token@,
{
    concat2("Bearer ", token)
}

/// The name of the day's cache file, from the day of the year: the list is
/// fetched at most once a day.
pub fn cache_file_name(ordinal: u32) -> (name: String)
    ensures
        name@ == "github_"@ + decimal(ordinal as nat),
{
    let mut name = String::from_str("github_");
    push_decimal(&mut name, ordinal as u64);
    name
}

/// Showing is idempotent: the shown repositories of the shown repositories are
/// the shown repositories, and every shown repository is one of those given.
pub proof fn law_keep_shown_idempotent(repos: Seq<Repo>)
    ensures
        shown(shown(repos)) == shown(repos),
        forall|k: int| 0 <= k < shown(repos).len() ==>
            is_shown(#[trigger] shown(repos)[k]) && repos.contains(shown(repos)[k]),
    decreases repos.len(),
{
    let f = |r: Repo| is_shown(r);
    reveal(Seq::filter);
    if repos.len() > 0 {
        law_keep_shown_idempotent(repos.drop_last());
        let g = shown(repos.drop_last());
        if is_shown(repos.last()) {
            assert(g.push(repos.last()).drop_last() =~= g);
        }
    }
    assert forall|k: int| 0 <= k < shown(repos).len() implies
        is_shown(#[trigger] shown(repos)[k]) && repos.contains(shown(repos)[k]) by {
        repos.lemma_filter_pred(f, k);
        assert(shown(repos).contains(shown(repos)[k]));
        repos.lemma_filter_contains_rev(f, shown(repos)[k]);
    }
}

/// The front page shows exactly the repositories that are neither archived
/// nor forks, in the order given: no kept repository is archived or a fork,
/// and every one given that is neither is kept.
pub proof fn law_shown_are_active_own(repos: Seq<Repo>)
    ensures
        shown(repos) == repos.filter(|r: Repo| !r.archived && !r.fork),
        forall|k: int| 0 <= k < shown(repos).len() ==> !(#[trigger] shown(repos)[k]).archived
            && !shown(repos)[k].fork,
        forall|i: int| 0 <= i < repos.len() && !(#[trigger] repos[i]).archived && !repos[i].fork
            ==> shown(repos).contains(repos[i]),
{
    let f = |r: Repo| is_shown(r);
    let g = |r: Repo| !r.archived && !r.fork;
    assert(f =~= g);
    assert forall|k: int| 0 <= k < shown(repos).len() implies !(#[trigger] shown(repos)[k]).archived
        && !shown(repos)[k].fork by {
        repos.lemma_filter_pred(f, k);
    }
    assert forall|i: int| 0 <= i < repos.len() && !(#[trigger] repos[i]).archived && !repos[i].fork
        implies shown(repos).contains(repos[i]) by {
        repos.lemma_filter_contains(f, i);
    }
}

} // verus!
