use vstd::prelude::*;
use crate::cache::{lookup, Lookup, MetadataCache};
use crate::error::MetaError;
use crate::id::{opt_text, url_parts, youtube_id, Id, Url2Id, YoutubeVideoIdMapper};

verus! {

/// The next step of a memoized fetch.
pub enum FetchPlan {
    /// Return this document; the remote fetch is not needed.
    Serve(String),
    /// Read the file of this identifier, if it exists, and hand its text to
    /// `plan_after_read`.
    ReadStored(Id),
    /// Fetch remotely, then store the result under this identifier.
    Remote(Id),
}

pub enum PlanView {
    Serve(Seq<char>),
    ReadStored(Seq<char>),
    Remote(Seq<char>),
}

impl View for FetchPlan {
    type V = PlanView;

    open spec fn view(&self) -> PlanView {
        match self {
            FetchPlan::Serve(d) => PlanView::Serve(d@),
            FetchPlan::ReadStored(k) => PlanView::ReadStored(k@),
            FetchPlan::Remote(k) => PlanView::Remote(k@),
        }
    }
}

/// The first step for identifier `k`: with refresh set, always the remote
/// fetch; otherwise a present entry is served, a "known absent" one is
/// fetched, and an unseen identifier sends the caller to its file.
pub open spec fn plan_for(m: Map<Seq<char>, Option<Seq<char>>>, refresh: bool, k: Seq<char>) -> PlanView {
    if refresh {
        PlanView::Remote(k)
    } else if m.contains_key(k) {
        match m[k] {
            Some(d) => PlanView::Serve(d),
            None => PlanView::Remote(k),
        }
    } else {
        PlanView::ReadStored(k)
    }
}

/// Resolves `url` with the YouTube strategy and decides how its metadata is
/// had: from the cache, from the file of its identifier, or remotely.
pub fn get_metadata(cache: &MetadataCache, url: &str) -> (r: Result<FetchPlan, MetaError>)
    ensures
        match url_parts(url@) {
            None => r is Err && r->Err_0 is UrlParseErr,
            Some(u) => match youtube_id(u) {
                None => r is Err && r->Err_0 is NoIdFount,
                Some(k) => r is Ok && r->Ok_0@ == plan_for(cache.index(), cache.refresh_spec(), k),
            },
        },
{
    let id = match YoutubeVideoIdMapper.try_get_id(url) {
        Ok(id) => id,
        Err(e) => {
            return Err(e);
        },
    };
    if cache.refresh() {
        return Ok(FetchPlan::Remote(id));
    }
    match cache.cached(&id) {
        Some(Some(d)) => Ok(FetchPlan::Serve(d)),
        Some(None) => Ok(FetchPlan::Remote(id)),
        None => Ok(FetchPlan::ReadStored(id)),
    }
}

/// The step after the file of `k` was looked for: `stored` is its text if it
/// exists. A readable document is served, no document sends the caller to the
/// remote fetch, and an unreadable one fails with `JsonErr`.
pub fn plan_after_read(cache: &MetadataCache, k: Id, stored: Option<String>) -> (r: Result<FetchPlan, MetaError>)
    ensures
        match lookup(cache.index(), k@, opt_text(stored)) {
            Lookup::Value(Some(d)) => r is Ok && r->Ok_0@ == PlanView::Serve(d),
            Lookup::Value(None) => r is Ok && r->Ok_0@ == PlanView::Remote(k@),
            Lookup::Corrupt => r is Err && r->Err_0 is JsonErr,
        },
{
    match cache.cache_get(&k, stored) {
        Ok(Some(d)) => Ok(FetchPlan::Serve(d)),
        Ok(None) => Ok(FetchPlan::Remote(k)),
        Err(e) => Err(e),
    }
}

/// Once a fetch has stored document `d` under `k`, a second fetch with
/// refresh unset serves `d` and does not go to the remote side.
pub proof fn lemma_second_fetch_served(m: Map<Seq<char>, Option<Seq<char>>>, k: Seq<char>, d: Seq<char>)
    ensures
        plan_for(m.insert(k, Some(d)), false, k) == PlanView::Serve(d),
{
}

/// With refresh set, every fetch goes to the remote side, whatever the
/// cache holds.
pub proof fn lemma_refresh_goes_remote(m: Map<Seq<char>, Option<Seq<char>>>, k: Seq<char>)
    ensures
        plan_for(m, true, k) == PlanView::Remote(k),
{
}

} // verus!
