//! Whether a fetched page was served from another url than the one asked
//! for.

use vstd::prelude::*;
use crate::strings::str_equal;

verus! {

/// The characters of an optional string.
pub open spec fn opt_text(s: Option<String>) -> Option<Seq<char>> {
    match s {
        Some(t) => Some(t@),
        None => None,
    }
}

/// The url a page was redirected to: the final url when it differs from the
/// requested one.
pub open spec fn redirect_of(target_url: Seq<char>, final_url: Seq<char>) -> Option<Seq<char>> {
    if target_url != final_url {
        Some(final_url)
    } else {
        None
    }
}

/// The final url of a response when it is not the requested url.
pub fn response_redirect(target_url: &str, final_url: &str) -> (r: Option<String>)
    ensures
        opt_text(r) == redirect_of(target_url@, final_url@),
{
    if !str_equal(target_url, final_url) {
        Some(final_url.to_owned())
    } else {
        None
    }
}

/// A redirect is never the requested url itself, and a final url that
/// differs from the requested one is always reported.
pub proof fn lemma_redirect_differs(target_url: Seq<char>, final_url: Seq<char>, chain: Seq<Option<String>>)
    ensures
        redirect_of(target_url, final_url) is None <==> target_url == final_url,
        redirect_of(target_url, final_url) matches Some(u) ==> u == final_url,
        last_redirect(target_url, chain) matches Some(u) ==> u != target_url,
{
}

/// What a browser reports of a navigation request: the urls of the requests
/// of its redirect chain, first to last, each `None` where the browser gave
/// no url.
pub struct RedirectRequest {
    pub redirect_chain: Vec<Option<String>>,
}

/// The redirect that the last request of a redirect chain shows: its url,
/// when it has one and differs from the requested url.
pub open spec fn last_redirect(target_url: Seq<char>, chain: Seq<Option<String>>) -> Option<Seq<char>> {
    if chain.len() == 0 {
        None
    } else {
        match chain.last() {
            Some(u) => redirect_of(target_url, u@),
            None => None,
        }
    }
}

/// The redirect of a navigation is decided by the last request of its
/// chain alone: with no chain there is none; when the last request has a url
/// that differs from the requested one, that url is the redirect; when the
/// last request has no url or is the requested url itself, there is none,
/// whatever earlier requests of the chain hold.  Two chains that end in the
/// same request show the same redirect.
pub proof fn lemma_last_redirect_is_last_hop(
    target_url: Seq<char>,
    chain: Seq<Option<String>>,
    other: Seq<Option<String>>,
)
    ensures
        chain.len() == 0 ==> last_redirect(target_url, chain) is None,
        chain.len() > 0 && chain.last() is None ==> last_redirect(target_url, chain) is None,
        chain.len() > 0 && (chain.last() matches Some(u) && u@ == target_url)
            ==> last_redirect(target_url, chain) is None,
        chain.len() > 0 && (chain.last() matches Some(u) && u@ != target_url)
            ==> last_redirect(target_url, chain) == Some(chain.last()->0@),
        chain.len() > 0 && other.len() > 0 && chain.last() == other.last()
            ==> last_redirect(target_url, chain) == last_redirect(target_url, other),
        last_redirect(target_url, chain) matches Some(u) ==> u != target_url,
{
}

/// Checks whether `target_url` differs from the url of the last item of the
/// redirect chain of a navigation, and gives that url when it does.
pub fn get_last_redirect(target_url: &str, u: &Option<RedirectRequest>) -> (r: Option<String>)
    ensures
        opt_text(r) == match u {
            Some(req) => last_redirect(target_url@, req.redirect_chain@),
            None => None,
        },
{
    match u {
        Some(req) => {
            let n: usize = req.redirect_chain.len();
            if n == 0 {
                return None;
            }
            match &req.redirect_chain[n - 1] {
                Some(url) => response_redirect(target_url, url.as_str()),
                None => None,
            }
        },
        None => None,
    }
}

} // verus!
