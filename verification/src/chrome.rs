//! The decisions of the browser fetcher: which page and domain a request is
//! for, whether a page is already cached or being fetched, whether the
//! domain has room for another page, and whether a failed navigation is
//! retried.

use vstd::prelude::*;
use vstd::utf8::encode_utf8;
use crate::strings::{cowstr_text, cowstr_from_string, cowstr_as_str, get_uri_sanitized, sanitized_uri, str_equal};
use crate::body::{bytes_contents, bytes_from_vec};
use crate::redirect::{opt_text, RedirectRequest, last_redirect, get_last_redirect};

verus! {

#[verifier::external_type_specification]
#[verifier::external_body]
pub struct ExUrl(url::Url);

#[verifier::external_type_specification]
#[verifier::external_body]
pub struct ExUrlParseError(url::ParseError);

/// Whether `url::Url::parse` accepts the text as an absolute url.
pub uninterp spec fn url_parses(input: Seq<char>) -> bool;

/// `url::Url::domain` of the url that `url::Url::parse` makes of the text:
/// its host when that is a domain name (not an IP address).
pub uninterp spec fn url_domain(input: Seq<char>) -> Option<Seq<char>>;

/// A parsed url together with the text it was parsed from.
pub struct ParsedUrl {
    url: url::Url,
    source: String,
}

impl ParsedUrl {
    /// The text the url was parsed from.
    pub closed spec fn source(&self) -> Seq<char> {
        self.source@
    }
}

/// Calls `url::Url::parse`, which succeeds exactly on the texts named by
/// `url_parses`; the parsed url is kept with its text.
#[verifier::external_body]
fn parse_url(input: &str) -> (r: Result<ParsedUrl, url::ParseError>)
    ensures
        r is Ok <==> url_parses(input@),
        r matches Ok(p) ==> p.source() == input@,
{
    match url::Url::parse(input) {
        Ok(url) => Ok(ParsedUrl { url, source: input.to_string() }),
        Err(e) => Err(e),
    }
}

/// Calls `url::Url::domain` on a parsed url; the result depends only on the
/// text the url was parsed from and is named by `url_domain`.
#[verifier::external_body]
fn parsed_url_domain(p: &ParsedUrl) -> (r: Option<String>)
    ensures
        opt_text(r) == url_domain(p.source()),
{
    match p.url.domain() {
        Some(d) => Some(d.to_string()),
        None => None,
    }
}

/// Why a page cannot be fetched with the browser.
pub enum ChromeTargetError {
    /// The sanitized url does not parse.
    InvalidUrl,
    /// The url's host is not a domain name.
    NoDomain,
}

/// The page and domain a browser fetch is for.
pub struct ChromeTarget {
    /// The sanitized url of the page.
    pub uri: cowstr::CowStr,
    /// The domain of that url.
    pub domain: cowstr::CowStr,
}

/// The page a browser fetch of `input` is for (the input without a trailing
/// slash) and its domain; an error when that url does not parse or has no
/// domain name.
pub fn chrome_target(input: &str) -> (r: Result<ChromeTarget, ChromeTargetError>)
    ensures
        !url_parses(sanitized_uri(input@)) ==> r is Err && r->Err_0 is InvalidUrl,
        url_parses(sanitized_uri(input@)) && url_domain(sanitized_uri(input@)) is None
            ==> r is Err && r->Err_0 is NoDomain,
        url_parses(sanitized_uri(input@)) && url_domain(sanitized_uri(input@)) is Some ==> {
            &&& r is Ok
            &&& cowstr_text(r->Ok_0.uri) == sanitized_uri(input@)
            &&& Some(cowstr_text(r->Ok_0.domain)) == url_domain(sanitized_uri(input@))
        },
{
    let uri: cowstr::CowStr = get_uri_sanitized(input);
    let parsed: ParsedUrl = match parse_url(cowstr_as_str(&uri)) {
        Ok(p) => p,
        Err(_) => return Err(ChromeTargetError::InvalidUrl),
    };
    match parsed_url_domain(&parsed) {
        Some(d) => Ok(ChromeTarget { uri, domain: cowstr_from_string(d) }),
        None => Err(ChromeTargetError::NoDomain),
    }
}

/// Whether a cached page is complete or still being fetched.
#[derive(PartialEq, Eq, Structural, Clone, Copy, Debug)]
pub enum CachedFetchChromeState {
    Done,
    Fetching,
}

/// A page in the browser fetch cache: a fetch under way, or a fetched page
/// with its contents.
#[derive(Debug)]
pub struct CachedFetchChrome {
    payload: Option<cowstr::CowStr>,
    state: CachedFetchChromeState,
}

impl CachedFetchChrome {
    #[verifier::type_invariant]
    spec fn complete_has_payload(self) -> bool {
        self.state == CachedFetchChromeState::Done ==> self.payload is Some
    }

    /// Whether the page is fetched.
    pub closed spec fn is_done(&self) -> bool {
        self.state == CachedFetchChromeState::Done
    }

    /// The contents of a fetched page.
    pub closed spec fn contents(&self) -> Seq<char> {
        match self.payload {
            Some(p) => cowstr_text(p),
            None => Seq::empty(),
        }
    }

    /// The marker of a fetch under way.
    pub fn fetching() -> (r: CachedFetchChrome)
        ensures
            !r.is_done(),
    {
        CachedFetchChrome { payload: None, state: CachedFetchChromeState::Fetching }
    }

    /// A fetched page with its contents.
    pub fn done(contents: cowstr::CowStr) -> (r: CachedFetchChrome)
        ensures
            r.is_done(),
            r.contents() == cowstr_text(contents),
    {
        CachedFetchChrome { payload: Some(contents), state: CachedFetchChromeState::Done }
    }

    /// The state of the entry.
    pub fn state(&self) -> (r: CachedFetchChromeState)
        ensures
            (r == CachedFetchChromeState::Done) == self.is_done(),
    {
        self.state
    }
}

impl Clone for CachedFetchChrome {
    /// A copy holding the same state and contents.
    fn clone(&self) -> (r: Self)
        ensures
            r.is_done() == self.is_done(),
            r.contents() == self.contents(),
    {
        proof {
            use_type_invariant(self);
        }
        let payload: Option<cowstr::CowStr> = match &self.payload {
            Some(p) => Some(cowstr_from_string(cowstr_as_str(p).to_owned())),
            None => None,
        };
        CachedFetchChrome { payload, state: self.state }
    }
}

/// The bytes of the UTF-8 encoding of a `CowStr`'s text.
pub fn cowstr_to_bytes(s: &cowstr::CowStr) -> (r: bytes::Bytes)
    ensures
        bytes_contents(r) == encode_utf8(cowstr_text(*s)),
{
    let text: &str = cowstr_as_str(s);
    let raw: &[u8] = text.as_bytes();
    bytes_from_vec(vstd::slice::slice_to_vec(raw))
}

/// What a browser fetch does after looking its page up in the cache.
pub enum CacheDecision {
    /// This fetch registered the page as being fetched: fetch it.
    Fetch,
    /// The page is fetched: return these bytes.
    Cached(bytes::Bytes),
    /// Another fetch is under way: sleep and look again.
    Wait,
}

/// Decides on the cache entry of the page, where `fresh` says that this
/// fetch has just inserted it.
pub fn cache_decision(fresh: bool, entry: &CachedFetchChrome) -> (r: CacheDecision)
    ensures
        fresh ==> r is Fetch,
        !fresh && entry.is_done() ==> (r matches CacheDecision::Cached(b)
            && bytes_contents(b) == encode_utf8(entry.contents())),
        !fresh && !entry.is_done() ==> r is Wait,
{
    proof {
        use_type_invariant(entry);
    }
    if fresh {
        CacheDecision::Fetch
    } else {
        match &entry.payload {
            Some(p) => if entry.state == CachedFetchChromeState::Done {
                CacheDecision::Cached(cowstr_to_bytes(p))
            } else {
                CacheDecision::Wait
            },
            None => CacheDecision::Wait,
        }
    }
}

/// What a browser fetch does about the number of pages open on its domain.
pub enum DomainSlot {
    /// This fetch registered the domain with one page: go on.
    Proceed,
    /// Add one to the domain's count and go on.
    Increment,
    /// The domain is at its limit: sleep and look again.
    Wait,
}

/// Decides on the domain's count of open pages, where `fresh` says that this
/// fetch has just registered the domain.
pub fn domain_slot(fresh: bool, current: usize, limit: usize) -> (r: DomainSlot)
    ensures
        fresh ==> r is Proceed,
        !fresh && current < limit ==> r is Increment,
        !fresh && current >= limit ==> r is Wait,
{
    if fresh {
        DomainSlot::Proceed
    } else if current < limit {
        DomainSlot::Increment
    } else {
        DomainSlot::Wait
    }
}

/// The message of a navigation that the browser aborted.
pub const NAVIGATION_ABORTED: &'static str = "net::ERR_ABORTED";

/// How opening the page in the browser failed.
pub enum NewPageError {
    /// The browser answered with this message.
    ChromeMessage(String),
    /// Any other failure.
    Other,
}

/// What a browser fetch does after opening the page failed.
pub enum NavigationStep {
    /// Sleep and open the page again.
    Retry,
    /// Close the fetch and return an empty page.
    GiveUp,
}

/// An aborted navigation is retried, and every other failure gives up.
pub fn navigation_failed(error: &NewPageError) -> (r: NavigationStep)
    ensures
        (r is Retry) <==> (error matches NewPageError::ChromeMessage(m) && m@ == NAVIGATION_ABORTED@),
{
    match error {
        NewPageError::ChromeMessage(m) => if str_equal(m.as_str(), NAVIGATION_ABORTED) {
            NavigationStep::Retry
        } else {
            NavigationStep::GiveUp
        },
        NewPageError::Other => NavigationStep::GiveUp,
    }
}

/// The page returned when a browser fetch gives up: no bytes.
pub fn empty_page() -> (r: bytes::Bytes)
    ensures
        bytes_contents(r) == Seq::<u8>::empty(),
{
    bytes_from_vec(Vec::new())
}

/// The cache entry and the returned bytes for a page the browser loaded.
pub fn page_loaded(contents: &cowstr::CowStr) -> (r: (CachedFetchChrome, bytes::Bytes))
    ensures
        r.0.is_done(),
        r.0.contents() == cowstr_text(*contents),
        bytes_contents(r.1) == encode_utf8(cowstr_text(*contents)),
{
    let text: &str = cowstr_as_str(contents);
    let copy: cowstr::CowStr = cowstr_from_string(text.to_owned());
    (CachedFetchChrome::done(copy), cowstr_to_bytes(contents))
}


/// What the browser reported of a page it navigated to.
pub struct BrowserNavigation {
    /// The page's html, `None` when it could not be read.
    pub content: Option<String>,
    /// The navigation's request, `None` when waiting for the navigation
    /// failed; inside, `None` when the browser reported no request.
    pub request: Option<Option<RedirectRequest>>,
}

/// The body and redirect of a page fetched with the browser: its html (empty
/// when it could not be read) and the redirect its navigation shows.
pub fn fetch_page_html_from_browser(target_url: &str, nav: BrowserNavigation) -> (r: (Option<bytes::Bytes>, Option<String>))
    ensures
        r.0 matches Some(b) && bytes_contents(b) == match nav.content {
            Some(c) => encode_utf8(c@),
            None => Seq::<u8>::empty(),
        },
        opt_text(r.1) == match nav.request {
            Some(Some(req)) => last_redirect(target_url@, req.redirect_chain@),
            _ => None,
        },
{
    let body: bytes::Bytes = match &nav.content {
        Some(c) => bytes_from_vec(vstd::slice::slice_to_vec(c.as_str().as_bytes())),
        None => bytes_from_vec(Vec::new()),
    };
    let redirect: Option<String> = match &nav.request {
        Some(u) => get_last_redirect(target_url, u),
        None => None,
    };
    (Some(body), redirect)
}

} // verus!
