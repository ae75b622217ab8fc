use spider::chrome::{
    cache_decision, chrome_target, domain_slot, empty_page, fetch_page_html_from_browser,
    navigation_failed, page_loaded, BrowserNavigation, CacheDecision, CachedFetchChrome,
    CachedFetchChromeState, ChromeTargetError, DomainSlot, NavigationStep, NewPageError,
};
use spider::redirect::RedirectRequest;
use spider::strings::cowstr_from_str;

#[test]
fn target_of_page_url() {
    let t = chrome_target("https://subdomain.example.com/").ok().unwrap();
    assert_eq!(t.uri.as_str(), "https://subdomain.example.com");
    assert_eq!(t.domain.as_str(), "subdomain.example.com");
}

#[test]
fn target_errors() {
    assert!(matches!(chrome_target("not a url"), Err(ChromeTargetError::InvalidUrl)));
    assert!(matches!(chrome_target("https://127.0.0.1/"), Err(ChromeTargetError::NoDomain)));
}

#[test]
fn cache_decisions() {
    let fetching = CachedFetchChrome::fetching();
    assert!(matches!(cache_decision(true, &fetching), CacheDecision::Fetch));
    assert!(matches!(cache_decision(false, &fetching), CacheDecision::Wait));
    let done = CachedFetchChrome::done(cowstr_from_str("<p>hi</p>"));
    assert_eq!(done.state(), CachedFetchChromeState::Done);
    match cache_decision(false, &done) {
        CacheDecision::Cached(b) => assert_eq!(&b[..], b"<p>hi</p>"),
        _ => panic!("a fetched page is served from the cache"),
    }
    let copy = done.clone();
    assert!(matches!(cache_decision(false, &copy), CacheDecision::Cached(_)));
}

#[test]
fn domain_slot_decisions() {
    assert!(matches!(domain_slot(true, 1, 2), DomainSlot::Proceed));
    assert!(matches!(domain_slot(false, 1, 2), DomainSlot::Increment));
    assert!(matches!(domain_slot(false, 2, 2), DomainSlot::Wait));
}

#[test]
fn aborted_navigation_is_retried() {
    let aborted = NewPageError::ChromeMessage("net::ERR_ABORTED".to_string());
    assert!(matches!(navigation_failed(&aborted), NavigationStep::Retry));
    let other = NewPageError::ChromeMessage("net::ERR_FAILED".to_string());
    assert!(matches!(navigation_failed(&other), NavigationStep::GiveUp));
    assert!(matches!(navigation_failed(&NewPageError::Other), NavigationStep::GiveUp));
}

#[test]
fn loaded_page_is_cached_and_returned() {
    let contents = cowstr_from_str("<html>é</html>");
    let (entry, body) = page_loaded(&contents);
    assert_eq!(entry.state(), CachedFetchChromeState::Done);
    assert_eq!(&body[..], "<html>é</html>".as_bytes());
    assert!(empty_page().is_empty());
}

#[test]
fn browser_page_with_redirect() {
    let nav = BrowserNavigation {
        content: Some("<html/>".to_string()),
        request: Some(Some(RedirectRequest { redirect_chain: vec![Some("https://b.com/".to_string())] })),
    };
    let (body, redirect) = fetch_page_html_from_browser("https://a.com", nav);
    assert_eq!(&body.unwrap()[..], b"<html/>");
    assert_eq!(redirect, Some("https://b.com/".to_string()));
    let failed = BrowserNavigation { content: None, request: None };
    let (body, redirect) = fetch_page_html_from_browser("https://a.com", failed);
    assert!(body.unwrap().is_empty());
    assert_eq!(redirect, None);
}
