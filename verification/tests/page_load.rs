use spider::page_load::{PageEvaluation, PageLoadStep, PageLoadWait, RETRY_MAX};
use spider::strings::{cowstr_from_str};

#[test]
fn page_with_content_is_done() {
    let mut wait = PageLoadWait::new();
    let ev = PageEvaluation::Evaluated {
        contents: "<html></html>".to_string(),
        state: Some(cowstr_from_str("loaded")),
    };
    match wait.step(ev) {
        PageLoadStep::Done { contents, state } => {
            assert_eq!(contents.as_str(), "<html></html>");
            assert_eq!(state.as_str(), "loaded");
        }
        PageLoadStep::Retry => panic!("content ends the wait"),
    }
}

#[test]
fn state_that_is_not_a_string() {
    let mut wait = PageLoadWait::new();
    let ev = PageEvaluation::Evaluated { contents: "x".to_string(), state: None };
    match wait.step(ev) {
        PageLoadStep::Done { state, .. } => assert_eq!(state.as_str(), "failure_into_value"),
        PageLoadStep::Retry => panic!("content ends the wait"),
    }
}

#[test]
fn empty_page_and_failures_retry_until_the_limit() {
    let mut wait = PageLoadWait::new();
    let mut retries = 0u32;
    loop {
        let ev = if retries % 2 == 0 {
            PageEvaluation::Failed
        } else {
            PageEvaluation::Evaluated { contents: String::new(), state: None }
        };
        match wait.step(ev) {
            PageLoadStep::Retry => retries += 1,
            PageLoadStep::Done { contents, state } => {
                assert_eq!(contents.as_str(), "");
                assert_eq!(state.as_str(), "failure_max_retries_exceeded");
                break;
            }
        }
        assert!(retries <= RETRY_MAX);
    }
    assert_eq!(retries, RETRY_MAX);
}

#[test]
fn content_after_retries_is_done() {
    let mut wait = PageLoadWait::new();
    assert!(matches!(wait.step(PageEvaluation::Failed), PageLoadStep::Retry));
    let ev = PageEvaluation::Evaluated { contents: "a".to_string(), state: Some(cowstr_from_str("pre-loaded")) };
    assert!(matches!(wait.step(ev), PageLoadStep::Done { .. }));
}
