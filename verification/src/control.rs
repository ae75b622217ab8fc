//! Messages that steer running crawls: each names the crawl's domain and
//! what the crawl is to do.

use vstd::prelude::*;

verus! {

/// What a crawl is told to do.
#[derive(PartialEq, Eq, Structural, Debug, Clone, Copy)]
pub enum Handler {
    /// Start the crawl.
    Start,
    /// Pause the crawl.
    Pause,
    /// Resume a paused crawl.
    Resume,
    /// Shut the crawl down.
    Shutdown,
}

/// The message that tells the crawl of `domain` to do `handler`.
pub fn control_message(domain: &str, handler: Handler) -> (r: (String, Handler))
    ensures
        r.0@ == domain@,
        r.1 == handler,
{
    (domain.to_owned(), handler)
}

/// The message that pauses the crawl of `domain`.
pub fn pause(domain: &str) -> (r: (String, Handler))
    ensures
        r.0@ == domain@,
        r.1 == Handler::Pause,
{
    control_message(domain, Handler::Pause)
}

/// The message that resumes the crawl of `domain`.
pub fn resume(domain: &str) -> (r: (String, Handler))
    ensures
        r.0@ == domain@,
        r.1 == Handler::Resume,
{
    control_message(domain, Handler::Resume)
}

/// The message that shuts the crawl of `domain` down.
pub fn shutdown(domain: &str) -> (r: (String, Handler))
    ensures
        r.0@ == domain@,
        r.1 == Handler::Shutdown,
{
    control_message(domain, Handler::Shutdown)
}

/// The message that restarts the crawl of `domain`.
pub fn reset(domain: &str) -> (r: (String, Handler))
    ensures
        r.0@ == domain@,
        r.1 == Handler::Start,
{
    control_message(domain, Handler::Start)
}

} // verus!
