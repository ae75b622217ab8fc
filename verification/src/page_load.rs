//! Waiting for a browser page to finish loading: the page is asked to report
//! its ready state until it has content, with a bounded number of retries.

use vstd::prelude::*;
use crate::strings::{cowstr_text, cowstr_from_string, cowstr_from_str};

verus! {

/// How many times the wait is retried before it gives up.
pub const RETRY_MAX: u32 = 1000;

/// How long to sleep between two tries, in milliseconds.
pub const RETRY_SLEEP_MS: u64 = 1;

/// The message logged when the page could not evaluate the ready-state
/// script.
pub const EVALUATE_FAILED: &'static str = "- error page.evaluate {}";

/// The state reported when the script's value is not a string.
pub const STATE_NOT_A_STRING: &'static str = "failure_into_value";

/// The state reported when the wait gave up.
pub const RETRIES_EXCEEDED: &'static str = "failure_max_retries_exceeded";

/// What one try of the ready-state script gave.
pub enum PageEvaluation {
    /// The script ran; `contents` is the page's html (empty when it could
    /// not be read) and `state` the script's value when it is a string.
    Evaluated { contents: String, state: Option<cowstr::CowStr> },
    /// The script could not be run.
    Failed,
}

/// What the waiter does after a try.
pub enum PageLoadStep {
    /// Stop waiting and return the page contents and its load state.
    Done { contents: cowstr::CowStr, state: cowstr::CowStr },
    /// Sleep `RETRY_SLEEP_MS` and try again.
    Retry,
}

/// The state of a wait for a page to load: how many retries were made.
pub struct PageLoadWait {
    retries: u32,
}

impl PageLoadWait {
    #[verifier::type_invariant]
    spec fn within_budget(self) -> bool {
        self.retries <= RETRY_MAX
    }

    /// The number of retries made so far.
    pub closed spec fn retries(&self) -> nat {
        self.retries as nat
    }

    /// A wait that has not retried yet.
    pub fn new() -> (r: PageLoadWait)
        ensures
            r.retries() == 0,
    {
        PageLoadWait { retries: 0 }
    }

    /// Decides on the outcome of one try.  A page with content ends the
    /// wait with that content and the reported state (or
    /// `STATE_NOT_A_STRING`); otherwise the wait is retried, until
    /// `RETRY_MAX` retries were made, after which it ends with no content
    /// and `RETRIES_EXCEEDED`.
    pub fn step(&mut self, event: PageEvaluation) -> (r: PageLoadStep)
        ensures
            final(self).retries() <= RETRY_MAX,
            match event {
                PageEvaluation::Evaluated { contents, state } if contents@.len() > 0 => {
                    &&& r matches PageLoadStep::Done { contents: c, state: s }
                    &&& cowstr_text(c) == contents@
                    &&& cowstr_text(s) == match state {
                        Some(st) => cowstr_text(st),
                        None => STATE_NOT_A_STRING@,
                    }
                    &&& final(self).retries() == old(self).retries()
                },
                _ => if old(self).retries() == RETRY_MAX {
                    &&& r matches PageLoadStep::Done { contents: c, state: s }
                    &&& cowstr_text(c) == Seq::<char>::empty()
                    &&& cowstr_text(s) == RETRIES_EXCEEDED@
                    &&& final(self).retries() == old(self).retries()
                } else {
                    &&& r is Retry
                    &&& final(self).retries() == old(self).retries() + 1
                },
            },
    {
        proof {
            use_type_invariant(&*self);
        }
        match event {
            PageEvaluation::Evaluated { contents, state } => {
                if contents.as_str().unicode_len() > 0 {
                    let state_text: cowstr::CowStr = match state {
                        Some(st) => st,
                        None => cowstr_from_str(STATE_NOT_A_STRING),
                    };
                    return PageLoadStep::Done { contents: cowstr_from_string(contents), state: state_text };
                }
            },
            PageEvaluation::Failed => {},
        }
        if self.retries == RETRY_MAX {
            PageLoadStep::Done {
                contents: cowstr_from_string(String::new()),
                state: cowstr_from_str(RETRIES_EXCEEDED),
            }
        } else {
            self.retries = self.retries + 1;
            PageLoadStep::Retry
        }
    }
}

} // verus!
