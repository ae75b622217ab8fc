//! Concurrency limits: reading the configured job limits, and admitting
//! tasks into a table of running tasks keyed by name.

use vstd::prelude::*;
use crate::strings::{cowstr_text, cowstr_from_str};

verus! {

/// An ASCII decimal digit.
pub open spec fn is_decimal_digit(c: char) -> bool {
    48 <= (c as u32) && (c as u32) <= 57
}

/// The value of a string of decimal digits, most significant first.
pub open spec fn decimal_value(s: Seq<char>) -> int
    decreases s.len(),
{
    if s.len() == 0 {
        0
    } else {
        decimal_value(s.drop_last()) * 10 + (s.last() as u32 - 48)
    }
}

/// The text of an unsigned number without its optional leading `+`.
pub open spec fn unsigned_digits(s: Seq<char>) -> Seq<char> {
    if s.len() > 0 && s[0] == '+' {
        s.drop_first()
    } else {
        s
    }
}

/// What `usize::from_str` accepts: an optional `+`, then at least one ASCII
/// decimal digit and nothing else, whose value fits in a `usize`.
pub open spec fn parsed_usize(s: Seq<char>) -> Option<usize> {
    let d = unsigned_digits(s);
    if d.len() > 0 && (forall|i: int| 0 <= i < d.len() ==> is_decimal_digit(#[trigger] d[i]))
        && decimal_value(d) <= usize::MAX {
        Some(decimal_value(d) as usize)
    } else {
        None
    }
}

/// Calls `str::parse::<usize>` and keeps the value when it parsed: a string
/// parses when it is an optional `+` followed by one or more ASCII decimal
/// digits whose value fits in a `usize`.
#[verifier::external_body]
fn parse_usize(s: &str) -> (r: Option<usize>)
    ensures
        r == parsed_usize(s@),
{
    s.parse::<usize>().ok()
}

/// Calls `num_cpus::get`, the number of CPUs this process may use, which
/// depends on the machine; its documentation promises at least 1.
#[verifier::external_body]
fn num_cpus_get() -> (r: usize)
    ensures
        r >= 1,
{
    num_cpus::get()
}

/// The environment variable that bounds the jobs running per domain.
pub const JOBS_MAX_PER_DOMAIN: &'static str = "JOBS_MAX_PER_DOMAIN";

/// The environment variable that bounds the scraping jobs running at once.
pub const JOBS_MAX_SCRAPING: &'static str = "JOBS_MAX_SCRAPING";

/// The jobs per domain when the environment does not configure them.
pub const DEFAULT_JOBS_PER_DOMAIN: usize = 2;

/// The limit an environment variable's value configures: a positive number.
pub open spec fn configured_limit(value: Option<&str>) -> Option<usize> {
    match value {
        Some(v) => match parsed_usize(v@) {
            Some(x) => if x > 0 { Some(x) } else { None },
            None => None,
        },
        None => None,
    }
}

/// Every positive number a variable's value parses to is the configured
/// limit; zero, text that does not parse, and an unset variable configure
/// nothing.
pub proof fn lemma_positive_values_configure(v: &str)
    ensures
        parsed_usize(v@) is Some && parsed_usize(v@)->0 > 0 ==> configured_limit(Some(v))
            == parsed_usize(v@),
        parsed_usize(v@) == Some(0usize) ==> configured_limit(Some(v)) is None,
        parsed_usize(v@) is None ==> configured_limit(Some(v)) is None,
        configured_limit(None) is None,
        configured_limit(Some(v)) matches Some(x) ==> x > 0 && parsed_usize(v@) == Some(x),
{
}

/// The limit that an environment variable's value configures, if any.
pub fn configured_job_limit(value: Option<&str>) -> (r: Option<usize>)
    ensures
        r == configured_limit(value),
{
    match value {
        Some(v) => match parse_usize(v) {
            Some(x) => if x > 0 { Some(x) } else { None },
            None => None,
        },
        None => None,
    }
}

/// The name and value of the per-domain job limit, given the value of the
/// `JOBS_MAX_PER_DOMAIN` environment variable (`None` when it is unset or
/// not unicode): the configured positive number, else
/// `DEFAULT_JOBS_PER_DOMAIN`.
pub fn get_job_max_per_domain(env_value: Option<&str>) -> (r: (cowstr::CowStr, usize))
    ensures
        cowstr_text(r.0) == JOBS_MAX_PER_DOMAIN@,
        r.1 == match configured_limit(env_value) {
            Some(x) => x,
            None => DEFAULT_JOBS_PER_DOMAIN,
        },
        r.1 >= 1,
{
    let key: cowstr::CowStr = cowstr_from_str(JOBS_MAX_PER_DOMAIN);
    match configured_job_limit(env_value) {
        Some(x) => (key, x),
        None => (key, DEFAULT_JOBS_PER_DOMAIN),
    }
}

/// The per-domain job limit alone, given the value of the
/// `JOBS_MAX_PER_DOMAIN` environment variable.
pub fn limit_per_domain(env_value: Option<&str>) -> (r: usize)
    ensures
        r == match configured_limit(env_value) {
            Some(x) => x,
            None => DEFAULT_JOBS_PER_DOMAIN,
        },
        r >= 1,
{
    match configured_job_limit(env_value) {
        Some(x) => x,
        None => DEFAULT_JOBS_PER_DOMAIN,
    }
}

/// The name and value of the limit on scraping jobs, given the value of the
/// `JOBS_MAX_SCRAPING` environment variable and the number of CPUs
/// available: the configured positive number, else the CPU count.
pub fn get_jobs_max_scraping_with(env_value: Option<&str>, cpus: usize) -> (r: (cowstr::CowStr, usize))
    ensures
        cowstr_text(r.0) == JOBS_MAX_SCRAPING@,
        r.1 == scraping_limit(env_value, cpus),
{
    let key: cowstr::CowStr = cowstr_from_str(JOBS_MAX_SCRAPING);
    match configured_job_limit(env_value) {
        Some(x) => (key, x),
        None => (key, cpus),
    }
}

/// The scraping limit for a variable's value and a CPU count.
pub open spec fn scraping_limit(env_value: Option<&str>, cpus: usize) -> usize {
    match configured_limit(env_value) {
        Some(x) => x,
        None => cpus,
    }
}

/// The fallback of the scraping limit: a value that parses to a positive
/// number sets the limit whatever the CPU count; any other value (unset,
/// unparsable or zero) gives the CPU count, the same limit as an unset
/// variable.
pub proof fn lemma_scraping_fallback_is_cpu_count(v: &str, cpus: usize)
    ensures
        scraping_limit(None, cpus) == cpus,
        parsed_usize(v@) is Some && parsed_usize(v@)->0 > 0 ==> scraping_limit(Some(v), cpus)
            == parsed_usize(v@)->0,
        !(parsed_usize(v@) is Some && parsed_usize(v@)->0 > 0) ==> scraping_limit(Some(v), cpus)
            == cpus,
        !(parsed_usize(v@) is Some && parsed_usize(v@)->0 > 0) ==> scraping_limit(Some(v), cpus)
            == scraping_limit(None, cpus),
{
}

/// The name and value of the limit on scraping jobs, given the value of the
/// `JOBS_MAX_SCRAPING` environment variable: `get_jobs_max_scraping_with`
/// the number of CPUs this process may use (at least 1).
pub fn get_jobs_max_scraping(env_value: Option<&str>) -> (r: (cowstr::CowStr, usize))
    ensures
        cowstr_text(r.0) == JOBS_MAX_SCRAPING@,
        configured_limit(env_value) matches Some(x) ==> r.1 == x,
        r.1 >= 1,
{
    let cpus: usize = num_cpus_get();
    get_jobs_max_scraping_with(env_value, cpus)
}

/// What a table of running tasks shows for a key when it is looked at.
pub enum SlotView {
    /// The entry is locked by someone else.
    Busy,
    /// There is no entry for the key.
    Vacant,
    /// The entry holds this count.
    Occupied(usize),
}

/// What a task waiting for admission does.
pub enum Admission {
    /// Store `count` for the key and run.
    Insert { count: usize },
    /// Run, leaving the entry as it is.
    Proceed,
    /// Sleep and look again.
    Wait,
}

/// The admission of a task given what its key shows and the limit.
pub open spec fn admission_of(slot: SlotView, limit_value: usize) -> Admission {
    match slot {
        SlotView::Busy => Admission::Wait,
        SlotView::Vacant => Admission::Insert { count: 1 },
        SlotView::Occupied(v) => if v < limit_value { Admission::Proceed } else { Admission::Wait },
    }
}

/// A task runs exactly when its key is free or holds a count below the
/// limit: a locked key makes it wait, a free key is taken with a count of
/// one, and a held count `v` lets it proceed when `v < limit_value` and
/// makes it wait when `v >= limit_value`.
pub proof fn lemma_admission_follows_limit(v: usize, limit_value: usize)
    ensures
        v < limit_value ==> admission_of(SlotView::Occupied(v), limit_value) == Admission::Proceed,
        v >= limit_value ==> admission_of(SlotView::Occupied(v), limit_value) == Admission::Wait,
        admission_of(SlotView::Vacant, limit_value) == (Admission::Insert { count: 1 }),
        admission_of(SlotView::Busy, limit_value) == Admission::Wait,
{
}

/// Decides whether a task may run: a key nobody holds is taken with a count
/// of one, a key whose count is below the limit lets the task run (the count
/// is left unchanged), and otherwise the task waits.
pub fn task_admission(slot: SlotView, limit_value: usize) -> (r: Admission)
    ensures
        r == admission_of(slot, limit_value),
{
    match slot {
        SlotView::Busy => Admission::Wait,
        SlotView::Vacant => Admission::Insert { count: 1 },
        SlotView::Occupied(v) => if v < limit_value { Admission::Proceed } else { Admission::Wait },
    }
}

/// The message of the error returned when a task that was never admitted
/// finishes.
pub const TASK_NOT_INITIALIZED: &'static str = "Cannot finish a task that is not initialized.";

/// Why a finishing task was refused.
pub enum TaskError {
    /// No entry exists for the task's key.
    NotInitialized,
}

/// What a finishing task does.
pub enum Release {
    /// The task is done; the entry is left as it is.
    Done,
    /// Sleep and look again.
    Wait,
}

/// The release of a finishing task given what its key shows.
pub open spec fn release_of(slot: SlotView) -> Result<Release, TaskError> {
    match slot {
        SlotView::Busy => Ok(Release::Wait),
        SlotView::Vacant => Err(TaskError::NotInitialized),
        SlotView::Occupied(_) => Ok(Release::Done),
    }
}

/// Decides on a finishing task: a held entry ends it, a locked one makes it
/// wait, and a missing one is an error.  A held count must be positive.
pub fn task_release(slot: SlotView) -> (r: Result<Release, TaskError>)
    requires
        slot matches SlotView::Occupied(v) ==> v > 0,
    ensures
        r == release_of(slot),
{
    match slot {
        SlotView::Busy => Ok(Release::Wait),
        SlotView::Vacant => Err(TaskError::NotInitialized),
        SlotView::Occupied(_) => Ok(Release::Done),
    }
}

/// What a key shows after the admission decision was carried out: a
/// vacant key holds the inserted count, every other key is left as it was.
pub open spec fn slot_after_admission(slot: SlotView, limit_value: usize) -> SlotView {
    match admission_of(slot, limit_value) {
        Admission::Insert { count } => SlotView::Occupied(count),
        _ => slot,
    }
}

/// Refusal and admission across calls.  A finishing task is refused exactly
/// when its key has no entry, and no decision removes an entry (release and
/// waiting leave the table as it is, admission only inserts).  A task that
/// was admitted leaves its key occupied, so a later release ends without
/// error; admission only ever stores a count of one, so counts stay
/// positive.
pub proof fn lemma_admitted_tasks_release(slot: SlotView, limit_value: usize)
    ensures
        release_of(slot) is Err <==> slot is Vacant,
        admission_of(slot, limit_value) matches Admission::Insert { count } ==> count == 1,
        !(admission_of(slot, limit_value) is Wait) ==> {
            &&& slot_after_admission(slot, limit_value) is Occupied
            &&& release_of(slot_after_admission(slot, limit_value)) == Ok::<Release, TaskError>(Release::Done)
        },
        (slot matches SlotView::Occupied(v) ==> v >= 1) ==> (slot_after_admission(slot, limit_value)
            matches SlotView::Occupied(c) ==> c >= 1),
{
}

} // verus!
