use spider::limits::{
    configured_job_limit, get_job_max_per_domain, get_jobs_max_scraping, get_jobs_max_scraping_with,
    limit_per_domain,
    task_admission, task_release, Admission, Release, SlotView, TaskError,
};

#[test]
fn job_limit_parsing() {
    assert_eq!(configured_job_limit(Some("8")), Some(8));
    assert_eq!(configured_job_limit(Some("+12")), Some(12));
    assert_eq!(configured_job_limit(Some("0")), None);
    assert_eq!(configured_job_limit(Some("-3")), None);
    assert_eq!(configured_job_limit(Some(" 4")), None);
    assert_eq!(configured_job_limit(Some("4x")), None);
    assert_eq!(configured_job_limit(Some("")), None);
    assert_eq!(configured_job_limit(Some("+")), None);
    assert_eq!(configured_job_limit(Some("99999999999999999999999")), None);
    assert_eq!(configured_job_limit(None), None);
}

#[test]
fn per_domain_limit_defaults_to_two() {
    let (key, n) = get_job_max_per_domain(None);
    assert_eq!(key.as_str(), "JOBS_MAX_PER_DOMAIN");
    assert_eq!(n, 2);
    assert_eq!(get_job_max_per_domain(Some("abc")).1, 2);
    assert_eq!(get_job_max_per_domain(Some("5")).1, 5);
    assert_eq!(limit_per_domain(Some("0")), 2);
    assert_eq!(limit_per_domain(Some("7")), 7);
}

#[test]
fn scraping_limit_defaults_to_cpus() {
    let (key, n) = get_jobs_max_scraping(None);
    assert_eq!(key.as_str(), "JOBS_MAX_SCRAPING");
    assert_eq!(n, num_cpus::get());
    assert!(n >= 1);
    assert_eq!(get_jobs_max_scraping(Some("3")).1, 3);
}

#[test]
fn admission_decisions() {
    assert!(matches!(task_admission(SlotView::Busy, 4), Admission::Wait));
    assert!(matches!(task_admission(SlotView::Vacant, 4), Admission::Insert { count: 1 }));
    assert!(matches!(task_admission(SlotView::Occupied(1), 4), Admission::Proceed));
    assert!(matches!(task_admission(SlotView::Occupied(4), 4), Admission::Wait));
    assert!(matches!(task_admission(SlotView::Occupied(1), 1), Admission::Wait));
}

#[test]
fn release_decisions() {
    assert!(matches!(task_release(SlotView::Busy), Ok(Release::Wait)));
    assert!(matches!(task_release(SlotView::Occupied(1)), Ok(Release::Done)));
    assert!(matches!(task_release(SlotView::Vacant), Err(TaskError::NotInitialized)));
}

#[test]
fn scraping_limit_with_cpu_count() {
    let (key, n) = get_jobs_max_scraping_with(None, 6);
    assert_eq!(key.as_str(), "JOBS_MAX_SCRAPING");
    assert_eq!(n, 6);
    assert_eq!(get_jobs_max_scraping_with(Some("0"), 6).1, 6);
    assert_eq!(get_jobs_max_scraping_with(Some("3"), 6).1, 3);
}
