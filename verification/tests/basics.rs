use hypochlorite::scrape::{
    checked_url, long_pause, medium_pause, pause_millis, raw_scrape, short_pause, PauseKind,
    ScrapeError,
};
use hypochlorite::text::decimal;
use hypochlorite::{init, InitGuard, InitPlan, JobEntry};

#[test]
fn default_entry_is_empty() {
    let e = JobEntry::default();
    assert_eq!(e.company_name, "");
    assert_eq!(e.job_title, "");
    assert_eq!(e.apply_link, "");
    assert_eq!(e.job_type_time, "");
    assert!(!e.is_rolling);
    assert_eq!(e.location, "");
    assert_eq!(e.ddl, "");
    assert_eq!(e.start_time, "");
    assert_eq!(e.duration, "");
    assert_eq!(e.salary, "");
    assert_eq!(e.description, "");
    assert_eq!(e.keyworkds, "");
}

#[test]
fn init_proceeds_once_then_refuses() {
    let mut guard = InitGuard::new();
    assert!(!guard.has_run());
    assert_eq!(
        init(&mut guard, false, true),
        InitPlan::Proceed { create_data_dir: true, driver_missing: false }
    );
    assert!(guard.has_run());
    assert_eq!(init(&mut guard, true, true), InitPlan::AlreadyRun);
    assert_eq!(init(&mut guard, false, false), InitPlan::AlreadyRun);
}

#[test]
fn init_reports_missing_driver() {
    let mut guard = InitGuard::new();
    assert_eq!(
        init(&mut guard, true, false),
        InitPlan::Proceed { create_data_dir: false, driver_missing: true }
    );
}

#[test]
fn decimal_matches_format() {
    for n in [0usize, 7, 9, 10, 42, 100, 12345, 1000000007, usize::MAX] {
        assert_eq!(decimal(n), format!("{}", n));
    }
}

#[test]
fn pauses_stay_in_their_ranges() {
    for _ in 0..200 {
        let l = long_pause();
        assert!((2000..3000).contains(&l));
        let m = medium_pause();
        assert!((1000..2000).contains(&m));
        let s = short_pause();
        assert!((300..600).contains(&s));
        assert!((300..600).contains(&pause_millis(PauseKind::Short)));
        assert!((1000..2000).contains(&pause_millis(PauseKind::Medium)));
        assert!((2000..3000).contains(&pause_millis(PauseKind::Long)));
    }
}

#[test]
fn pauses_vary() {
    let draws: Vec<u64> = (0..200).map(|_| short_pause()).collect();
    assert!(draws.iter().any(|&d| d != 300));
    assert!(draws.iter().any(|&d| d != draws[0]));
}

#[test]
fn checked_url_normalizes() {
    assert_eq!(
        checked_url("https://huaweiuk.teamtailor.com").unwrap(),
        "https://huaweiuk.teamtailor.com/"
    );
    assert_eq!(checked_url("HTTPS://Example.COM/a/../b").unwrap(), "https://example.com/b");
}

#[test]
fn checked_url_rejects_relative_address() {
    assert_eq!(checked_url("not a url").unwrap_err(), ScrapeError::InvalidUrl);
    assert_eq!(checked_url("/careers-home/jobs").unwrap_err(), ScrapeError::InvalidUrl);
}

#[test]
fn raw_scrape_prepares_request() {
    let r = raw_scrape("https://careers.amd.com").unwrap();
    assert_eq!(r.url, "https://careers.amd.com/");
    assert!(r.cookie.starts_with("E00AD1D372569A8FB07933566EDDBB4C~"));
    assert!(r.cookie.ends_with("jeU="));
}

#[test]
fn raw_scrape_rejects_bad_address() {
    assert_eq!(raw_scrape("http://").unwrap_err(), ScrapeError::InvalidUrl);
}
