use hypochlorite::scrape::huawei::{
    job_entry_from_element, record_entry, scrape, HuaweiPhase, HuaweiScraper,
};
use hypochlorite::scrape::{Action, Locator, Outcome, PauseKind, ScrapeError};

const MORE: &str = "/html/body/main/section/turbo-frame/div/div/div/div[2]/div[3]/a/span/span";

fn expect_pause(a: Action, kind: PauseKind) {
    match a {
        Action::Pause(k) => assert_eq!(k, kind),
        other => panic!("expected a pause, got {:?}", other),
    }
}

/// Drives a fresh scraper up to the search for the "more jobs" button.
fn through_popup(m: &mut HuaweiScraper, popup: bool) {
    match m.step(Outcome::Done) {
        Action::Navigate(u) => assert_eq!(u, "https://huaweiuk.teamtailor.com/jobs"),
        other => panic!("expected navigation, got {:?}", other),
    }
    expect_pause(m.step(Outcome::Done), PauseKind::Short);
    match m.step(Outcome::Done) {
        Action::Find(Locator::XPath(x)) => assert_eq!(x, "/html/body/dialog[1]/div[2]/button[2]"),
        other => panic!("expected popup search, got {:?}", other),
    }
    if popup {
        assert!(matches!(m.step(Outcome::Done), Action::WaitClickable));
        assert!(matches!(m.step(Outcome::Done), Action::Click));
        expect_pause(m.step(Outcome::Done), PauseKind::Short);
    } else {
        expect_pause(m.step(Outcome::Failed), PauseKind::Short);
    }
    match m.step(Outcome::Done) {
        Action::Find(Locator::XPath(x)) => assert_eq!(x, MORE),
        other => panic!("expected more-jobs search, got {:?}", other),
    }
}

#[test]
fn entries_keep_their_links() {
    let e = job_entry_from_element("Researcher".to_string(), Some("https://huaweiuk.teamtailor.com/jobs/1".to_string()));
    assert_eq!(e.job_title, "Researcher");
    assert_eq!(e.apply_link, "https://huaweiuk.teamtailor.com/jobs/1");
    let r = record_entry(e);
    assert_eq!(r.location, "UK");
    assert_eq!(r.company_name, "Huawei");
    let e = job_entry_from_element("Researcher".to_string(), None);
    assert_eq!(e.apply_link, "");
}

#[test]
fn full_scrape_expands_list_then_writes_items() {
    let mut m = scrape("data");
    assert_eq!(m.phase(), HuaweiPhase::Start);
    through_popup(&mut m, true);
    // the button is there once: press it, then it is gone
    assert!(matches!(m.step(Outcome::Done), Action::ScrollIntoView));
    expect_pause(m.step(Outcome::Done), PauseKind::Long);
    assert!(matches!(m.step(Outcome::Done), Action::WaitClickable));
    assert!(matches!(m.step(Outcome::Done), Action::Click));
    expect_pause(m.step(Outcome::Done), PauseKind::Short);
    assert!(matches!(m.step(Outcome::Done), Action::Find(_)));
    match m.step(Outcome::Failed) {
        Action::OpenCsv(p) => assert_eq!(p, "data/huawei_uk.csv"),
        other => panic!("expected csv, got {:?}", other),
    }
    match m.step(Outcome::Done) {
        Action::FindAll(Locator::Css(c)) => assert_eq!(c, "#jobs_list_container > li"),
        other => panic!("expected list, got {:?}", other),
    }
    for i in 0..2usize {
        let a = if i == 0 { m.step(Outcome::Count(2)) } else { m.step(Outcome::Done) };
        match a {
            Action::ReadEntryText(k, Locator::Css(c)) => {
                assert_eq!(k, i);
                assert_eq!(c, "a > span");
            }
            other => panic!("expected item title, got {:?}", other),
        }
        match m.step(Outcome::Text(format!("Job {}", i))) {
            Action::ReadEntryAttribute(k, Locator::Css(c), attr) => {
                assert_eq!(k, i);
                assert_eq!(c, "a");
                assert_eq!(attr, "href");
            }
            other => panic!("expected item link, got {:?}", other),
        }
        match m.step(Outcome::Attribute(Some(format!("https://huaweiuk.teamtailor.com/jobs/{}", i)))) {
            Action::WriteRecord(r) => {
                assert_eq!(r.job_title, format!("Job {}", i));
                assert_eq!(r.apply_link, format!("https://huaweiuk.teamtailor.com/jobs/{}", i));
                assert_eq!(r.location, "UK");
                assert_eq!(r.company_name, "Huawei");
            }
            other => panic!("expected record, got {:?}", other),
        }
    }
    assert!(matches!(m.step(Outcome::Done), Action::Finish));
    assert_eq!(m.phase(), HuaweiPhase::Done);
    assert!(matches!(m.step(Outcome::Failed), Action::Finish));
}

#[test]
fn empty_list_finishes() {
    let mut m = scrape("x");
    through_popup(&mut m, false);
    match m.step(Outcome::Failed) {
        Action::OpenCsv(p) => assert_eq!(p, "x/huawei_uk.csv"),
        other => panic!("expected csv, got {:?}", other),
    }
    assert!(matches!(m.step(Outcome::Done), Action::FindAll(_)));
    assert!(matches!(m.step(Outcome::Count(0)), Action::Finish));
}

#[test]
fn unreadable_item_aborts() {
    let mut m = scrape("data");
    through_popup(&mut m, false);
    m.step(Outcome::Failed);
    m.step(Outcome::Done);
    assert!(matches!(m.step(Outcome::Count(3)), Action::ReadEntryText(0, _)));
    assert!(matches!(m.step(Outcome::Failed), Action::Abort(ScrapeError::WebDriver)));
    assert_eq!(m.phase(), HuaweiPhase::Failed(ScrapeError::WebDriver));
}

#[test]
fn failed_more_click_aborts() {
    let mut m = scrape("data");
    through_popup(&mut m, false);
    assert!(matches!(m.step(Outcome::Done), Action::ScrollIntoView));
    expect_pause(m.step(Outcome::Done), PauseKind::Long);
    assert!(matches!(m.step(Outcome::Done), Action::WaitClickable));
    assert!(matches!(m.step(Outcome::Failed), Action::Abort(ScrapeError::WebDriver)));
}

#[test]
fn csv_failure_aborts() {
    let mut m = scrape("data");
    through_popup(&mut m, false);
    assert!(matches!(m.step(Outcome::Failed), Action::OpenCsv(_)));
    assert!(matches!(m.step(Outcome::Failed), Action::Abort(ScrapeError::Csv)));
}
