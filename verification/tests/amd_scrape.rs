use hypochlorite::scrape::amd::{
    job_entry_from_elementid, link_selector, record_entry, scrape, title_selector, AmdPhase,
    AmdScraper, AmdUrl,
};
use hypochlorite::scrape::{Action, Locator, Outcome, PauseKind, ScrapeError};

const CN: &str = "https://careers.amd.com/careers-home/jobs?page=1&location=china%20&woe=12&stretchUnit=MILES&stretch=10&sortBy=relevance&limit=100";
const GB: &str = "https://careers.amd.com/careers-home/jobs?page=1&location=united%20kingdom&woe=1&stretchUnit=MILES&stretch=10&sortBy=relevance&limit=100";
const NEXT: &str = "/html/body/div[2]/search-app/search-base-search-holder/search-results/div/search-job-paginator/mat-paginator/div/div/div[2]/button[2]";

fn expect_pause(a: Action, kind: PauseKind) {
    match a {
        Action::Pause(k) => assert_eq!(k, kind),
        other => panic!("expected a pause, got {:?}", other),
    }
}

fn expect_css(l: &Locator, css: &str) {
    match l {
        Locator::Css(s) => assert_eq!(s, css),
        other => panic!("expected css {}, got {:?}", css, other),
    }
}

fn expect_xpath(l: &Locator, xpath: &str) {
    match l {
        Locator::XPath(s) => assert_eq!(s, xpath),
        other => panic!("expected xpath {}, got {:?}", xpath, other),
    }
}

/// Drives a fresh scraper up to the listing of the first page of the current site.
fn through_page_setup(m: &mut AmdScraper, url: &str, csv: &str, popup: bool) {
    match m.step(Outcome::Done) {
        Action::Navigate(u) => assert_eq!(u, url),
        other => panic!("expected navigation, got {:?}", other),
    }
    expect_pause(m.step(Outcome::Done), PauseKind::Long);
    match m.step(Outcome::Done) {
        Action::Find(l) => {
            expect_xpath(&l, "/html/body/div[7]/div[2]/div/div[1]/div/div[2]/div/button[2]")
        }
        other => panic!("expected popup search, got {:?}", other),
    }
    if popup {
        assert!(matches!(m.step(Outcome::Done), Action::WaitClickable));
        assert!(matches!(m.step(Outcome::Done), Action::Click));
        expect_pause(m.step(Outcome::Done), PauseKind::Short);
    } else {
        expect_pause(m.step(Outcome::Failed), PauseKind::Short);
    }
    match m.step(Outcome::Done) {
        Action::OpenCsv(p) => assert_eq!(p, csv),
        other => panic!("expected csv, got {:?}", other),
    }
    assert!(matches!(m.step(Outcome::Done), Action::ScrollToBottom));
    expect_pause(m.step(Outcome::Done), PauseKind::Short);
    expect_pause(m.step(Outcome::Done), PauseKind::Short);
    match m.step(Outcome::Done) {
        Action::FindAll(l) => expect_css(&l, "#all-content > search-app > search-base-search-holder > search-results > div > div > div.job-results-container > search-job-cards > mat-accordion > mat-expansion-panel"),
        other => panic!("expected entry list, got {:?}", other),
    }
}

#[test]
fn selectors_follow_the_card_number() {
    assert_eq!(title_selector(0), "#link-job-0 > span");
    assert_eq!(title_selector(17), "#link-job-17 > span");
    assert_eq!(link_selector(17), "#link-job-17");
}

#[test]
fn entry_links_are_made_absolute() {
    let e = job_entry_from_elementid("Engineer".to_string(), Some("/careers-home/jobs/1".to_string()));
    assert_eq!(e.job_title, "Engineer");
    assert_eq!(e.apply_link, "https://careers.amd.com/careers-home/jobs/1");
    assert_eq!(e.company_name, "");
    let e = job_entry_from_elementid("Engineer".to_string(), None);
    assert_eq!(e.apply_link, "https://careers.amd.com");
}

#[test]
fn records_carry_country_and_company() {
    let site = AmdUrl {
        country_code: "GB".to_string(),
        url: GB.to_string(),
        save_to: "out/amd_gb.csv".to_string(),
    };
    let e = job_entry_from_elementid("Designer".to_string(), Some("/x".to_string()));
    let r = record_entry(e, &site);
    assert_eq!(r.company_name, "Amd");
    assert_eq!(r.location, "GB");
    assert_eq!(r.job_title, "Designer");
    assert_eq!(r.apply_link, "https://careers.amd.com/x");
}

#[test]
fn full_scrape_of_both_listings() {
    let mut m = scrape("data");
    assert_eq!(m.phase(), AmdPhase::Start);
    through_page_setup(&mut m, CN, "data/huawei_uk.csv", false);
    // two cards: the first is written, the second cannot be read and is skipped
    match m.step(Outcome::Count(2)) {
        Action::ReadText(l) => expect_css(&l, "#link-job-0 > span"),
        other => panic!("expected title, got {:?}", other),
    }
    match m.step(Outcome::Text("Engineer".to_string())) {
        Action::ReadAttribute(l, a) => {
            expect_css(&l, "#link-job-0");
            assert_eq!(a, "href");
        }
        other => panic!("expected link, got {:?}", other),
    }
    match m.step(Outcome::Attribute(Some("/careers-home/jobs/42".to_string()))) {
        Action::WriteRecord(r) => {
            assert_eq!(r.company_name, "Amd");
            assert_eq!(r.location, "CN");
            assert_eq!(r.job_title, "Engineer");
            assert_eq!(r.apply_link, "https://careers.amd.com/careers-home/jobs/42");
            assert_eq!(r.salary, "");
        }
        other => panic!("expected record, got {:?}", other),
    }
    match m.step(Outcome::Done) {
        Action::ReadText(l) => expect_css(&l, "#link-job-1 > span"),
        other => panic!("expected title, got {:?}", other),
    }
    match m.step(Outcome::Failed) {
        Action::Find(l) => expect_xpath(&l, NEXT),
        other => panic!("expected next page search, got {:?}", other),
    }
    // a next page exists and is clickable
    assert!(matches!(m.step(Outcome::Done), Action::IsClickable));
    expect_pause(m.step(Outcome::Clickable(true)), PauseKind::Long);
    match m.step(Outcome::Done) {
        Action::Find(l) => expect_xpath(&l, NEXT),
        other => panic!("expected next page button, got {:?}", other),
    }
    expect_pause(m.step(Outcome::Done), PauseKind::Short);
    assert!(matches!(m.step(Outcome::Done), Action::WaitClickable));
    assert!(matches!(m.step(Outcome::Done), Action::Click));
    expect_pause(m.step(Outcome::Done), PauseKind::Short);
    expect_pause(m.step(Outcome::Done), PauseKind::Medium);
    assert!(matches!(m.step(Outcome::Done), Action::ScrollToBottom));
    expect_pause(m.step(Outcome::Done), PauseKind::Short);
    expect_pause(m.step(Outcome::Done), PauseKind::Short);
    assert!(matches!(m.step(Outcome::Done), Action::FindAll(_)));
    // an empty page, and no next page: on to the British listing
    assert!(matches!(m.step(Outcome::Count(0)), Action::Find(_)));
    assert!(matches!(m.step(Outcome::Done), Action::IsClickable));
    match m.step(Outcome::Clickable(false)) {
        Action::Navigate(u) => assert_eq!(u, GB),
        other => panic!("expected second listing, got {:?}", other),
    }
    expect_pause(m.step(Outcome::Done), PauseKind::Long);
    assert!(matches!(m.step(Outcome::Done), Action::Find(_)));
    assert!(matches!(m.step(Outcome::Done), Action::WaitClickable));
    assert!(matches!(m.step(Outcome::Done), Action::Click));
    expect_pause(m.step(Outcome::Done), PauseKind::Short);
    match m.step(Outcome::Done) {
        Action::OpenCsv(p) => assert_eq!(p, "data/amd_gb.csv"),
        other => panic!("expected csv, got {:?}", other),
    }
}

#[test]
fn popup_is_clicked_when_present_then_british_cards_are_tagged() {
    let mut m = scrape("raw");
    through_page_setup(&mut m, CN, "raw/huawei_uk.csv", true);
    assert!(matches!(m.step(Outcome::Count(0)), Action::Find(_)));
    match m.step(Outcome::Failed) {
        Action::Navigate(u) => assert_eq!(u, GB),
        other => panic!("expected second listing, got {:?}", other),
    }
    expect_pause(m.step(Outcome::Done), PauseKind::Long);
    assert!(matches!(m.step(Outcome::Done), Action::Find(_)));
    expect_pause(m.step(Outcome::Failed), PauseKind::Short);
    match m.step(Outcome::Done) {
        Action::OpenCsv(p) => assert_eq!(p, "raw/amd_gb.csv"),
        other => panic!("expected csv, got {:?}", other),
    }
    assert!(matches!(m.step(Outcome::Done), Action::ScrollToBottom));
    expect_pause(m.step(Outcome::Done), PauseKind::Short);
    expect_pause(m.step(Outcome::Done), PauseKind::Short);
    assert!(matches!(m.step(Outcome::Done), Action::FindAll(_)));
    assert!(matches!(m.step(Outcome::Count(1)), Action::ReadText(_)));
    assert!(matches!(m.step(Outcome::Text("Analyst".to_string())), Action::ReadAttribute(_, _)));
    match m.step(Outcome::Attribute(None)) {
        Action::WriteRecord(r) => {
            assert_eq!(r.location, "GB");
            assert_eq!(r.company_name, "Amd");
            assert_eq!(r.apply_link, "https://careers.amd.com");
        }
        other => panic!("expected record, got {:?}", other),
    }
    assert!(matches!(m.step(Outcome::Done), Action::Find(_)));
    assert!(matches!(m.step(Outcome::Failed), Action::Finish));
    assert_eq!(m.phase(), AmdPhase::Done);
    assert!(matches!(m.step(Outcome::Done), Action::Finish));
}

#[test]
fn failed_navigation_aborts() {
    let mut m = scrape("data");
    assert!(matches!(m.step(Outcome::Done), Action::Navigate(_)));
    match m.step(Outcome::Failed) {
        Action::Abort(e) => assert_eq!(e, ScrapeError::WebDriver),
        other => panic!("expected abort, got {:?}", other),
    }
    assert_eq!(m.phase(), AmdPhase::Failed(ScrapeError::WebDriver));
    assert!(matches!(m.step(Outcome::Done), Action::Abort(ScrapeError::WebDriver)));
}

#[test]
fn unopenable_csv_aborts() {
    let mut m = scrape("data");
    m.step(Outcome::Done);
    m.step(Outcome::Done);
    m.step(Outcome::Done);
    m.step(Outcome::Failed);
    assert!(matches!(m.step(Outcome::Done), Action::OpenCsv(_)));
    assert!(matches!(m.step(Outcome::Failed), Action::Abort(ScrapeError::Csv)));
}

#[test]
fn failed_write_aborts() {
    let mut m = scrape("data");
    through_page_setup(&mut m, CN, "data/huawei_uk.csv", false);
    m.step(Outcome::Count(1));
    m.step(Outcome::Text("t".to_string()));
    assert!(matches!(m.step(Outcome::Attribute(None)), Action::WriteRecord(_)));
    assert!(matches!(m.step(Outcome::Failed), Action::Abort(ScrapeError::Csv)));
}

#[test]
fn popup_click_failure_aborts() {
    let mut m = scrape("data");
    m.step(Outcome::Done);
    m.step(Outcome::Done);
    m.step(Outcome::Done);
    assert!(matches!(m.step(Outcome::Done), Action::WaitClickable));
    assert!(matches!(m.step(Outcome::Failed), Action::Abort(ScrapeError::WebDriver)));
}

#[test]
fn wrong_kind_of_answer_aborts() {
    let mut m = scrape("data");
    m.step(Outcome::Done);
    assert!(matches!(m.step(Outcome::Count(3)), Action::Abort(ScrapeError::UnexpectedOutcome)));
}

#[test]
fn clickable_check_failure_aborts() {
    let mut m = scrape("data");
    through_page_setup(&mut m, CN, "data/huawei_uk.csv", false);
    m.step(Outcome::Count(0));
    assert!(matches!(m.step(Outcome::Done), Action::IsClickable));
    assert!(matches!(m.step(Outcome::Failed), Action::Abort(ScrapeError::WebDriver)));
}
