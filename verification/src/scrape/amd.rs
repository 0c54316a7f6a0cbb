//! Jobs posted on AMD's careers site, for China and for the United Kingdom.
//! The Chinese listing is saved to `<dir>/huawei_uk.csv`, the file this
//! scraper is documented to write; the British listing to `<dir>/amd_gb.csv`.

use vstd::prelude::*;

use crate::text::{decimal, decimal_digits};
use crate::{empty_entry, JobEntry, JobEntryView};
use super::{
    checked_url, failure, failure_of, opt_view, or_empty, parsed_url, Action, ActionView,
    Locator, LocatorView, Outcome, OutcomeView, PauseKind, ScrapeError,
};

verus! {

/// One listing of the careers site: the country it covers, its address and
/// the CSV file its jobs go to.
#[derive(Debug)]
pub struct AmdUrl {
    pub country_code: String,
    pub url: String,
    pub save_to: String,
}

pub struct AmdUrlView {
    pub country_code: Seq<char>,
    pub url: Seq<char>,
    pub save_to: Seq<char>,
}

impl View for AmdUrl {
    type V = AmdUrlView;

    open spec fn view(&self) -> AmdUrlView {
        AmdUrlView { country_code: self.country_code@, url: self.url@, save_to: self.save_to@ }
    }
}

/// The listing address for China.
pub open spec fn cn_url() -> Seq<char> {
    "https://careers.amd.com/careers-home/jobs?page=1&location=china%20&woe=12&stretchUnit=MILES&stretch=10&sortBy=relevance&limit=100"@
}

/// The listing address for the United Kingdom.
pub open spec fn gb_url() -> Seq<char> {
    "https://careers.amd.com/careers-home/jobs?page=1&location=united%20kingdom&woe=1&stretchUnit=MILES&stretch=10&sortBy=relevance&limit=100"@
}

/// The listings scraped, in order, for raw data kept under `dir`, with the
/// file each one's jobs are saved to.
pub open spec fn amd_sites(dir: Seq<char>) -> Seq<AmdUrlView> {
    seq![
        AmdUrlView { country_code: "CN"@, url: cn_url(), save_to: dir + "/huawei_uk.csv"@ },
        AmdUrlView { country_code: "GB"@, url: gb_url(), save_to: dir + "/amd_gb.csv"@ },
    ]
}

/// The site's links are relative: this is what makes them absolute.
pub open spec fn site_prefix() -> Seq<char> {
    "https://careers.amd.com"@
}

/// CSS selector of the title of the entry numbered `id`.
pub open spec fn title_selector_spec(id: nat) -> Seq<char> {
    "#link-job-"@ + decimal_digits(id) + " > span"@
}

/// CSS selector of the link of the entry numbered `id`.
pub open spec fn link_selector_spec(id: nat) -> Seq<char> {
    "#link-job-"@ + decimal_digits(id)
}

pub open spec fn popup_button_spec() -> LocatorView {
    LocatorView::XPath("/html/body/div[7]/div[2]/div/div[1]/div/div[2]/div/button[2]"@)
}

pub open spec fn next_page_button_spec() -> LocatorView {
    LocatorView::XPath(
        "/html/body/div[2]/search-app/search-base-search-holder/search-results/div/search-job-paginator/mat-paginator/div/div/div[2]/button[2]"@,
    )
}

pub open spec fn entries_spec() -> LocatorView {
    LocatorView::Css(
        "#all-content > search-app > search-base-search-holder > search-results > div > div > div.job-results-container > search-job-cards > mat-accordion > mat-expansion-panel"@,
    )
}

/// The entry read from one job card: its title and its absolute link.
pub open spec fn entry_spec(title: Seq<char>, href: Option<Seq<char>>) -> JobEntryView {
    JobEntryView { job_title: title, apply_link: site_prefix() + or_empty(href), ..empty_entry() }
}

/// The record written for an entry found on the listing `site`.
pub open spec fn record_spec(entry: JobEntryView, site: AmdUrlView) -> JobEntryView {
    JobEntryView { location: site.country_code, company_name: "Amd"@, ..entry }
}

/// The CSS selector of the title of the entry numbered `id`.
pub fn title_selector(id: usize) -> (s: String)
    ensures
        s@ == title_selector_spec(id as nat),
{
    String::from_str("#link-job-").concat(decimal(id).as_str()).concat(" > span")
}

/// The CSS selector of the link of the entry numbered `id`.
pub fn link_selector(id: usize) -> (s: String)
    ensures
        s@ == link_selector_spec(id as nat),
{
    String::from_str("#link-job-").concat(decimal(id).as_str())
}

/// The "only allow necessary cookies" button of the cookie pop-up.
pub fn popup_button() -> (l: Locator)
    ensures
        l@ == popup_button_spec(),
{
    Locator::XPath(String::from_str("/html/body/div[7]/div[2]/div/div[1]/div/div[2]/div/button[2]"))
}

/// The paginator's "next page" button.
pub fn next_page_button() -> (l: Locator)
    ensures
        l@ == next_page_button_spec(),
{
    Locator::XPath(
        String::from_str(
            "/html/body/div[2]/search-app/search-base-search-holder/search-results/div/search-job-paginator/mat-paginator/div/div/div[2]/button[2]",
        ),
    )
}

/// The job cards of the current page (`get_all_entry`).
pub fn get_all_entry() -> (l: Locator)
    ensures
        l@ == entries_spec(),
{
    Locator::Css(
        String::from_str(
            "#all-content > search-app > search-base-search-holder > search-results > div > div > div.job-results-container > search-job-cards > mat-accordion > mat-expansion-panel",
        ),
    )
}

/// The entry made of a job card's title and `href` (which the site gives relative).
pub fn job_entry_from_elementid(title: String, href: Option<String>) -> (entry: JobEntry)
    ensures
        entry@ == entry_spec(title@, opt_view(href)),
{
    let link = match href {
        Some(h) => h,
        None => String::new(),
    };
    let mut entry = JobEntry::default();
    entry.job_title = title;
    entry.apply_link = String::from_str("https://careers.amd.com").concat(link.as_str());
    entry
}

/// Tags an entry with the listing it was found on and the company.
pub fn record_entry(entry: JobEntry, amd_url: &AmdUrl) -> (record: JobEntry)
    ensures
        record@ == record_spec(entry@, amd_url@),
{
    let mut record = entry;
    record.location = amd_url.country_code.clone();
    record.company_name = String::from_str("Amd");
    record
}

/// Where the scrape stands.
#[derive(Debug, Clone, Copy, PartialEq, Eq, Structural)]
pub enum AmdPhase {
    /// About to begin the listing numbered `site`.
    Start,
    Navigating,
    SettlingAfterNavigation,
    FindingPopup,
    WaitingForPopup,
    ClickingPopup,
    SettlingAfterPopup,
    OpeningCsv,
    Scrolling,
    SettlingInScroll,
    SettlingAfterScroll,
    Listing,
    ReadingTitle,
    ReadingLink,
    Writing,
    FindingNextPage,
    CheckingNextPage,
    PausingBeforeNextPage,
    FindingNextToClick,
    SettlingBeforeClick,
    WaitingForNext,
    ClickingNext,
    SettlingAfterClick,
    SettlingAfterPage,
    Done,
    Failed(ScrapeError),
}

/// The state of a scrape of AMD's listings.
struct AmdState {
    sites: Vec<AmdUrl>,
    site: usize,
    phase: AmdPhase,
    count: usize,
    id: usize,
    title: String,
}

pub struct AmdScraperView {
    pub sites: Seq<AmdUrlView>,
    pub site: nat,
    pub phase: AmdPhase,
    pub count: nat,
    pub id: nat,
    pub title: Seq<char>,
}

impl View for AmdState {
    type V = AmdScraperView;

    closed spec fn view(&self) -> AmdScraperView {
        AmdScraperView {
            sites: self.sites@.map_values(|u: AmdUrl| u@),
            site: self.site as nat,
            phase: self.phase,
            count: self.count as nat,
            id: self.id as nat,
            title: self.title@,
        }
    }
}

impl AmdScraperView {
    /// A listing is under way in every phase but the start and the two ends;
    /// an entry is being read in the reading and writing phases.
    pub open spec fn wf(self) -> bool {
        &&& self.site <= self.sites.len()
        &&& !(self.phase is Start || self.phase is Done || self.phase is Failed) ==> self.site
            < self.sites.len()
        &&& (self.phase is ReadingTitle || self.phase is ReadingLink || self.phase is Writing)
            ==> self.id < self.count
    }

    pub open spec fn with_phase(self, phase: AmdPhase) -> AmdScraperView {
        AmdScraperView { phase, ..self }
    }
}

/// Moves to `phase` and asks for `action`.
pub open spec fn go(s: AmdScraperView, phase: AmdPhase, action: ActionView) -> (AmdScraperView, ActionView) {
    (s.with_phase(phase), action)
}

/// Ends the scrape with `err`.
pub open spec fn stop(s: AmdScraperView, err: ScrapeError) -> (AmdScraperView, ActionView) {
    (s.with_phase(AmdPhase::Failed(err)), ActionView::Abort(err))
}

/// Begins the listing numbered `s.site`, or ends the scrape when none is left.
pub open spec fn begin_site(s: AmdScraperView) -> (AmdScraperView, ActionView) {
    if s.site < s.sites.len() {
        match parsed_url(s.sites[s.site as int].url) {
            Some(u) => go(s, AmdPhase::Navigating, ActionView::Navigate(u)),
            None => stop(s, ScrapeError::InvalidUrl),
        }
    } else {
        go(s, AmdPhase::Done, ActionView::Finish)
    }
}

/// The current listing has no further page: go on with the next one.
pub open spec fn next_site(s: AmdScraperView) -> (AmdScraperView, ActionView) {
    begin_site(AmdScraperView { site: s.site + 1, ..s })
}

/// Goes on with the entry after `s.id`, or looks for a next page after the last one.
pub open spec fn after_entry(s: AmdScraperView) -> (AmdScraperView, ActionView) {
    let id = s.id + 1;
    if id < s.count {
        (
            AmdScraperView { id, phase: AmdPhase::ReadingTitle, ..s },
            ActionView::ReadText(LocatorView::Css(title_selector_spec(id))),
        )
    } else {
        (
            AmdScraperView { id, phase: AmdPhase::FindingNextPage, ..s },
            ActionView::Find(next_page_button_spec()),
        )
    }
}

/// A pause (or another action that cannot go wrong) ended: ask for `action`.
pub open spec fn after_pause(s: AmdScraperView, e: OutcomeView, phase: AmdPhase, action: ActionView) -> (AmdScraperView, ActionView) {
    if e is Done {
        go(s, phase, action)
    } else {
        stop(s, ScrapeError::UnexpectedOutcome)
    }
}

/// A required action ended: go on if it succeeded, else stop with `kind`.
pub open spec fn after_required(s: AmdScraperView, e: OutcomeView, kind: ScrapeError, phase: AmdPhase, action: ActionView) -> (AmdScraperView, ActionView) {
    if e is Done {
        go(s, phase, action)
    } else {
        stop(s, failure_of(e, kind))
    }
}

/// The scrape's next state and request, given what came of the last request.
pub open spec fn amd_next(s: AmdScraperView, e: OutcomeView) -> (AmdScraperView, ActionView) {
    match s.phase {
        AmdPhase::Start => begin_site(s),
        AmdPhase::Navigating => after_required(
            s,
            e,
            ScrapeError::WebDriver,
            AmdPhase::SettlingAfterNavigation,
            ActionView::Pause(PauseKind::Long),
        ),
        AmdPhase::SettlingAfterNavigation => after_pause(
            s,
            e,
            AmdPhase::FindingPopup,
            ActionView::Find(popup_button_spec()),
        ),
        AmdPhase::FindingPopup => match e {
            OutcomeView::Done => go(s, AmdPhase::WaitingForPopup, ActionView::WaitClickable),
            OutcomeView::Failed => go(
                s,
                AmdPhase::SettlingAfterPopup,
                ActionView::Pause(PauseKind::Short),
            ),
            _ => stop(s, ScrapeError::UnexpectedOutcome),
        },
        AmdPhase::WaitingForPopup => after_required(
            s,
            e,
            ScrapeError::WebDriver,
            AmdPhase::ClickingPopup,
            ActionView::Click,
        ),
        AmdPhase::ClickingPopup => after_required(
            s,
            e,
            ScrapeError::WebDriver,
            AmdPhase::SettlingAfterPopup,
            ActionView::Pause(PauseKind::Short),
        ),
        AmdPhase::SettlingAfterPopup => after_pause(
            s,
            e,
            AmdPhase::OpeningCsv,
            ActionView::OpenCsv(s.sites[s.site as int].save_to),
        ),
        AmdPhase::OpeningCsv => after_required(
            s,
            e,
            ScrapeError::Csv,
            AmdPhase::Scrolling,
            ActionView::ScrollToBottom,
        ),
        AmdPhase::Scrolling => after_required(
            s,
            e,
            ScrapeError::WebDriver,
            AmdPhase::SettlingInScroll,
            ActionView::Pause(PauseKind::Short),
        ),
        AmdPhase::SettlingInScroll => after_pause(
            s,
            e,
            AmdPhase::SettlingAfterScroll,
            ActionView::Pause(PauseKind::Short),
        ),
        AmdPhase::SettlingAfterScroll => after_pause(
            s,
            e,
            AmdPhase::Listing,
            ActionView::FindAll(entries_spec()),
        ),
        AmdPhase::Listing => match e {
            OutcomeView::Count(n) => if n > 0 {
                (
                    AmdScraperView { count: n as nat, id: 0, phase: AmdPhase::ReadingTitle, ..s },
                    ActionView::ReadText(LocatorView::Css(title_selector_spec(0))),
                )
            } else {
                (
                    AmdScraperView { count: 0, id: 0, phase: AmdPhase::FindingNextPage, ..s },
                    ActionView::Find(next_page_button_spec()),
                )
            },
            _ => stop(s, failure_of(e, ScrapeError::WebDriver)),
        },
        AmdPhase::ReadingTitle => match e {
            OutcomeView::Text(t) => (
                AmdScraperView { title: t, phase: AmdPhase::ReadingLink, ..s },
                ActionView::ReadAttribute(LocatorView::Css(link_selector_spec(s.id)), "href"@),
            ),
            OutcomeView::Failed => after_entry(s),
            _ => stop(s, ScrapeError::UnexpectedOutcome),
        },
        AmdPhase::ReadingLink => match e {
            OutcomeView::Attribute(href) => go(
                s,
                AmdPhase::Writing,
                ActionView::WriteRecord(
                    record_spec(entry_spec(s.title, href), s.sites[s.site as int]),
                ),
            ),
            OutcomeView::Failed => after_entry(s),
            _ => stop(s, ScrapeError::UnexpectedOutcome),
        },
        AmdPhase::Writing => if e is Done {
            after_entry(s)
        } else {
            stop(s, failure_of(e, ScrapeError::Csv))
        },
        AmdPhase::FindingNextPage => match e {
            OutcomeView::Done => go(s, AmdPhase::CheckingNextPage, ActionView::IsClickable),
            OutcomeView::Failed => next_site(s),
            _ => stop(s, ScrapeError::UnexpectedOutcome),
        },
        AmdPhase::CheckingNextPage => match e {
            OutcomeView::Clickable(true) => go(
                s,
                AmdPhase::PausingBeforeNextPage,
                ActionView::Pause(PauseKind::Long),
            ),
            OutcomeView::Clickable(false) => next_site(s),
            _ => stop(s, failure_of(e, ScrapeError::WebDriver)),
        },
        AmdPhase::PausingBeforeNextPage => after_pause(
            s,
            e,
            AmdPhase::FindingNextToClick,
            ActionView::Find(next_page_button_spec()),
        ),
        AmdPhase::FindingNextToClick => match e {
            OutcomeView::Done => go(
                s,
                AmdPhase::SettlingBeforeClick,
                ActionView::Pause(PauseKind::Short),
            ),
            OutcomeView::Failed => go(
                s,
                AmdPhase::SettlingAfterPage,
                ActionView::Pause(PauseKind::Medium),
            ),
            _ => stop(s, ScrapeError::UnexpectedOutcome),
        },
        AmdPhase::SettlingBeforeClick => after_pause(
            s,
            e,
            AmdPhase::WaitingForNext,
            ActionView::WaitClickable,
        ),
        AmdPhase::WaitingForNext => after_required(
            s,
            e,
            ScrapeError::WebDriver,
            AmdPhase::ClickingNext,
            ActionView::Click,
        ),
        AmdPhase::ClickingNext => after_required(
            s,
            e,
            ScrapeError::WebDriver,
            AmdPhase::SettlingAfterClick,
            ActionView::Pause(PauseKind::Short),
        ),
        AmdPhase::SettlingAfterClick => after_pause(
            s,
            e,
            AmdPhase::SettlingAfterPage,
            ActionView::Pause(PauseKind::Medium),
        ),
        AmdPhase::SettlingAfterPage => after_pause(
            s,
            e,
            AmdPhase::Scrolling,
            ActionView::ScrollToBottom,
        ),
        AmdPhase::Done => (s, ActionView::Finish),
        AmdPhase::Failed(err) => (s, ActionView::Abort(err)),
    }
}

/// Builds the scrape of both listings, for raw data kept under `raw_data_dir`
/// (China first, then the United Kingdom). Each `step` then returns the next
/// request for the browser.
pub fn scrape(raw_data_dir: &str) -> (scraper: AmdScraper)
    ensures
        scraper@.sites == amd_sites(raw_data_dir@),
        scraper@.sites.len() == 2,
        scraper@.sites[0].country_code == "CN"@,
        scraper@.sites[0].url
            == "https://careers.amd.com/careers-home/jobs?page=1&location=china%20&woe=12&stretchUnit=MILES&stretch=10&sortBy=relevance&limit=100"@,
        scraper@.sites[0].save_to == raw_data_dir@ + "/huawei_uk.csv"@,
        scraper@.sites[1].country_code == "GB"@,
        scraper@.sites[1].url
            == "https://careers.amd.com/careers-home/jobs?page=1&location=united%20kingdom&woe=1&stretchUnit=MILES&stretch=10&sortBy=relevance&limit=100"@,
        scraper@.sites[1].save_to == raw_data_dir@ + "/amd_gb.csv"@,
        scraper@.site == 0,
        scraper@.phase == AmdPhase::Start,
        scraper@.count == 0,
        scraper@.id == 0,
        scraper@.title == Seq::<char>::empty(),
        scraper@.wf(),
{
    let cn = AmdUrl {
        country_code: String::from_str("CN"),
        url: String::from_str(
            "https://careers.amd.com/careers-home/jobs?page=1&location=china%20&woe=12&stretchUnit=MILES&stretch=10&sortBy=relevance&limit=100",
        ),
        save_to: String::from_str(raw_data_dir).concat("/huawei_uk.csv"),
    };
    let gb = AmdUrl {
        country_code: String::from_str("GB"),
        url: String::from_str(
            "https://careers.amd.com/careers-home/jobs?page=1&location=united%20kingdom&woe=1&stretchUnit=MILES&stretch=10&sortBy=relevance&limit=100",
        ),
        save_to: String::from_str(raw_data_dir).concat("/amd_gb.csv"),
    };
    let mut sites: Vec<AmdUrl> = Vec::new();
    sites.push(cn);
    sites.push(gb);
    let state = AmdState {
        sites,
        site: 0,
        phase: AmdPhase::Start,
        count: 0,
        id: 0,
        title: String::new(),
    };
    assert(state@.sites =~= amd_sites(raw_data_dir@));
    AmdScraper { state }
}

impl AmdState {
    /// A finished scrape of no listing.
    fn finished() -> (s: Self)
        ensures
            s@.wf(),
    {
        AmdState {
            sites: Vec::new(),
            site: 0,
            phase: AmdPhase::Done,
            count: 0,
            id: 0,
            title: String::new(),
        }
    }

    fn set_phase(&mut self, phase: AmdPhase, action: Action) -> (a: Action)
        ensures
            final(self)@ == old(self)@.with_phase(phase),
            a == action,
    {
        self.phase = phase;
        action
    }

    fn stop(&mut self, err: ScrapeError) -> (a: Action)
        ensures
            (final(self)@, a@) == stop(old(self)@, err),
    {
        self.set_phase(AmdPhase::Failed(err), Action::Abort(err))
    }

    fn begin_site(&mut self) -> (a: Action)
        requires
            old(self)@.site <= old(self)@.sites.len(),
        ensures
            (final(self)@, a@) == begin_site(old(self)@),
    {
        if self.site < self.sites.len() {
            match checked_url(self.sites[self.site].url.as_str()) {
                Ok(u) => self.set_phase(AmdPhase::Navigating, Action::Navigate(u)),
                Err(e) => self.stop(e),
            }
        } else {
            self.set_phase(AmdPhase::Done, Action::Finish)
        }
    }

    fn next_site(&mut self) -> (a: Action)
        requires
            old(self)@.wf(),
            old(self)@.site < old(self)@.sites.len(),
            !(old(self)@.phase is ReadingTitle || old(self)@.phase is ReadingLink || old(self)@.phase is Writing),
        ensures
            (final(self)@, a@) == next_site(old(self)@),
    {
        assert(self@.sites.len() == self.sites@.len());
        assert(self.site < self.sites.len());
        self.site = self.site + 1;
        self.begin_site()
    }

    fn after_entry(&mut self) -> (a: Action)
        requires
            old(self)@.wf(),
            old(self)@.id < old(self)@.count,
        ensures
            (final(self)@, a@) == after_entry(old(self)@),
    {
        self.id = self.id + 1;
        if self.id < self.count {
            let sel = title_selector(self.id);
            self.set_phase(AmdPhase::ReadingTitle, Action::ReadText(Locator::Css(sel)))
        } else {
            self.set_phase(AmdPhase::FindingNextPage, Action::Find(next_page_button()))
        }
    }

    fn after_pause(&mut self, e: &Outcome, phase: AmdPhase, action: Action) -> (a: Action)
        ensures
            (final(self)@, a@) == after_pause(old(self)@, e@, phase, action@),
    {
        match e {
            Outcome::Done => self.set_phase(phase, action),
            _ => self.stop(ScrapeError::UnexpectedOutcome),
        }
    }

    fn after_required(&mut self, e: &Outcome, kind: ScrapeError, phase: AmdPhase, action: Action) -> (a: Action)
        ensures
            (final(self)@, a@) == after_required(old(self)@, e@, kind, phase, action@),
    {
        match e {
            Outcome::Done => self.set_phase(phase, action),
            _ => {
                let err = failure(e, kind);
                self.stop(err)
            },
        }
    }

    fn step(&mut self, e: Outcome) -> (a: Action)
        requires
            old(self)@.wf(),
        ensures
            (final(self)@, a@) == amd_next(old(self)@, e@),
            final(self)@.wf(),
    {
        match self.phase {
            AmdPhase::Start => self.begin_site(),
            AmdPhase::Navigating => self.after_required(
                &e,
                ScrapeError::WebDriver,
                AmdPhase::SettlingAfterNavigation,
                Action::Pause(PauseKind::Long),
            ),
            AmdPhase::SettlingAfterNavigation => self.after_pause(
                &e,
                AmdPhase::FindingPopup,
                Action::Find(popup_button()),
            ),
            AmdPhase::FindingPopup => match e {
                Outcome::Done => self.set_phase(AmdPhase::WaitingForPopup, Action::WaitClickable),
                Outcome::Failed => self.set_phase(
                    AmdPhase::SettlingAfterPopup,
                    Action::Pause(PauseKind::Short),
                ),
                _ => self.stop(ScrapeError::UnexpectedOutcome),
            },
            AmdPhase::WaitingForPopup => self.after_required(
                &e,
                ScrapeError::WebDriver,
                AmdPhase::ClickingPopup,
                Action::Click,
            ),
            AmdPhase::ClickingPopup => self.after_required(
                &e,
                ScrapeError::WebDriver,
                AmdPhase::SettlingAfterPopup,
                Action::Pause(PauseKind::Short),
            ),
            AmdPhase::SettlingAfterPopup => {
                let path = self.sites[self.site].save_to.clone();
                self.after_pause(&e, AmdPhase::OpeningCsv, Action::OpenCsv(path))
            },
            AmdPhase::OpeningCsv => self.after_required(
                &e,
                ScrapeError::Csv,
                AmdPhase::Scrolling,
                Action::ScrollToBottom,
            ),
            AmdPhase::Scrolling => self.after_required(
                &e,
                ScrapeError::WebDriver,
                AmdPhase::SettlingInScroll,
                Action::Pause(PauseKind::Short),
            ),
            AmdPhase::SettlingInScroll => self.after_pause(
                &e,
                AmdPhase::SettlingAfterScroll,
                Action::Pause(PauseKind::Short),
            ),
            AmdPhase::SettlingAfterScroll => self.after_pause(
                &e,
                AmdPhase::Listing,
                Action::FindAll(get_all_entry()),
            ),
            AmdPhase::Listing => match e {
                Outcome::Count(n) => {
                    self.count = n;
                    self.id = 0;
                    if n > 0 {
                        let sel = title_selector(0);
                        self.set_phase(AmdPhase::ReadingTitle, Action::ReadText(Locator::Css(sel)))
                    } else {
                        self.set_phase(AmdPhase::FindingNextPage, Action::Find(next_page_button()))
                    }
                },
                _ => {
                    let err = failure(&e, ScrapeError::WebDriver);
                    self.stop(err)
                },
            },
            AmdPhase::ReadingTitle => match e {
                Outcome::Text(t) => {
                    self.title = t;
                    let sel = link_selector(self.id);
                    self.set_phase(
                        AmdPhase::ReadingLink,
                        Action::ReadAttribute(Locator::Css(sel), String::from_str("href")),
                    )
                },
                Outcome::Failed => self.after_entry(),
                _ => self.stop(ScrapeError::UnexpectedOutcome),
            },
            AmdPhase::ReadingLink => match e {
                Outcome::Attribute(href) => {
                    let entry = job_entry_from_elementid(self.title.clone(), href);
                    let record = record_entry(entry, &self.sites[self.site]);
                    self.set_phase(AmdPhase::Writing, Action::WriteRecord(record))
                },
                Outcome::Failed => self.after_entry(),
                _ => self.stop(ScrapeError::UnexpectedOutcome),
            },
            AmdPhase::Writing => match e {
                Outcome::Done => self.after_entry(),
                _ => {
                    let err = failure(&e, ScrapeError::Csv);
                    self.stop(err)
                },
            },
            AmdPhase::FindingNextPage => match e {
                Outcome::Done => self.set_phase(AmdPhase::CheckingNextPage, Action::IsClickable),
                Outcome::Failed => self.next_site(),
                _ => self.stop(ScrapeError::UnexpectedOutcome),
            },
            AmdPhase::CheckingNextPage => match e {
                Outcome::Clickable(true) => self.set_phase(
                    AmdPhase::PausingBeforeNextPage,
                    Action::Pause(PauseKind::Long),
                ),
                Outcome::Clickable(false) => self.next_site(),
                _ => {
                    let err = failure(&e, ScrapeError::WebDriver);
                    self.stop(err)
                },
            },
            AmdPhase::PausingBeforeNextPage => self.after_pause(
                &e,
                AmdPhase::FindingNextToClick,
                Action::Find(next_page_button()),
            ),
            AmdPhase::FindingNextToClick => match e {
                Outcome::Done => self.set_phase(
                    AmdPhase::SettlingBeforeClick,
                    Action::Pause(PauseKind::Short),
                ),
                Outcome::Failed => self.set_phase(
                    AmdPhase::SettlingAfterPage,
                    Action::Pause(PauseKind::Medium),
                ),
                _ => self.stop(ScrapeError::UnexpectedOutcome),
            },
            AmdPhase::SettlingBeforeClick => self.after_pause(
                &e,
                AmdPhase::WaitingForNext,
                Action::WaitClickable,
            ),
            AmdPhase::WaitingForNext => self.after_required(
                &e,
                ScrapeError::WebDriver,
                AmdPhase::ClickingNext,
                Action::Click,
            ),
            AmdPhase::ClickingNext => self.after_required(
                &e,
                ScrapeError::WebDriver,
                AmdPhase::SettlingAfterClick,
                Action::Pause(PauseKind::Short),
            ),
            AmdPhase::SettlingAfterClick => self.after_pause(
                &e,
                AmdPhase::SettlingAfterPage,
                Action::Pause(PauseKind::Medium),
            ),
            AmdPhase::SettlingAfterPage => self.after_pause(
                &e,
                AmdPhase::Scrolling,
                Action::ScrollToBottom,
            ),
            AmdPhase::Done => Action::Finish,
            AmdPhase::Failed(err) => Action::Abort(err),
        }
    }
}

/// The scrape, driven one browser action at a time: each `step` takes what
/// came of the last request and returns the next one.
pub struct AmdScraper {
    state: AmdState,
}

impl View for AmdScraper {
    type V = AmdScraperView;

    closed spec fn view(&self) -> AmdScraperView {
        self.state@
    }
}

impl AmdScraper {
    #[verifier::type_invariant]
    spec fn well_formed(self) -> bool {
        self.state@.wf()
    }

    /// Where the scrape stands.
    pub fn phase(&self) -> (p: AmdPhase)
        ensures
            p == self@.phase,
    {
        self.state.phase
    }

    /// Takes what came of the last request and returns the next one.
    pub fn step(&mut self, e: Outcome) -> (a: Action)
        ensures
            (final(self)@, a@) == amd_next(old(self)@, e@),
            final(self)@.wf(),
    {
        proof {
            use_type_invariant(&*self);
        }
        let mut state = AmdState::finished();
        std::mem::swap(&mut state, &mut self.state);
        let a = state.step(e);
        self.state = state;
        a
    }
}

/// Every step keeps the scrape well formed.
pub proof fn lemma_amd_step_keeps_wf(s: AmdScraperView, e: OutcomeView)
    requires
        s.wf(),
    ensures
        amd_next(s, e).0.wf(),
{
}

/// A finished or aborted scrape stays as it is and keeps answering the same way.
pub proof fn lemma_amd_end_is_final(s: AmdScraperView, e: OutcomeView)
    ensures
        s.phase is Done ==> amd_next(s, e) == (s, ActionView::Finish),
        s.phase matches AmdPhase::Failed(err) ==> amd_next(s, e) == (s, ActionView::Abort(err)),
{
}

/// Every record written is AMD's, carries the country of the listing it was
/// found on and the title just read, and links into the careers site.
pub proof fn lemma_amd_records_are_tagged(s: AmdScraperView, e: OutcomeView)
    requires
        s.wf(),
    ensures
        amd_next(s, e).1 matches ActionView::WriteRecord(r) ==> {
            &&& r.company_name == "Amd"@
            &&& r.location == s.sites[s.site as int].country_code
            &&& r.job_title == s.title
            &&& r.apply_link.len() >= site_prefix().len()
            &&& r.apply_link.subrange(0, site_prefix().len() as int) == site_prefix()
        },
{
    if let ActionView::WriteRecord(r) = amd_next(s, e).1 {
        if let OutcomeView::Attribute(href) = e {
            assert((site_prefix() + or_empty(href)).subrange(0, site_prefix().len() as int)
                =~= site_prefix());
        }
    }
}

/// The scrape leaves a listing for the next one only when the next-page
/// button is missing or cannot be clicked, and never goes back.
pub proof fn lemma_amd_moves_on_only_without_next_page(s: AmdScraperView, e: OutcomeView)
    requires
        s.wf(),
    ensures
        amd_next(s, e).0.site == s.site || (amd_next(s, e).0.site == s.site + 1 && ((s.phase
            is FindingNextPage && e is Failed) || (s.phase is CheckingNextPage && e
            == OutcomeView::Clickable(false)))),
        amd_next(s, e).0.sites == s.sites,
{
}

/// The scrape finishes only once every listing is done.
pub proof fn lemma_amd_finishes_after_last_listing(s: AmdScraperView, e: OutcomeView)
    requires
        s.wf(),
        !(s.phase is Done),
        amd_next(s, e).0.phase is Done,
    ensures
        amd_next(s, e).0.site == s.sites.len(),
        amd_next(s, e).1 == ActionView::Finish,
{
}

/// The cards of a page are read one after another: reading stays on the same
/// card or moves to the next, and a card that cannot be read is skipped
/// without ending the scrape.
pub proof fn lemma_amd_cards_in_order(s: AmdScraperView, e: OutcomeView)
    requires
        s.wf(),
        s.phase is ReadingTitle || s.phase is ReadingLink || s.phase is Writing,
    ensures
        amd_next(s, e).0.phase is Failed || (amd_next(s, e).0.count == s.count && (amd_next(
            s,
            e,
        ).0.id == s.id || amd_next(s, e).0.id == s.id + 1)),
        (s.phase is ReadingTitle || s.phase is ReadingLink) && e is Failed ==> !(amd_next(
            s,
            e,
        ).0.phase is Failed) && amd_next(s, e).0.id == s.id + 1,
        amd_next(s, e).0.phase is FindingNextPage ==> amd_next(s, e).0.id == s.count,
{
}

/// Each listing's records go to that listing's own CSV file: the file opened
/// is always the one of the listing under way.
pub proof fn lemma_amd_csv_per_listing(s: AmdScraperView, e: OutcomeView)
    requires
        s.wf(),
    ensures
        amd_next(s, e).1 matches ActionView::OpenCsv(p) ==> p == s.sites[s.site as int].save_to
            && amd_next(s, e).0.site == s.site,
{
}

/// A listing whose address does not parse ends the scrape before any browser action.
pub proof fn lemma_amd_rejects_bad_address(s: AmdScraperView, e: OutcomeView)
    requires
        s.phase is Start,
        s.site < s.sites.len(),
        parsed_url(s.sites[s.site as int].url) is None,
    ensures
        amd_next(s, e).1 == ActionView::Abort(ScrapeError::InvalidUrl),
{
}

/// The scrape's state and requests after a run of outcomes, one step per outcome.
pub open spec fn amd_run(s: AmdScraperView, es: Seq<OutcomeView>) -> (AmdScraperView, Seq<ActionView>)
    decreases es.len(),
{
    if es.len() == 0 {
        (s, Seq::empty())
    } else {
        let first = amd_next(s, es[0]);
        let rest = amd_run(first.0, es.drop_first());
        (rest.0, seq![first.1] + rest.1)
    }
}

/// A request that, if it writes a record, writes one of AMD's, tagged with the
/// country of one of `sites` and linking into the careers site.
pub open spec fn amd_record_ok(sites: Seq<AmdUrlView>, a: ActionView) -> bool {
    a matches ActionView::WriteRecord(r) ==> {
        &&& r.company_name == "Amd"@
        &&& exists|k: int| 0 <= k < sites.len() && r.location == #[trigger] sites[k].country_code
        &&& r.apply_link.len() >= site_prefix().len()
        &&& r.apply_link.subrange(0, site_prefix().len() as int) == site_prefix()
    }
}

/// Over a whole run, whatever the browser answers: the scrape stays well
/// formed, keeps its listings, and every record it writes is AMD's, tagged
/// with the country of one of its listings, and links into the careers site.
pub proof fn lemma_amd_run_records_tagged(s: AmdScraperView, es: Seq<OutcomeView>)
    requires
        s.wf(),
    ensures
        amd_run(s, es).0.wf(),
        amd_run(s, es).0.sites == s.sites,
        amd_run(s, es).1.len() == es.len(),
        forall|i: int| 0 <= i < es.len() ==> amd_record_ok(s.sites, #[trigger] amd_run(s, es).1[i]),
    decreases es.len(),
{
    if es.len() > 0 {
        let first = amd_next(s, es[0]);
        lemma_amd_step_keeps_wf(s, es[0]);
        lemma_amd_records_are_tagged(s, es[0]);
        lemma_amd_moves_on_only_without_next_page(s, es[0]);
        lemma_amd_run_records_tagged(first.0, es.drop_first());
        let rest = amd_run(first.0, es.drop_first());
        let acts = amd_run(s, es).1;
        assert(acts =~= seq![first.1] + rest.1);
        assert forall|i: int| 0 <= i < es.len() implies amd_record_ok(s.sites, #[trigger] acts[i]) by {
            if i == 0 {
                if let ActionView::WriteRecord(r) = first.1 {
                    assert(r.location == s.sites[s.site as int].country_code);
                }
            } else {
                assert(acts[i] == rest.1[i - 1]);
                assert(amd_record_ok(first.0.sites, rest.1[i - 1]));
            }
        }
    }
}

/// A record with every field empty but the four a job card and its listing give.
pub open spec fn card_record(title: Seq<char>, link: Seq<char>, country: Seq<char>) -> JobEntryView {
    JobEntryView {
        company_name: "Amd"@,
        job_title: title,
        apply_link: link,
        job_type_time: Seq::empty(),
        is_rolling: false,
        location: country,
        ddl: Seq::empty(),
        start_time: Seq::empty(),
        duration: Seq::empty(),
        salary: Seq::empty(),
        description: Seq::empty(),
        keyworkds: Seq::empty(),
    }
}

/// The request the scrape makes is determined by where it lands: each phase
/// has its one request, and the card requests name the card under way
/// (`#link-job-<n> > span` for its title, `#link-job-<n>` for its link), the
/// file opened is the listing's own, and a record carries the title read last.
pub proof fn lemma_amd_request_fits_phase(s: AmdScraperView, e: OutcomeView)
    requires
        s.wf(),
    ensures
        ({
            let (t, a) = amd_next(s, e);
            &&& t.phase is Navigating ==> (a matches ActionView::Navigate(u) && parsed_url(
                t.sites[t.site as int].url,
            ) == Some(u))
            &&& (t.phase is SettlingAfterNavigation || t.phase is PausingBeforeNextPage) ==> a
                == ActionView::Pause(PauseKind::Long)
            &&& t.phase is SettlingAfterPage ==> a == ActionView::Pause(PauseKind::Medium)
            &&& (t.phase is SettlingAfterPopup || t.phase is SettlingInScroll || t.phase
                is SettlingAfterScroll || t.phase is SettlingBeforeClick || t.phase
                is SettlingAfterClick) ==> a == ActionView::Pause(PauseKind::Short)
            &&& t.phase is FindingPopup ==> a == ActionView::Find(
                LocatorView::XPath("/html/body/div[7]/div[2]/div/div[1]/div/div[2]/div/button[2]"@),
            )
            &&& (t.phase is WaitingForPopup || t.phase is WaitingForNext) ==> a
                == ActionView::WaitClickable
            &&& (t.phase is ClickingPopup || t.phase is ClickingNext) ==> a == ActionView::Click
            &&& t.phase is OpeningCsv ==> a == ActionView::OpenCsv(t.sites[t.site as int].save_to)
            &&& t.phase is Scrolling ==> a == ActionView::ScrollToBottom
            &&& t.phase is Listing ==> a == ActionView::FindAll(
                LocatorView::Css(
                    "#all-content > search-app > search-base-search-holder > search-results > div > div > div.job-results-container > search-job-cards > mat-accordion > mat-expansion-panel"@,
                ),
            )
            &&& t.phase is ReadingTitle ==> a == ActionView::ReadText(
                LocatorView::Css("#link-job-"@ + decimal_digits(t.id) + " > span"@),
            )
            &&& t.phase is ReadingLink ==> a == ActionView::ReadAttribute(
                LocatorView::Css("#link-job-"@ + decimal_digits(t.id)),
                "href"@,
            )
            &&& t.phase is Writing ==> (a matches ActionView::WriteRecord(r) && r.job_title
                == t.title && r.company_name == "Amd"@ && r.location == t.sites[t.site as int].country_code)
            &&& (t.phase is FindingNextPage || t.phase is FindingNextToClick) ==> a
                == ActionView::Find(
                LocatorView::XPath(
                    "/html/body/div[2]/search-app/search-base-search-holder/search-results/div/search-job-paginator/mat-paginator/div/div/div[2]/button[2]"@,
                ),
            )
            &&& t.phase is CheckingNextPage ==> a == ActionView::IsClickable
            &&& t.phase is Done ==> a == ActionView::Finish
            &&& t.phase matches AmdPhase::Failed(err) ==> a == ActionView::Abort(err)
            &&& t.sites == s.sites
        }),
{
}

/// The cards found on a page are all visited: a count of `n` cards starts at
/// card 0 of `n` (or, with none, goes straight to the next-page search).
pub proof fn lemma_amd_count_sets_cards(s: AmdScraperView, n: usize)
    requires
        s.wf(),
        s.phase is Listing,
    ensures
        ({
            let (t, a) = amd_next(s, OutcomeView::Count(n));
            &&& t.count == n
            &&& t.id == 0
            &&& n > 0 ==> t.phase is ReadingTitle && a == ActionView::ReadText(
                LocatorView::Css("#link-job-0 > span"@),
            )
            &&& n == 0 ==> t.phase is FindingNextPage
        }),
{
    assert(decimal_digits(0) == seq!['0']);
    assert("#link-job-"@ + seq!['0'] + " > span"@ =~= "#link-job-0 > span"@) by {
        reveal_strlit("#link-job-");
        reveal_strlit(" > span");
        reveal_strlit("#link-job-0 > span");
    }
}

/// One card, read whole: after its title `title` is read, the link asked for is
/// that same card's, and the record then written carries `title`, the card's
/// own link made absolute, the listing's country and AMD's name, and nothing else.
pub proof fn lemma_amd_card_record(s: AmdScraperView, title: Seq<char>, href: Option<Seq<char>>)
    requires
        s.wf(),
        s.phase is ReadingTitle,
    ensures
        ({
            let (s1, a1) = amd_next(s, OutcomeView::Text(title));
            let (s2, a2) = amd_next(s1, OutcomeView::Attribute(href));
            &&& s1.title == title
            &&& s1.id == s.id
            &&& s1.count == s.count
            &&& a1 == ActionView::ReadAttribute(
                LocatorView::Css("#link-job-"@ + decimal_digits(s.id)),
                "href"@,
            )
            &&& a2 == ActionView::WriteRecord(
                card_record(
                    title,
                    "https://careers.amd.com"@ + or_empty(href),
                    s.sites[s.site as int].country_code,
                ),
            )
            &&& s2.id == s.id
            &&& s2.phase is Writing
        }),
{
    let (s1, a1) = amd_next(s, OutcomeView::Text(title));
    let (s2, a2) = amd_next(s1, OutcomeView::Attribute(href));
    if let ActionView::WriteRecord(r) = a2 {
        assert(r =~= card_record(
            title,
            "https://careers.amd.com"@ + or_empty(href),
            s.sites[s.site as int].country_code,
        ));
    }
}

/// Which failures end the scrape: a failed navigation, pop-up click, scroll,
/// card listing, clickability check or next-page click ends it with
/// `WebDriver`, a CSV file that cannot be opened or written with `Csv`; a
/// missing pop-up or an unreadable card does not, and a missing next-page
/// button moves on to the next listing.
pub proof fn lemma_amd_failures(s: AmdScraperView)
    requires
        s.wf(),
    ensures
        (s.phase is Navigating || s.phase is WaitingForPopup || s.phase is ClickingPopup || s.phase
            is Scrolling || s.phase is Listing || s.phase is CheckingNextPage || s.phase
            is WaitingForNext || s.phase is ClickingNext) ==> amd_next(s, OutcomeView::Failed).1
            == ActionView::Abort(ScrapeError::WebDriver),
        (s.phase is OpeningCsv || s.phase is Writing) ==> amd_next(s, OutcomeView::Failed).1
            == ActionView::Abort(ScrapeError::Csv),
        (s.phase is FindingPopup || s.phase is FindingNextToClick || s.phase is ReadingTitle
            || s.phase is ReadingLink) ==> !(amd_next(s, OutcomeView::Failed).0.phase is Failed),
        s.phase is FindingNextPage ==> amd_next(s, OutcomeView::Failed).0.site == s.site + 1
            && amd_next(s, OutcomeView::Failed).1 != ActionView::Abort(ScrapeError::WebDriver),
{
}

/// The order of a listing's work when every action succeeds: navigate, a
/// long pause, the pop-up (waited for, clicked, a short pause), the CSV file,
/// a scroll to the bottom with two short pauses, the card list, the cards
/// one after another, then the next-page check; a next page is reached by a
/// long pause, a short pause, the click, a short and a medium pause, and a
/// new scroll.
pub proof fn lemma_amd_order_on_success(s: AmdScraperView)
    requires
        s.wf(),
    ensures
        ({
            let t = amd_next(s, OutcomeView::Done).0.phase;
            &&& s.phase is Navigating ==> t is SettlingAfterNavigation
            &&& s.phase is SettlingAfterNavigation ==> t is FindingPopup
            &&& s.phase is FindingPopup ==> t is WaitingForPopup
            &&& s.phase is WaitingForPopup ==> t is ClickingPopup
            &&& s.phase is ClickingPopup ==> t is SettlingAfterPopup
            &&& s.phase is SettlingAfterPopup ==> t is OpeningCsv
            &&& s.phase is OpeningCsv ==> t is Scrolling
            &&& s.phase is Scrolling ==> t is SettlingInScroll
            &&& s.phase is SettlingInScroll ==> t is SettlingAfterScroll
            &&& s.phase is SettlingAfterScroll ==> t is Listing
            &&& s.phase is Writing && s.id + 1 < s.count ==> t is ReadingTitle
            &&& s.phase is Writing && s.id + 1 >= s.count ==> t is FindingNextPage
            &&& s.phase is FindingNextPage ==> t is CheckingNextPage
            &&& s.phase is PausingBeforeNextPage ==> t is FindingNextToClick
            &&& s.phase is FindingNextToClick ==> t is SettlingBeforeClick
            &&& s.phase is SettlingBeforeClick ==> t is WaitingForNext
            &&& s.phase is WaitingForNext ==> t is ClickingNext
            &&& s.phase is ClickingNext ==> t is SettlingAfterClick
            &&& s.phase is SettlingAfterClick ==> t is SettlingAfterPage
            &&& s.phase is SettlingAfterPage ==> t is Scrolling
        }),
        s.phase is FindingPopup ==> amd_next(s, OutcomeView::Failed).0.phase is SettlingAfterPopup,
        s.phase is FindingNextToClick ==> amd_next(s, OutcomeView::Failed).0.phase
            is SettlingAfterPage,
        s.phase is CheckingNextPage ==> amd_next(s, OutcomeView::Clickable(true)).0.phase
            is PausingBeforeNextPage,
{
}

/// Distinct cards have distinct title selectors and distinct link selectors.
pub proof fn lemma_selectors_are_distinct(a: nat, b: nat)
    requires
        a != b,
    ensures
        title_selector_spec(a) != title_selector_spec(b),
        link_selector_spec(a) != link_selector_spec(b),
{
    let p = "#link-job-"@;
    let q = " > span"@;
    if link_selector_spec(a) == link_selector_spec(b) {
        assert(decimal_digits(a) =~= link_selector_spec(a).subrange(p.len() as int, link_selector_spec(a).len() as int));
        assert(decimal_digits(b) =~= link_selector_spec(b).subrange(p.len() as int, link_selector_spec(b).len() as int));
        crate::text::lemma_decimal_injective(a, b);
    }
    if title_selector_spec(a) == title_selector_spec(b) {
        let ta = title_selector_spec(a);
        let tb = title_selector_spec(b);
        assert(decimal_digits(a) =~= ta.subrange(p.len() as int, ta.len() - q.len()));
        assert(decimal_digits(b) =~= tb.subrange(p.len() as int, tb.len() - q.len()));
        crate::text::lemma_decimal_injective(a, b);
    }
}

} // verus!
