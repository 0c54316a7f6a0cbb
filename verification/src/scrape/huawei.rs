//! Jobs posted on Huawei's careers site for the United Kingdom, saved to
//! `<dir>/huawei_uk.csv`.

use vstd::prelude::*;

use crate::{empty_entry, JobEntry, JobEntryView};
use super::{
    checked_url, failure, failure_of, opt_view, or_empty, parsed_url, Action, ActionView,
    Locator, LocatorView, Outcome, OutcomeView, PauseKind, ScrapeError,
};

verus! {

/// The listing's address.
pub open spec fn listing_url() -> Seq<char> {
    "https://huaweiuk.teamtailor.com/jobs"@
}

pub open spec fn popup_button_spec() -> LocatorView {
    LocatorView::XPath("/html/body/dialog[1]/div[2]/button[2]"@)
}

pub open spec fn more_jobs_button_spec() -> LocatorView {
    LocatorView::XPath("/html/body/main/section/turbo-frame/div/div/div/div[2]/div[3]/a/span/span"@)
}

pub open spec fn entries_spec() -> LocatorView {
    LocatorView::Css("#jobs_list_container > li"@)
}

pub open spec fn entry_title_spec() -> LocatorView {
    LocatorView::Css("a > span"@)
}

pub open spec fn entry_link_spec() -> LocatorView {
    LocatorView::Css("a"@)
}

/// The entry read from one list item: its title and its link, as given.
pub open spec fn entry_spec(title: Seq<char>, href: Option<Seq<char>>) -> JobEntryView {
    JobEntryView { job_title: title, apply_link: or_empty(href), ..empty_entry() }
}

/// The record written for an entry.
pub open spec fn record_spec(entry: JobEntryView) -> JobEntryView {
    JobEntryView { location: "UK"@, company_name: "Huawei"@, ..entry }
}

/// The cookie pop-up's button.
pub fn popup_button() -> (l: Locator)
    ensures
        l@ == popup_button_spec(),
{
    Locator::XPath(String::from_str("/html/body/dialog[1]/div[2]/button[2]"))
}

/// The "more jobs" button that extends the list.
pub fn more_jobs_button() -> (l: Locator)
    ensures
        l@ == more_jobs_button_spec(),
{
    Locator::XPath(
        String::from_str("/html/body/main/section/turbo-frame/div/div/div/div[2]/div[3]/a/span/span"),
    )
}

/// The items of the job list (`get_all_entry`).
pub fn get_all_entry() -> (l: Locator)
    ensures
        l@ == entries_spec(),
{
    Locator::Css(String::from_str("#jobs_list_container > li"))
}

/// The title inside a list item.
pub fn entry_title() -> (l: Locator)
    ensures
        l@ == entry_title_spec(),
{
    Locator::Css(String::from_str("a > span"))
}

/// The link inside a list item.
pub fn entry_link() -> (l: Locator)
    ensures
        l@ == entry_link_spec(),
{
    Locator::Css(String::from_str("a"))
}

/// The entry made of a list item's title and `href`.
pub fn job_entry_from_element(title: String, href: Option<String>) -> (entry: JobEntry)
    ensures
        entry@ == entry_spec(title@, opt_view(href)),
{
    let mut entry = JobEntry::default();
    entry.job_title = title;
    entry.apply_link = match href {
        Some(h) => h,
        None => String::new(),
    };
    entry
}

/// Tags an entry with the country and the company.
pub fn record_entry(entry: JobEntry) -> (record: JobEntry)
    ensures
        record@ == record_spec(entry@),
{
    let mut record = entry;
    record.location = String::from_str("UK");
    record.company_name = String::from_str("Huawei");
    record
}

/// Where the scrape stands.
#[derive(Debug, Clone, Copy, PartialEq, Eq, Structural)]
pub enum HuaweiPhase {
    Start,
    Navigating,
    SettlingAfterNavigation,
    FindingPopup,
    WaitingForPopup,
    ClickingPopup,
    SettlingAfterPopup,
    FindingMore,
    ScrollingToMore,
    SettlingBeforeMore,
    WaitingForMore,
    ClickingMore,
    SettlingAfterMore,
    OpeningCsv,
    Listing,
    ReadingTitle,
    ReadingLink,
    Writing,
    Done,
    Failed(ScrapeError),
}

/// The state of a scrape of Huawei's listing.
struct HuaweiState {
    url: String,
    save_to: String,
    phase: HuaweiPhase,
    count: usize,
    id: usize,
    title: String,
}

pub struct HuaweiScraperView {
    pub url: Seq<char>,
    pub save_to: Seq<char>,
    pub phase: HuaweiPhase,
    pub count: nat,
    pub id: nat,
    pub title: Seq<char>,
}

impl View for HuaweiState {
    type V = HuaweiScraperView;

    closed spec fn view(&self) -> HuaweiScraperView {
        HuaweiScraperView {
            url: self.url@,
            save_to: self.save_to@,
            phase: self.phase,
            count: self.count as nat,
            id: self.id as nat,
            title: self.title@,
        }
    }
}

impl HuaweiScraperView {
    /// An entry is being read in the reading and writing phases.
    pub open spec fn wf(self) -> bool {
        (self.phase is ReadingTitle || self.phase is ReadingLink || self.phase is Writing) ==> self.id
            < self.count
    }

    pub open spec fn with_phase(self, phase: HuaweiPhase) -> HuaweiScraperView {
        HuaweiScraperView { phase, ..self }
    }
}

pub open spec fn go(s: HuaweiScraperView, phase: HuaweiPhase, action: ActionView) -> (HuaweiScraperView, ActionView) {
    (s.with_phase(phase), action)
}

pub open spec fn stop(s: HuaweiScraperView, err: ScrapeError) -> (HuaweiScraperView, ActionView) {
    (s.with_phase(HuaweiPhase::Failed(err)), ActionView::Abort(err))
}

pub open spec fn after_pause(s: HuaweiScraperView, e: OutcomeView, phase: HuaweiPhase, action: ActionView) -> (HuaweiScraperView, ActionView) {
    if e is Done {
        go(s, phase, action)
    } else {
        stop(s, ScrapeError::UnexpectedOutcome)
    }
}

pub open spec fn after_required(s: HuaweiScraperView, e: OutcomeView, kind: ScrapeError, phase: HuaweiPhase, action: ActionView) -> (HuaweiScraperView, ActionView) {
    if e is Done {
        go(s, phase, action)
    } else {
        stop(s, failure_of(e, kind))
    }
}

/// Reads the entry numbered `id`, or ends the scrape after the last one.
pub open spec fn read_entry(s: HuaweiScraperView, id: nat) -> (HuaweiScraperView, ActionView) {
    if id < s.count {
        (
            HuaweiScraperView { id, phase: HuaweiPhase::ReadingTitle, ..s },
            ActionView::ReadEntryText(id as usize, entry_title_spec()),
        )
    } else {
        (HuaweiScraperView { id, phase: HuaweiPhase::Done, ..s }, ActionView::Finish)
    }
}

/// The scrape's next state and request, given what came of the last request.
pub open spec fn huawei_next(s: HuaweiScraperView, e: OutcomeView) -> (HuaweiScraperView, ActionView) {
    match s.phase {
        HuaweiPhase::Start => match parsed_url(s.url) {
            Some(u) => go(s, HuaweiPhase::Navigating, ActionView::Navigate(u)),
            None => stop(s, ScrapeError::InvalidUrl),
        },
        HuaweiPhase::Navigating => after_required(
            s,
            e,
            ScrapeError::WebDriver,
            HuaweiPhase::SettlingAfterNavigation,
            ActionView::Pause(PauseKind::Short),
        ),
        HuaweiPhase::SettlingAfterNavigation => after_pause(
            s,
            e,
            HuaweiPhase::FindingPopup,
            ActionView::Find(popup_button_spec()),
        ),
        HuaweiPhase::FindingPopup => match e {
            OutcomeView::Done => go(s, HuaweiPhase::WaitingForPopup, ActionView::WaitClickable),
            OutcomeView::Failed => go(
                s,
                HuaweiPhase::SettlingAfterPopup,
                ActionView::Pause(PauseKind::Short),
            ),
            _ => stop(s, ScrapeError::UnexpectedOutcome),
        },
        HuaweiPhase::WaitingForPopup => after_required(
            s,
            e,
            ScrapeError::WebDriver,
            HuaweiPhase::ClickingPopup,
            ActionView::Click,
        ),
        HuaweiPhase::ClickingPopup => after_required(
            s,
            e,
            ScrapeError::WebDriver,
            HuaweiPhase::SettlingAfterPopup,
            ActionView::Pause(PauseKind::Short),
        ),
        HuaweiPhase::SettlingAfterPopup => after_pause(
            s,
            e,
            HuaweiPhase::FindingMore,
            ActionView::Find(more_jobs_button_spec()),
        ),
        HuaweiPhase::FindingMore => match e {
            OutcomeView::Done => go(s, HuaweiPhase::ScrollingToMore, ActionView::ScrollIntoView),
            OutcomeView::Failed => go(s, HuaweiPhase::OpeningCsv, ActionView::OpenCsv(s.save_to)),
            _ => stop(s, ScrapeError::UnexpectedOutcome),
        },
        HuaweiPhase::ScrollingToMore => after_required(
            s,
            e,
            ScrapeError::WebDriver,
            HuaweiPhase::SettlingBeforeMore,
            ActionView::Pause(PauseKind::Long),
        ),
        HuaweiPhase::SettlingBeforeMore => after_pause(
            s,
            e,
            HuaweiPhase::WaitingForMore,
            ActionView::WaitClickable,
        ),
        HuaweiPhase::WaitingForMore => after_required(
            s,
            e,
            ScrapeError::WebDriver,
            HuaweiPhase::ClickingMore,
            ActionView::Click,
        ),
        HuaweiPhase::ClickingMore => after_required(
            s,
            e,
            ScrapeError::WebDriver,
            HuaweiPhase::SettlingAfterMore,
            ActionView::Pause(PauseKind::Short),
        ),
        HuaweiPhase::SettlingAfterMore => after_pause(
            s,
            e,
            HuaweiPhase::FindingMore,
            ActionView::Find(more_jobs_button_spec()),
        ),
        HuaweiPhase::OpeningCsv => after_required(
            s,
            e,
            ScrapeError::Csv,
            HuaweiPhase::Listing,
            ActionView::FindAll(entries_spec()),
        ),
        HuaweiPhase::Listing => match e {
            OutcomeView::Count(n) => read_entry(HuaweiScraperView { count: n as nat, ..s }, 0),
            _ => stop(s, failure_of(e, ScrapeError::WebDriver)),
        },
        HuaweiPhase::ReadingTitle => match e {
            OutcomeView::Text(t) => (
                HuaweiScraperView { title: t, phase: HuaweiPhase::ReadingLink, ..s },
                ActionView::ReadEntryAttribute(s.id as usize, entry_link_spec(), "href"@),
            ),
            _ => stop(s, failure_of(e, ScrapeError::WebDriver)),
        },
        HuaweiPhase::ReadingLink => match e {
            OutcomeView::Attribute(href) => go(
                s,
                HuaweiPhase::Writing,
                ActionView::WriteRecord(record_spec(entry_spec(s.title, href))),
            ),
            _ => stop(s, failure_of(e, ScrapeError::WebDriver)),
        },
        HuaweiPhase::Writing => if e is Done {
            read_entry(s, s.id + 1)
        } else {
            stop(s, failure_of(e, ScrapeError::Csv))
        },
        HuaweiPhase::Done => (s, ActionView::Finish),
        HuaweiPhase::Failed(err) => (s, ActionView::Abort(err)),
    }
}

/// Builds the scrape of the listing, for raw data kept under `raw_data_dir`.
/// Each `step` then returns the next request for the browser.
pub fn scrape(raw_data_dir: &str) -> (scraper: HuaweiScraper)
    ensures
        scraper@.url == listing_url(),
        scraper@.url == "https://huaweiuk.teamtailor.com/jobs"@,
        scraper@.save_to == raw_data_dir@ + "/huawei_uk.csv"@,
        scraper@.phase == HuaweiPhase::Start,
        scraper@.count == 0,
        scraper@.id == 0,
        scraper@.title == Seq::<char>::empty(),
        scraper@.wf(),
{
    let state = HuaweiState {
        url: String::from_str("https://huaweiuk.teamtailor.com/jobs"),
        save_to: String::from_str(raw_data_dir).concat("/huawei_uk.csv"),
        phase: HuaweiPhase::Start,
        count: 0,
        id: 0,
        title: String::new(),
    };
    HuaweiScraper { state }
}

impl HuaweiState {
    /// A finished scrape.
    fn finished() -> (s: Self)
        ensures
            s@.wf(),
    {
        HuaweiState {
            url: String::new(),
            save_to: String::new(),
            phase: HuaweiPhase::Done,
            count: 0,
            id: 0,
            title: String::new(),
        }
    }

    fn set_phase(&mut self, phase: HuaweiPhase, action: Action) -> (a: Action)
        ensures
            final(self)@ == old(self)@.with_phase(phase),
            a == action,
    {
        self.phase = phase;
        action
    }

    fn stop(&mut self, err: ScrapeError) -> (a: Action)
        ensures
            (final(self)@, a@) == stop(old(self)@, err),
    {
        self.set_phase(HuaweiPhase::Failed(err), Action::Abort(err))
    }

    fn after_pause(&mut self, e: &Outcome, phase: HuaweiPhase, action: Action) -> (a: Action)
        ensures
            (final(self)@, a@) == after_pause(old(self)@, e@, phase, action@),
    {
        match e {
            Outcome::Done => self.set_phase(phase, action),
            _ => self.stop(ScrapeError::UnexpectedOutcome),
        }
    }

    fn after_required(&mut self, e: &Outcome, kind: ScrapeError, phase: HuaweiPhase, action: Action) -> (a: Action)
        ensures
            (final(self)@, a@) == after_required(old(self)@, e@, kind, phase, action@),
    {
        match e {
            Outcome::Done => self.set_phase(phase, action),
            _ => {
                let err = failure(e, kind);
                self.stop(err)
            },
        }
    }

    fn read_entry(&mut self, id: usize) -> (a: Action)
        ensures
            (final(self)@, a@) == read_entry(old(self)@, id as nat),
    {
        self.id = id;
        if id < self.count {
            self.set_phase(HuaweiPhase::ReadingTitle, Action::ReadEntryText(id, entry_title()))
        } else {
            self.set_phase(HuaweiPhase::Done, Action::Finish)
        }
    }

    fn step(&mut self, e: Outcome) -> (a: Action)
        requires
            old(self)@.wf(),
        ensures
            (final(self)@, a@) == huawei_next(old(self)@, e@),
            final(self)@.wf(),
    {
        match self.phase {
            HuaweiPhase::Start => match checked_url(self.url.as_str()) {
                Ok(u) => self.set_phase(HuaweiPhase::Navigating, Action::Navigate(u)),
                Err(err) => self.stop(err),
            },
            HuaweiPhase::Navigating => self.after_required(
                &e,
                ScrapeError::WebDriver,
                HuaweiPhase::SettlingAfterNavigation,
                Action::Pause(PauseKind::Short),
            ),
            HuaweiPhase::SettlingAfterNavigation => self.after_pause(
                &e,
                HuaweiPhase::FindingPopup,
                Action::Find(popup_button()),
            ),
            HuaweiPhase::FindingPopup => match e {
                Outcome::Done => self.set_phase(HuaweiPhase::WaitingForPopup, Action::WaitClickable),
                Outcome::Failed => self.set_phase(
                    HuaweiPhase::SettlingAfterPopup,
                    Action::Pause(PauseKind::Short),
                ),
                _ => self.stop(ScrapeError::UnexpectedOutcome),
            },
            HuaweiPhase::WaitingForPopup => self.after_required(
                &e,
                ScrapeError::WebDriver,
                HuaweiPhase::ClickingPopup,
                Action::Click,
            ),
            HuaweiPhase::ClickingPopup => self.after_required(
                &e,
                ScrapeError::WebDriver,
                HuaweiPhase::SettlingAfterPopup,
                Action::Pause(PauseKind::Short),
            ),
            HuaweiPhase::SettlingAfterPopup => self.after_pause(
                &e,
                HuaweiPhase::FindingMore,
                Action::Find(more_jobs_button()),
            ),
            HuaweiPhase::FindingMore => match e {
                Outcome::Done => self.set_phase(HuaweiPhase::ScrollingToMore, Action::ScrollIntoView),
                Outcome::Failed => {
                    let path = self.save_to.clone();
                    self.set_phase(HuaweiPhase::OpeningCsv, Action::OpenCsv(path))
                },
                _ => self.stop(ScrapeError::UnexpectedOutcome),
            },
            HuaweiPhase::ScrollingToMore => self.after_required(
                &e,
                ScrapeError::WebDriver,
                HuaweiPhase::SettlingBeforeMore,
                Action::Pause(PauseKind::Long),
            ),
            HuaweiPhase::SettlingBeforeMore => self.after_pause(
                &e,
                HuaweiPhase::WaitingForMore,
                Action::WaitClickable,
            ),
            HuaweiPhase::WaitingForMore => self.after_required(
                &e,
                ScrapeError::WebDriver,
                HuaweiPhase::ClickingMore,
                Action::Click,
            ),
            HuaweiPhase::ClickingMore => self.after_required(
                &e,
                ScrapeError::WebDriver,
                HuaweiPhase::SettlingAfterMore,
                Action::Pause(PauseKind::Short),
            ),
            HuaweiPhase::SettlingAfterMore => self.after_pause(
                &e,
                HuaweiPhase::FindingMore,
                Action::Find(more_jobs_button()),
            ),
            HuaweiPhase::OpeningCsv => self.after_required(
                &e,
                ScrapeError::Csv,
                HuaweiPhase::Listing,
                Action::FindAll(get_all_entry()),
            ),
            HuaweiPhase::Listing => match e {
                Outcome::Count(n) => {
                    self.count = n;
                    self.read_entry(0)
                },
                _ => {
                    let err = failure(&e, ScrapeError::WebDriver);
                    self.stop(err)
                },
            },
            HuaweiPhase::ReadingTitle => match e {
                Outcome::Text(t) => {
                    self.title = t;
                    self.set_phase(
                        HuaweiPhase::ReadingLink,
                        Action::ReadEntryAttribute(self.id, entry_link(), String::from_str("href")),
                    )
                },
                _ => {
                    let err = failure(&e, ScrapeError::WebDriver);
                    self.stop(err)
                },
            },
            HuaweiPhase::ReadingLink => match e {
                Outcome::Attribute(href) => {
                    let entry = job_entry_from_element(self.title.clone(), href);
                    let record = record_entry(entry);
                    self.set_phase(HuaweiPhase::Writing, Action::WriteRecord(record))
                },
                _ => {
                    let err = failure(&e, ScrapeError::WebDriver);
                    self.stop(err)
                },
            },
            HuaweiPhase::Writing => match e {
                Outcome::Done => self.read_entry(self.id + 1),
                _ => {
                    let err = failure(&e, ScrapeError::Csv);
                    self.stop(err)
                },
            },
            HuaweiPhase::Done => Action::Finish,
            HuaweiPhase::Failed(err) => Action::Abort(err),
        }
    }
}

/// The scrape, driven one browser action at a time: each `step` takes what
/// came of the last request and returns the next one.
pub struct HuaweiScraper {
    state: HuaweiState,
}

impl View for HuaweiScraper {
    type V = HuaweiScraperView;

    closed spec fn view(&self) -> HuaweiScraperView {
        self.state@
    }
}

impl HuaweiScraper {
    #[verifier::type_invariant]
    spec fn well_formed(self) -> bool {
        self.state@.wf()
    }

    /// Where the scrape stands.
    pub fn phase(&self) -> (p: HuaweiPhase)
        ensures
            p == self@.phase,
    {
        self.state.phase
    }

    /// Takes what came of the last request and returns the next one.
    pub fn step(&mut self, e: Outcome) -> (a: Action)
        ensures
            (final(self)@, a@) == huawei_next(old(self)@, e@),
            final(self)@.wf(),
    {
        proof {
            use_type_invariant(&*self);
        }
        let mut state = HuaweiState::finished();
        std::mem::swap(&mut state, &mut self.state);
        let a = state.step(e);
        self.state = state;
        a
    }
}

/// Every step keeps the scrape well formed.
pub proof fn lemma_huawei_step_keeps_wf(s: HuaweiScraperView, e: OutcomeView)
    requires
        s.wf(),
    ensures
        huawei_next(s, e).0.wf(),
{
}

/// A finished or aborted scrape stays as it is and keeps answering the same way.
pub proof fn lemma_huawei_end_is_final(s: HuaweiScraperView, e: OutcomeView)
    ensures
        s.phase is Done ==> huawei_next(s, e) == (s, ActionView::Finish),
        s.phase matches HuaweiPhase::Failed(err) ==> huawei_next(s, e) == (s, ActionView::Abort(err)),
{
}

/// Every record written is Huawei's, located in the UK, with the title just
/// read and the link exactly as the page gave it.
pub proof fn lemma_huawei_records_are_tagged(s: HuaweiScraperView, e: OutcomeView)
    ensures
        huawei_next(s, e).1 matches ActionView::WriteRecord(r) ==> {
            &&& r.company_name == "Huawei"@
            &&& r.location == "UK"@
            &&& r.job_title == s.title
            &&& e matches OutcomeView::Attribute(href) && r.apply_link == or_empty(href)
        },
{
}

/// Unlike AMD's cards, a list item that cannot be read ends the scrape.
pub proof fn lemma_huawei_unreadable_item_aborts(s: HuaweiScraperView, e: OutcomeView)
    requires
        s.phase is ReadingTitle || s.phase is ReadingLink,
        e is Failed,
    ensures
        huawei_next(s, e).1 == ActionView::Abort(ScrapeError::WebDriver),
{
}

/// The items are read in order, each index below the count of items found,
/// and the scrape finishes right after the last one is written.
pub proof fn lemma_huawei_items_in_order(s: HuaweiScraperView, e: OutcomeView)
    requires
        s.wf(),
        s.phase is Writing,
        e is Done,
    ensures
        s.id + 1 < s.count ==> huawei_next(s, e).1 == ActionView::ReadEntryText(
            (s.id + 1) as usize,
            entry_title_spec(),
        ),
        s.id + 1 == s.count ==> huawei_next(s, e).1 == ActionView::Finish,
{
}

/// The "more jobs" button is pressed as long as it is there; once it is gone
/// the CSV file is opened.
pub proof fn lemma_huawei_expands_list_until_button_gone(s: HuaweiScraperView, e: OutcomeView)
    requires
        s.phase is FindingMore,
    ensures
        e is Done ==> huawei_next(s, e).1 == ActionView::ScrollIntoView,
        e is Failed ==> huawei_next(s, e).1 == ActionView::OpenCsv(s.save_to),
{
}

/// A record with every field empty but the title, the link, "UK" and Huawei's name.
pub open spec fn item_record(title: Seq<char>, link: Seq<char>) -> JobEntryView {
    JobEntryView {
        company_name: "Huawei"@,
        job_title: title,
        apply_link: link,
        job_type_time: Seq::empty(),
        is_rolling: false,
        location: "UK"@,
        ddl: Seq::empty(),
        start_time: Seq::empty(),
        duration: Seq::empty(),
        salary: Seq::empty(),
        description: Seq::empty(),
        keyworkds: Seq::empty(),
    }
}

/// The request the scrape makes is determined by where it lands: each phase
/// has its one request; every search made while expanding the list is for the
/// "more jobs" button, the file opened is the scrape's own, and the item
/// requests name the item under way.
pub proof fn lemma_huawei_request_fits_phase(s: HuaweiScraperView, e: OutcomeView)
    requires
        s.wf(),
    ensures
        ({
            let (t, a) = huawei_next(s, e);
            &&& t.phase is Navigating ==> (a matches ActionView::Navigate(u) && parsed_url(t.url)
                == Some(u))
            &&& t.phase is SettlingBeforeMore ==> a == ActionView::Pause(PauseKind::Long)
            &&& (t.phase is SettlingAfterNavigation || t.phase is SettlingAfterPopup || t.phase
                is SettlingAfterMore) ==> a == ActionView::Pause(PauseKind::Short)
            &&& t.phase is FindingPopup ==> a == ActionView::Find(
                LocatorView::XPath("/html/body/dialog[1]/div[2]/button[2]"@),
            )
            &&& t.phase is FindingMore ==> a == ActionView::Find(
                LocatorView::XPath(
                    "/html/body/main/section/turbo-frame/div/div/div/div[2]/div[3]/a/span/span"@,
                ),
            )
            &&& t.phase is ScrollingToMore ==> a == ActionView::ScrollIntoView
            &&& (t.phase is WaitingForPopup || t.phase is WaitingForMore) ==> a
                == ActionView::WaitClickable
            &&& (t.phase is ClickingPopup || t.phase is ClickingMore) ==> a == ActionView::Click
            &&& t.phase is OpeningCsv ==> a == ActionView::OpenCsv(t.save_to)
            &&& t.phase is Listing ==> a == ActionView::FindAll(
                LocatorView::Css("#jobs_list_container > li"@),
            )
            &&& t.phase is ReadingTitle ==> a == ActionView::ReadEntryText(
                t.id as usize,
                LocatorView::Css("a > span"@),
            )
            &&& t.phase is ReadingLink ==> a == ActionView::ReadEntryAttribute(
                t.id as usize,
                LocatorView::Css("a"@),
                "href"@,
            )
            &&& t.phase is Writing ==> (a matches ActionView::WriteRecord(r) && r.job_title
                == t.title && r.company_name == "Huawei"@ && r.location == "UK"@)
            &&& t.phase is Done ==> a == ActionView::Finish
            &&& t.phase matches HuaweiPhase::Failed(err) ==> a == ActionView::Abort(err)
            &&& t.url == s.url
            &&& t.save_to == s.save_to
        }),
{
}

/// After a press of the "more jobs" button has settled, the button is looked
/// for again: the list is expanded for as long as the button is there.
pub proof fn lemma_huawei_presses_more_again(s: HuaweiScraperView)
    requires
        s.phase is SettlingAfterMore,
    ensures
        huawei_next(s, OutcomeView::Done).0.phase is FindingMore,
        huawei_next(s, OutcomeView::Done).1 == ActionView::Find(
            LocatorView::XPath(
                "/html/body/main/section/turbo-frame/div/div/div/div[2]/div[3]/a/span/span"@,
            ),
        ),
{
}

/// Every item found is visited: a count of `n` items starts at item 0 of `n`
/// (or, with none, finishes).
pub proof fn lemma_huawei_count_sets_items(s: HuaweiScraperView, n: usize)
    requires
        s.phase is Listing,
    ensures
        ({
            let (t, a) = huawei_next(s, OutcomeView::Count(n));
            &&& t.count == n
            &&& t.id == 0
            &&& n > 0 ==> a == ActionView::ReadEntryText(0, LocatorView::Css("a > span"@))
            &&& n == 0 ==> a == ActionView::Finish
        }),
{
}

/// One item, read whole: the link asked for is the same item's, and the
/// record then written carries the title just read, the link as given, "UK"
/// and Huawei's name, and nothing else.
pub proof fn lemma_huawei_item_record(s: HuaweiScraperView, title: Seq<char>, href: Option<Seq<char>>)
    requires
        s.wf(),
        s.phase is ReadingTitle,
    ensures
        ({
            let (s1, a1) = huawei_next(s, OutcomeView::Text(title));
            let (s2, a2) = huawei_next(s1, OutcomeView::Attribute(href));
            &&& s1.title == title
            &&& s1.id == s.id
            &&& s1.count == s.count
            &&& a1 == ActionView::ReadEntryAttribute(s.id as usize, LocatorView::Css("a"@), "href"@)
            &&& a2 == ActionView::WriteRecord(item_record(title, or_empty(href)))
            &&& s2.id == s.id
        }),
{
    let (s1, a1) = huawei_next(s, OutcomeView::Text(title));
    let (s2, a2) = huawei_next(s1, OutcomeView::Attribute(href));
    if let ActionView::WriteRecord(r) = a2 {
        assert(r =~= item_record(title, or_empty(href)));
    }
}

/// Which failures end the scrape: a failed navigation, pop-up or button
/// click, scroll, listing or item read ends it with `WebDriver`, a CSV file
/// that cannot be opened or written with `Csv`; a missing pop-up or a missing
/// "more jobs" button does not.
pub proof fn lemma_huawei_failures(s: HuaweiScraperView)
    requires
        s.wf(),
    ensures
        (s.phase is Navigating || s.phase is WaitingForPopup || s.phase is ClickingPopup || s.phase
            is ScrollingToMore || s.phase is WaitingForMore || s.phase is ClickingMore || s.phase
            is Listing || s.phase is ReadingTitle || s.phase is ReadingLink) ==> huawei_next(
            s,
            OutcomeView::Failed,
        ).1 == ActionView::Abort(ScrapeError::WebDriver),
        (s.phase is OpeningCsv || s.phase is Writing) ==> huawei_next(s, OutcomeView::Failed).1
            == ActionView::Abort(ScrapeError::Csv),
        (s.phase is FindingPopup || s.phase is FindingMore) ==> !(huawei_next(
            s,
            OutcomeView::Failed,
        ).0.phase is Failed),
{
}

/// The order of the work when every action succeeds: navigate, a short
/// pause, the pop-up (waited for, clicked, a short pause), then rounds of the
/// "more jobs" button (scrolled into view, a long pause, waited for, clicked,
/// a short pause) until it is gone, then the CSV file, the list and the items.
pub proof fn lemma_huawei_order_on_success(s: HuaweiScraperView)
    requires
        s.wf(),
    ensures
        ({
            let t = huawei_next(s, OutcomeView::Done).0.phase;
            &&& s.phase is Navigating ==> t is SettlingAfterNavigation
            &&& s.phase is SettlingAfterNavigation ==> t is FindingPopup
            &&& s.phase is FindingPopup ==> t is WaitingForPopup
            &&& s.phase is WaitingForPopup ==> t is ClickingPopup
            &&& s.phase is ClickingPopup ==> t is SettlingAfterPopup
            &&& s.phase is SettlingAfterPopup ==> t is FindingMore
            &&& s.phase is FindingMore ==> t is ScrollingToMore
            &&& s.phase is ScrollingToMore ==> t is SettlingBeforeMore
            &&& s.phase is SettlingBeforeMore ==> t is WaitingForMore
            &&& s.phase is WaitingForMore ==> t is ClickingMore
            &&& s.phase is ClickingMore ==> t is SettlingAfterMore
            &&& s.phase is SettlingAfterMore ==> t is FindingMore
            &&& s.phase is OpeningCsv ==> t is Listing
            &&& s.phase is Writing && s.id + 1 < s.count ==> t is ReadingTitle
            &&& s.phase is Writing && s.id + 1 >= s.count ==> t is Done
        }),
        s.phase is FindingPopup ==> huawei_next(s, OutcomeView::Failed).0.phase is SettlingAfterPopup,
        s.phase is FindingMore ==> huawei_next(s, OutcomeView::Failed).0.phase is OpeningCsv,
{
}

/// The scrape's state and requests after a run of outcomes, one step per outcome.
pub open spec fn huawei_run(s: HuaweiScraperView, es: Seq<OutcomeView>) -> (HuaweiScraperView, Seq<ActionView>)
    decreases es.len(),
{
    if es.len() == 0 {
        (s, Seq::empty())
    } else {
        let first = huawei_next(s, es[0]);
        let rest = huawei_run(first.0, es.drop_first());
        (rest.0, seq![first.1] + rest.1)
    }
}

/// A request that, if it writes a record, writes one of Huawei's, located in the UK.
pub open spec fn huawei_record_ok(a: ActionView) -> bool {
    a matches ActionView::WriteRecord(r) ==> r.company_name == "Huawei"@ && r.location == "UK"@
}

/// Over a whole run, whatever the browser answers: the scrape stays well
/// formed, every file it opens is its own, and every record it writes is
/// Huawei's, located in the UK.
pub proof fn lemma_huawei_run_records_tagged(s: HuaweiScraperView, es: Seq<OutcomeView>)
    requires
        s.wf(),
    ensures
        huawei_run(s, es).0.wf(),
        huawei_run(s, es).0.save_to == s.save_to,
        huawei_run(s, es).1.len() == es.len(),
        forall|i: int| 0 <= i < es.len() ==> huawei_record_ok(#[trigger] huawei_run(s, es).1[i]),
        forall|i: int| 0 <= i < es.len() ==> (#[trigger] huawei_run(s, es).1[i] matches ActionView::OpenCsv(p) ==> p == s.save_to),
    decreases es.len(),
{
    if es.len() > 0 {
        let first = huawei_next(s, es[0]);
        lemma_huawei_step_keeps_wf(s, es[0]);
        lemma_huawei_records_are_tagged(s, es[0]);
        lemma_huawei_run_records_tagged(first.0, es.drop_first());
        let rest = huawei_run(first.0, es.drop_first());
        let acts = huawei_run(s, es).1;
        assert(acts =~= seq![first.1] + rest.1);
        assert forall|i: int| 0 <= i < es.len() implies huawei_record_ok(#[trigger] acts[i]) && (acts[i] matches ActionView::OpenCsv(p) ==> p == s.save_to) by {
            if i > 0 {
                assert(acts[i] == rest.1[i - 1]);
            }
        }
    }
}

} // verus!
