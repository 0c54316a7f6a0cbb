//! What the scrapers ask the browser to do, what they hear back, and the
//! pieces shared by both careers sites.

use rand::Rng;
use vstd::prelude::*;

use crate::{JobEntry, JobEntryView};

pub mod amd;
pub mod huawei;

verus! {

/// How long to wait between browser actions.
#[derive(Debug, Clone, Copy, PartialEq, Eq, Structural)]
pub enum PauseKind {
    Long,
    Medium,
    Short,
}

/// The half-open range of milliseconds, `[low, high)`, that a pause of kind `kind` lasts.
pub open spec fn pause_range(kind: PauseKind) -> (u64, u64) {
    match kind {
        PauseKind::Long => (2000, 3000),
        PauseKind::Medium => (1000, 2000),
        PauseKind::Short => (300, 600),
    }
}

/// Draws a number uniformly from `[low, high)` with `rand`'s thread-local generator
/// (`rand::Rng::gen_range`). Claimed: the result lies in the range. Nothing else is
/// stated: the value is random.
#[verifier::external_body]
fn random_between(low: u64, high: u64) -> (n: u64)
    requires
        low < high,
    ensures
        low <= n < high,
{
    rand::thread_rng().gen_range(low..high)
}

/// Picks the length, in milliseconds, of a pause of kind `kind`.
pub fn pause_millis(kind: PauseKind) -> (ms: u64)
    ensures
        pause_range(kind).0 <= ms < pause_range(kind).1,
{
    match kind {
        PauseKind::Long => random_between(2000, 3000),
        PauseKind::Medium => random_between(1000, 2000),
        PauseKind::Short => random_between(300, 600),
    }
}

/// Length of the long pause, in milliseconds: between 2000 and 3000.
pub fn long_pause() -> (ms: u64)
    ensures
        2000 <= ms < 3000,
{
    pause_millis(PauseKind::Long)
}

/// Length of the medium pause, in milliseconds: between 1000 and 2000.
pub fn medium_pause() -> (ms: u64)
    ensures
        1000 <= ms < 2000,
{
    pause_millis(PauseKind::Medium)
}

/// Length of the short pause, in milliseconds: between 300 and 600.
pub fn short_pause() -> (ms: u64)
    ensures
        300 <= ms < 600,
{
    pause_millis(PauseKind::Short)
}

#[verifier::external_type_specification]
#[verifier::external_body]
pub struct ExUrlParseError(url::ParseError);

/// The serialization of the absolute URL that `url::Url::parse` reads from `input`,
/// or `None` where it reports an error.
pub uninterp spec fn parsed_url(input: Seq<char>) -> Option<Seq<char>>;

/// Parses an absolute URL with `url::Url::parse` and returns its serialization.
/// Claimed: the call succeeds exactly when `parsed_url` of the input is `Some`,
/// and then gives that serialization. What the parser accepts and how it
/// normalizes is left to the name.
#[verifier::external_body]
fn parse_url(input: &str) -> (res: Result<String, url::ParseError>)
    ensures
        res is Ok <==> parsed_url(input@) is Some,
        res matches Ok(u) ==> parsed_url(input@) == Some(u@),
{
    match url::Url::parse(input) {
        Ok(u) => Ok(String::from(u)),
        Err(e) => Err(e),
    }
}

/// Why a scrape stopped early.
#[derive(Debug, Clone, Copy, PartialEq, Eq, Structural)]
pub enum ScrapeError {
    /// The page address could not be parsed.
    InvalidUrl,
    /// The browser failed an action that the scrape cannot do without.
    WebDriver,
    /// The CSV file could not be opened or written.
    Csv,
    /// The browser answered an action with a result of another kind.
    UnexpectedOutcome,
}

/// Parses `url` as the address of a page to scrape.
pub fn checked_url(url: &str) -> (res: Result<String, ScrapeError>)
    ensures
        match res {
            Ok(u) => parsed_url(url@) == Some(u@),
            Err(e) => parsed_url(url@) is None && e == ScrapeError::InvalidUrl,
        },
{
    match parse_url(url) {
        Ok(u) => Ok(u),
        Err(_) => Err(ScrapeError::InvalidUrl),
    }
}

/// The cookie sent with a raw page request, so that the request looks like a visitor's.
pub open spec fn request_cookie_spec() -> Seq<char> {
    "E00AD1D372569A8FB07933566EDDBB4C~000000000000000000000000000000~YAAQXqcQAs/CCZqOAQAAVQE0mhd8Ihh1M43UDUC9y53EG2NViL1EM1OTuMv6YoVTrZrd0zXBl5znA02S0iFeU3+EZS3FaFs/A26n09got4DW5ZpJwSmU06DpRyMlWaTNe8bXOI9sPKD5wU9i1nXXilJJTf5h/49sgALv202IzTSURWJVDGxodDtcpxhKlXQHi42Cm9BwpEWDy1FSnhujk8bR7lZDKAmPdA87mY1X3pD64J3Uti7/hptFm+2Ui6sXeTfV19QIY+azGEDGIUPSyq/8GbJmOK/qBbfrDdDQEvuWBw7Trjnf/ZhFYW6G5dmBrWrzdleyvZmDCjWCMF3dkh1BE2nK/DZN4ZKGejKp4lUvHDOVJzP8Zri10jtn6t2wq/kI4dNloRznjeU="@
}

/// A plain GET request for a page: the parsed address and the `Cookie` header's value.
#[derive(Debug)]
pub struct RawRequest {
    pub url: String,
    pub cookie: String,
}

/// Prepares the GET request of `raw_scrape` for the page at `url`: it is
/// refused with `InvalidUrl` exactly when the address does not parse.
pub fn raw_scrape(url: &str) -> (res: Result<RawRequest, ScrapeError>)
    ensures
        match res {
            Ok(r) => parsed_url(url@) == Some(r.url@) && r.cookie@ == request_cookie_spec(),
            Err(e) => parsed_url(url@) is None && e == ScrapeError::InvalidUrl,
        },
{
    match checked_url(url) {
        Ok(target) => Ok(RawRequest { url: target, cookie: String::from_str("E00AD1D372569A8FB07933566EDDBB4C~000000000000000000000000000000~YAAQXqcQAs/CCZqOAQAAVQE0mhd8Ihh1M43UDUC9y53EG2NViL1EM1OTuMv6YoVTrZrd0zXBl5znA02S0iFeU3+EZS3FaFs/A26n09got4DW5ZpJwSmU06DpRyMlWaTNe8bXOI9sPKD5wU9i1nXXilJJTf5h/49sgALv202IzTSURWJVDGxodDtcpxhKlXQHi42Cm9BwpEWDy1FSnhujk8bR7lZDKAmPdA87mY1X3pD64J3Uti7/hptFm+2Ui6sXeTfV19QIY+azGEDGIUPSyq/8GbJmOK/qBbfrDdDQEvuWBw7Trjnf/ZhFYW6G5dmBrWrzdleyvZmDCjWCMF3dkh1BE2nK/DZN4ZKGejKp4lUvHDOVJzP8Zri10jtn6t2wq/kI4dNloRznjeU=") }),
        Err(e) => Err(e),
    }
}

/// A way to find an element on the page.
#[derive(Debug)]
pub enum Locator {
    Css(String),
    XPath(String),
}

pub enum LocatorView {
    Css(Seq<char>),
    XPath(Seq<char>),
}

impl View for Locator {
    type V = LocatorView;

    open spec fn view(&self) -> LocatorView {
        match self {
            Locator::Css(s) => LocatorView::Css(s@),
            Locator::XPath(s) => LocatorView::XPath(s@),
        }
    }
}

/// The characters of an optional string.
pub open spec fn opt_view(o: Option<String>) -> Option<Seq<char>> {
    match o {
        Some(s) => Some(s@),
        None => None,
    }
}

/// The contents of an optional string, or the empty string (`unwrap_or_default`).
pub open spec fn or_empty(o: Option<Seq<char>>) -> Seq<char> {
    match o {
        Some(s) => s,
        None => Seq::empty(),
    }
}

/// One thing for the browser (or the CSV writer) to do.
///
/// `WaitClickable`, `Click`, `IsClickable` and `ScrollIntoView` act on the
/// element that the last successful `Find` returned. `ReadEntryText` and
/// `ReadEntryAttribute` look inside the element at that index among those that
/// the last `FindAll` returned.
#[derive(Debug)]
pub enum Action {
    Navigate(String),
    Pause(PauseKind),
    Find(Locator),
    WaitClickable,
    Click,
    IsClickable,
    ScrollToBottom,
    ScrollIntoView,
    OpenCsv(String),
    FindAll(Locator),
    ReadText(Locator),
    ReadAttribute(Locator, String),
    ReadEntryText(usize, Locator),
    ReadEntryAttribute(usize, Locator, String),
    WriteRecord(JobEntry),
    Finish,
    Abort(ScrapeError),
}

pub enum ActionView {
    Navigate(Seq<char>),
    Pause(PauseKind),
    Find(LocatorView),
    WaitClickable,
    Click,
    IsClickable,
    ScrollToBottom,
    ScrollIntoView,
    OpenCsv(Seq<char>),
    FindAll(LocatorView),
    ReadText(LocatorView),
    ReadAttribute(LocatorView, Seq<char>),
    ReadEntryText(usize, LocatorView),
    ReadEntryAttribute(usize, LocatorView, Seq<char>),
    WriteRecord(JobEntryView),
    Finish,
    Abort(ScrapeError),
}

impl View for Action {
    type V = ActionView;

    open spec fn view(&self) -> ActionView {
        match self {
            Action::Navigate(u) => ActionView::Navigate(u@),
            Action::Pause(k) => ActionView::Pause(*k),
            Action::Find(l) => ActionView::Find(l@),
            Action::WaitClickable => ActionView::WaitClickable,
            Action::Click => ActionView::Click,
            Action::IsClickable => ActionView::IsClickable,
            Action::ScrollToBottom => ActionView::ScrollToBottom,
            Action::ScrollIntoView => ActionView::ScrollIntoView,
            Action::OpenCsv(p) => ActionView::OpenCsv(p@),
            Action::FindAll(l) => ActionView::FindAll(l@),
            Action::ReadText(l) => ActionView::ReadText(l@),
            Action::ReadAttribute(l, a) => ActionView::ReadAttribute(l@, a@),
            Action::ReadEntryText(i, l) => ActionView::ReadEntryText(*i, l@),
            Action::ReadEntryAttribute(i, l, a) => ActionView::ReadEntryAttribute(*i, l@, a@),
            Action::WriteRecord(e) => ActionView::WriteRecord(e@),
            Action::Finish => ActionView::Finish,
            Action::Abort(e) => ActionView::Abort(*e),
        }
    }
}

/// What came of the last action.
#[derive(Debug)]
pub enum Outcome {
    /// The action succeeded (for `Find`: the element was found).
    Done,
    /// The action failed (for `Find`: no element was found).
    Failed,
    /// `FindAll` found this many elements.
    Count(usize),
    /// A `ReadText` or `ReadEntryText` read this text.
    Text(String),
    /// A `ReadAttribute` or `ReadEntryAttribute` read this value, if the attribute is set.
    Attribute(Option<String>),
    /// `IsClickable` answered this.
    Clickable(bool),
}

pub enum OutcomeView {
    Done,
    Failed,
    Count(usize),
    Text(Seq<char>),
    Attribute(Option<Seq<char>>),
    Clickable(bool),
}

impl View for Outcome {
    type V = OutcomeView;

    open spec fn view(&self) -> OutcomeView {
        match self {
            Outcome::Done => OutcomeView::Done,
            Outcome::Failed => OutcomeView::Failed,
            Outcome::Count(n) => OutcomeView::Count(*n),
            Outcome::Text(t) => OutcomeView::Text(t@),
            Outcome::Attribute(a) => OutcomeView::Attribute(opt_view(*a)),
            Outcome::Clickable(b) => OutcomeView::Clickable(*b),
        }
    }
}

/// The error with which a required action ends the scrape: `kind` where the
/// browser reported a failure, `UnexpectedOutcome` where it answered otherwise.
pub open spec fn failure_of(e: OutcomeView, kind: ScrapeError) -> ScrapeError {
    if e is Failed {
        kind
    } else {
        ScrapeError::UnexpectedOutcome
    }
}

/// The error with which a required action that did not succeed ends the scrape.
pub fn failure(e: &Outcome, kind: ScrapeError) -> (err: ScrapeError)
    ensures
        err == failure_of(e@, kind),
{
    match e {
        Outcome::Failed => kind,
        _ => ScrapeError::UnexpectedOutcome,
    }
}

} // verus!
