//! Job-posting scraper core: the records it produces, the once-only start-up
//! guard, and the verified decision logic that drives a browser through the
//! careers sites.

use vstd::prelude::*;

pub mod scrape;
pub mod text;

verus! {

/// One job posting, as written to the CSV files.
#[derive(Debug)]
pub struct JobEntry {
    pub company_name: String,
    pub job_title: String,
    pub apply_link: String,
    pub job_type_time: String,
    pub is_rolling: bool,
    pub location: String,
    pub ddl: String,
    pub start_time: String,
    pub duration: String,
    pub salary: String,
    pub description: String,
    pub keyworkds: String,
}

/// The mathematical model of a [`JobEntry`]: every text field as a sequence of characters.
pub struct JobEntryView {
    pub company_name: Seq<char>,
    pub job_title: Seq<char>,
    pub apply_link: Seq<char>,
    pub job_type_time: Seq<char>,
    pub is_rolling: bool,
    pub location: Seq<char>,
    pub ddl: Seq<char>,
    pub start_time: Seq<char>,
    pub duration: Seq<char>,
    pub salary: Seq<char>,
    pub description: Seq<char>,
    pub keyworkds: Seq<char>,
}

impl View for JobEntry {
    type V = JobEntryView;

    open spec fn view(&self) -> JobEntryView {
        JobEntryView {
            company_name: self.company_name@,
            job_title: self.job_title@,
            apply_link: self.apply_link@,
            job_type_time: self.job_type_time@,
            is_rolling: self.is_rolling,
            location: self.location@,
            ddl: self.ddl@,
            start_time: self.start_time@,
            duration: self.duration@,
            salary: self.salary@,
            description: self.description@,
            keyworkds: self.keyworkds@,
        }
    }
}

/// The entry with every text field empty and `is_rolling` false.
pub open spec fn empty_entry() -> JobEntryView {
    JobEntryView {
        company_name: Seq::empty(),
        job_title: Seq::empty(),
        apply_link: Seq::empty(),
        job_type_time: Seq::empty(),
        is_rolling: false,
        location: Seq::empty(),
        ddl: Seq::empty(),
        start_time: Seq::empty(),
        duration: Seq::empty(),
        salary: Seq::empty(),
        description: Seq::empty(),
        keyworkds: Seq::empty(),
    }
}

impl Default for JobEntry {
    fn default() -> (entry: Self)
        ensures
            entry@ == empty_entry(),
    {
        JobEntry {
            company_name: String::new(),
            job_title: String::new(),
            apply_link: String::new(),
            job_type_time: String::new(),
            is_rolling: false,
            location: String::new(),
            ddl: String::new(),
            start_time: String::new(),
            duration: String::new(),
            salary: String::new(),
            description: String::new(),
            keyworkds: String::new(),
        }
    }
}

/// Remembers whether start-up has already been performed in this process.
pub struct InitGuard {
    has_run: bool,
}

impl View for InitGuard {
    type V = bool;

    closed spec fn view(&self) -> bool {
        self.has_run
    }
}

impl InitGuard {
    /// A guard for a process in which start-up has not run yet.
    pub fn new() -> (guard: Self)
        ensures
            !guard@,
    {
        InitGuard { has_run: false }
    }

    /// Whether start-up has already run.
    pub fn has_run(&self) -> (b: bool)
        ensures
            b == self@,
    {
        self.has_run
    }
}

/// What start-up has to do, given what the file system holds.
#[derive(Debug, Clone, Copy, PartialEq, Eq, Structural)]
pub enum InitPlan {
    /// Start-up already ran: it is refused, and nothing is touched.
    AlreadyRun,
    /// Start-up proceeds: create the `data` directory if asked, and stop with
    /// an unrecoverable error if the chromedriver binary is missing.
    Proceed { create_data_dir: bool, driver_missing: bool },
}

/// The plan of start-up for a guard in state `has_run`.
pub open spec fn init_plan(has_run: bool, data_dir_exists: bool, driver_exists: bool) -> InitPlan {
    if has_run {
        InitPlan::AlreadyRun
    } else {
        InitPlan::Proceed { create_data_dir: !data_dir_exists, driver_missing: !driver_exists }
    }
}

/// Start-up: it may run once per process. The first call proceeds and
/// says whether the `data` directory must be created and whether the
/// chromedriver binary is missing; every later call is refused.
pub fn init(guard: &mut InitGuard, data_dir_exists: bool, driver_exists: bool) -> (plan: InitPlan)
    ensures
        plan == init_plan(old(guard)@, data_dir_exists, driver_exists),
        old(guard)@ ==> plan == InitPlan::AlreadyRun,
        !old(guard)@ ==> plan == (InitPlan::Proceed {
            create_data_dir: !data_dir_exists,
            driver_missing: !driver_exists,
        }),
        final(guard)@,
{
    if guard.has_run {
        InitPlan::AlreadyRun
    } else {
        guard.has_run = true;
        InitPlan::Proceed { create_data_dir: !data_dir_exists, driver_missing: !driver_exists }
    }
}

/// Start-up runs at most once: whatever the first call saw, a second call on
/// the guard it left behind is refused.
pub proof fn lemma_init_runs_once(has_run: bool, data1: bool, driver1: bool, data2: bool, driver2: bool)
    ensures
        init_plan(true, data2, driver2) == InitPlan::AlreadyRun,
        !has_run ==> init_plan(has_run, data1, driver1) is Proceed,
{
}

/// The first start-up creates the `data` directory exactly when it is
/// missing and stops for a missing driver exactly when the driver is missing;
/// each decision depends on its own input alone.
pub proof fn lemma_init_decisions(data_dir_exists: bool, driver_exists: bool, other: bool)
    ensures
        init_plan(false, data_dir_exists, driver_exists) matches InitPlan::Proceed {
            create_data_dir,
            driver_missing,
        } && create_data_dir == !data_dir_exists && driver_missing == !driver_exists,
        init_plan(false, data_dir_exists, driver_exists)->driver_missing == init_plan(
            false,
            other,
            driver_exists,
        )->driver_missing,
        init_plan(false, data_dir_exists, driver_exists)->create_data_dir == init_plan(
            false,
            data_dir_exists,
            other,
        )->create_data_dir,
{
}

} // verus!
