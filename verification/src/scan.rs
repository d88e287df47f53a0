//! Decisions about a scan: whether it may start, when it must stop, and whether its
//! result is written.

use crate::events::{Event, EventView};
use vstd::prelude::*;

verus! {

/// The way in which the user wants the file system read.
#[derive(Debug, Clone, Copy, PartialEq, Eq, Structural)]
pub enum Engine {
    /// The raw MFT where there is one, else a directory walk.
    Auto,
    /// The raw MFT or nothing.
    Mft,
    /// A directory walk.
    Walk,
}

/// The name of an engine in events.
pub open spec fn engine_name(engine: Engine) -> Seq<char> {
    match engine {
        Engine::Auto => "auto"@,
        Engine::Mft => "mft"@,
        Engine::Walk => "walk"@,
    }
}

impl Engine {
    pub fn name(&self) -> (name: &'static str)
        ensures
            name@ == engine_name(*self),
    {
        match self {
            Engine::Auto => "auto",
            Engine::Mft => "mft",
            Engine::Walk => "walk",
        }
    }
}

/// The way in which a scan read the file system.
#[derive(Debug, Clone, Copy, PartialEq, Eq, Structural)]
pub enum Backend {
    Mft,
    Walk,
    Unknown,
}

/// Scanners report 1 for the raw MFT and 2 for a directory walk.
pub open spec fn reported_backend(code: u8) -> Backend {
    if code == 1 {
        Backend::Mft
    } else if code == 2 {
        Backend::Walk
    } else {
        Backend::Unknown
    }
}

/// The name of a backend in snapshots and events.
pub open spec fn backend_name(backend: Backend) -> Seq<char> {
    match backend {
        Backend::Mft => "mft"@,
        Backend::Walk => "walk"@,
        Backend::Unknown => "unknown"@,
    }
}

impl Backend {
    /// The backend that a scanner reports by number.
    pub fn from_code(code: u8) -> (backend: Backend)
        ensures
            backend == reported_backend(code),
    {
        if code == 1 {
            Backend::Mft
        } else if code == 2 {
            Backend::Walk
        } else {
            Backend::Unknown
        }
    }

    pub fn name(&self) -> (name: &'static str)
        ensures
            name@ == backend_name(*self),
    {
        match self {
            Backend::Mft => "mft",
            Backend::Walk => "walk",
            Backend::Unknown => "unknown",
        }
    }
}

/// Why a scan was refused or its result not written.
#[derive(Debug, Clone, Copy, PartialEq, Eq, Structural)]
pub enum ScanError {
    BadMaxSeconds,
    BadTaskId,
    RootNotDirectory,
    BudgetExceeded,
    MftUnavailable,
    Cancelled,
    EmptyArena,
    MetadataMismatch,
}

/// The message of a scan error.
pub open spec fn scan_message(error: ScanError) -> Seq<char> {
    match error {
        ScanError::BadMaxSeconds => "max-seconds must be positive and finite"@,
        ScanError::BadTaskId => "task-id must contain only ASCII letters, digits, or hyphens"@,
        ScanError::RootNotDirectory => "Scan root must be a directory"@,
        ScanError::BudgetExceeded => "Scan enumeration budget exceeded"@,
        ScanError::MftUnavailable => "Raw MFT scan unavailable for this root"@,
        ScanError::Cancelled => "Scan cancelled"@,
        ScanError::EmptyArena => "Scan returned an empty arena"@,
        ScanError::MetadataMismatch => "Scan metadata does not match the arena"@,
    }
}

impl ScanError {
    pub fn message(&self) -> (text: &'static str)
        ensures
            text@ == scan_message(*self),
    {
        match self {
            ScanError::BadMaxSeconds => "max-seconds must be positive and finite",
            ScanError::BadTaskId => "task-id must contain only ASCII letters, digits, or hyphens",
            ScanError::RootNotDirectory => "Scan root must be a directory",
            ScanError::BudgetExceeded => "Scan enumeration budget exceeded",
            ScanError::MftUnavailable => "Raw MFT scan unavailable for this root",
            ScanError::Cancelled => "Scan cancelled",
            ScanError::EmptyArena => "Scan returned an empty arena",
            ScanError::MetadataMismatch => "Scan metadata does not match the arena",
        }
    }
}

/// An ASCII letter, a digit or a hyphen.
pub open spec fn task_id_char(c: char) -> bool {
    ('a' <= c <= 'z') || ('A' <= c <= 'Z') || ('0' <= c <= '9') || c == '-'
}

/// Whether a text names a task.
pub open spec fn names_task(text: Seq<char>) -> bool {
    text.len() > 0 && forall|i: int| 0 <= i < text.len() ==> task_id_char(#[trigger] text[i])
}

/// Whether a text names a task: some ASCII letters, digits and hyphens, nothing else.
pub fn is_task_id(text: &str) -> (valid: bool)
    ensures
        valid == names_task(text@),
{
    if text.is_empty() {
        return false;
    }
    for c in chars: text.chars()
        invariant
            chars.seq() == text@,
            forall|i: int| 0 <= i < chars.index() ==> task_id_char(#[trigger] text@[i]),
    {
        assert(c == text@[chars.index()]);
        if !(('a' <= c && c <= 'z') || ('A' <= c && c <= 'Z') || ('0' <= c && c <= '9') || c
            == '-') {
            return false;
        }
    }
    true
}

/// Why a request is refused before anything is read, if it is.
pub open spec fn refused(seconds_valid: bool, task_id: Seq<char>) -> Option<ScanError> {
    if !seconds_valid {
        Some(ScanError::BadMaxSeconds)
    } else if !names_task(task_id) {
        Some(ScanError::BadTaskId)
    } else {
        None
    }
}

/// Checks a request. `seconds_valid` tells whether the time limit, if there is one,
/// is positive and finite.
pub fn check_request(seconds_valid: bool, task_id: &str) -> (checked: Result<(), ScanError>)
    ensures
        match checked {
            Ok(()) => refused(seconds_valid, task_id@) is None,
            Err(error) => refused(seconds_valid, task_id@) == Some(error),
        },
{
    if !seconds_valid {
        Err(ScanError::BadMaxSeconds)
    } else if !is_task_id(task_id) {
        Err(ScanError::BadTaskId)
    } else {
        Ok(())
    }
}

/// How much a scan may enumerate.
#[derive(Debug, Clone, Copy, PartialEq, Eq)]
pub struct ScanLimits {
    pub max_files: Option<u64>,
    pub max_entries: Option<u64>,
}

impl ScanLimits {
    /// Whether these counts exceed a limit, or the time is up. A count equal to its
    /// limit does not exceed it.
    pub open spec fn exceeded_by(self, files: u64, dirs: u64, time_up: bool) -> bool {
        ||| self.max_files matches Some(limit) && files > limit
        ||| self.max_entries matches Some(limit) && files + dirs > limit
        ||| time_up
    }

    /// Whether these counts exceed a limit, or the time is up.
    pub fn exceeded(&self, files: u64, dirs: u64, time_up: bool) -> (exceeded: bool)
        ensures
            exceeded == self.exceeded_by(files, dirs, time_up),
    {
        let too_many_files: bool = match self.max_files {
            Some(limit) => files > limit,
            None => false,
        };
        let too_many_entries: bool = match self.max_entries {
            Some(limit) => files as u128 + dirs as u128 > limit as u128,
            None => false,
        };
        too_many_files || too_many_entries || time_up
    }
}

/// What can be seen of a running scan.
#[derive(Debug, Clone, Copy, PartialEq, Eq)]
pub struct ScanSight {
    /// The caller's cancel file exists.
    pub cancel_requested: bool,
    /// The enumeration has ended.
    pub finished: bool,
    pub files: u64,
    pub dirs: u64,
    pub bytes: u64,
    /// The time limit has passed.
    pub time_up: bool,
}

/// What to do about a running scan.
#[derive(Debug, PartialEq, Eq)]
pub struct Tick {
    /// Cancel the scan.
    pub cancel: bool,
    /// Remember that the budget was exceeded.
    pub over_budget: bool,
    /// Report this.
    pub event: Event,
}

/// Whether a running scan is seen to exceed its budget, which counts until the
/// enumeration has ended.
pub open spec fn seen_over_budget(limits: ScanLimits, sight: ScanSight) -> bool {
    !sight.finished && limits.exceeded_by(sight.files, sight.dirs, sight.time_up)
}

/// Whether a running scan is cancelled.
pub open spec fn seen_to_cancel(limits: ScanLimits, sight: ScanSight) -> bool {
    sight.cancel_requested || seen_over_budget(limits, sight)
}

/// Watches a running scan: the budget counts until the enumeration has ended, the
/// cancel file always.
pub fn watch(limits: &ScanLimits, sight: &ScanSight) -> (tick: Tick)
    ensures
        tick.over_budget == (!sight.finished && limits.exceeded_by(
            sight.files,
            sight.dirs,
            sight.time_up,
        )),
        tick.cancel == (sight.cancel_requested || tick.over_budget),
        tick.over_budget == seen_over_budget(*limits, *sight),
        tick.cancel == seen_to_cancel(*limits, *sight),
        tick.event@ == (EventView::Scan {
            files: sight.files,
            dirs: sight.dirs,
            bytes: sight.bytes,
        }),
{
    let over_budget: bool = !sight.finished && limits.exceeded(
        sight.files,
        sight.dirs,
        sight.time_up,
    );
    Tick {
        cancel: sight.cancel_requested || over_budget,
        over_budget,
        event: Event::Scan { files: sight.files, dirs: sight.dirs, bytes: sight.bytes },
    }
}

/// How a scan ended.
#[derive(Debug, Clone, Copy, PartialEq, Eq)]
pub struct ScanReport {
    pub limits: ScanLimits,
    /// The budget was exceeded while the scan ran.
    pub over_budget: bool,
    pub files: u64,
    pub dirs: u64,
    /// The time limit has passed.
    pub time_up: bool,
    /// The backend, as the scanner reports it.
    pub backend_code: u8,
    pub cancelled: bool,
    /// A directory walk took the place of the raw MFT.
    pub mft_fallback: bool,
    /// Number of nodes of the arena.
    pub nodes: u64,
    /// Number of nodes with metadata.
    pub metas: u64,
}

/// Why the result of a scan is given up before its content is looked at, if it is.
pub open spec fn disqualified(engine: Engine, report: ScanReport) -> Option<ScanError> {
    if report.over_budget || report.limits.exceeded_by(report.files, report.dirs, report.time_up) {
        Some(ScanError::BudgetExceeded)
    } else if engine is Mft && report.backend_code != 1 {
        Some(ScanError::MftUnavailable)
    } else if report.cancelled {
        Some(ScanError::Cancelled)
    } else {
        None
    }
}

/// The backend of a scan whose result is written, or why it is not.
pub open spec fn judged(engine: Engine, report: ScanReport) -> Result<Backend, ScanError> {
    if disqualified(engine, report) is Some {
        Err(disqualified(engine, report)->0)
    } else if report.nodes == 0 {
        Err(ScanError::EmptyArena)
    } else if report.metas != report.nodes {
        Err(ScanError::MetadataMismatch)
    } else {
        Ok(reported_backend(report.backend_code))
    }
}

/// What is reported of a scan that has ended: a cancellation; else a fallback, if
/// there was one, and then that the arena is written, if it is.
pub open spec fn reported(engine: Engine, task_id: Seq<char>, report: ScanReport) -> Seq<
    EventView,
> {
    if disqualified(engine, report) is Some {
        if disqualified(engine, report)->0 is Cancelled {
            seq![EventView::Cancelled { task_id }]
        } else {
            Seq::empty()
        }
    } else {
        (if report.mft_fallback {
            seq![EventView::Fallback]
        } else {
            Seq::empty()
        }) + (if judged(engine, report) is Ok {
            seq![EventView::Write { nodes: report.nodes }]
        } else {
            Seq::empty()
        })
    }
}

/// The judgement of a scan that has ended.
#[derive(Debug, PartialEq, Eq)]
pub struct Judgement {
    /// Report these, in this order.
    pub events: Vec<Event>,
    /// The backend of a scan to be written, or why there is nothing to write.
    pub outcome: Result<Backend, ScanError>,
}

/// Judges a scan that was asked of this engine and has ended.
pub fn judge(engine: Engine, task_id: &str, report: &ScanReport) -> (judgement: Judgement)
    ensures
        judgement.outcome == judged(engine, *report),
        judgement.events@.map_values(|event: Event| event@) == reported(engine, task_id@, *report),
{
    let mut events: Vec<Event> = Vec::new();
    let outcome: Result<Backend, ScanError> = if report.over_budget || report.limits.exceeded(
        report.files,
        report.dirs,
        report.time_up,
    ) {
        Err(ScanError::BudgetExceeded)
    } else if engine == Engine::Mft && report.backend_code != 1 {
        Err(ScanError::MftUnavailable)
    } else if report.cancelled {
        events.push(Event::Cancelled { task_id: task_id.to_owned() });
        Err(ScanError::Cancelled)
    } else {
        if report.mft_fallback {
            events.push(Event::Fallback);
        }
        if report.nodes == 0 {
            Err(ScanError::EmptyArena)
        } else if report.metas != report.nodes {
            Err(ScanError::MetadataMismatch)
        } else {
            events.push(Event::Write { nodes: report.nodes });
            Ok(Backend::from_code(report.backend_code))
        }
    };
    assert(events@.map_values(|event: Event| event@) =~= reported(engine, task_id@, *report));
    Judgement { events, outcome }
}

/// Only a scan within its budget, not cancelled, by the engine asked for, and with
/// a node at least and metadata for each is written.
pub proof fn only_clean_scans_are_written(engine: Engine, report: ScanReport)
    requires
        judged(engine, report) is Ok,
    ensures
        !report.over_budget,
        !report.limits.exceeded_by(report.files, report.dirs, report.time_up),
        !report.cancelled,
        engine is Mft ==> judged(engine, report)->Ok_0 is Mft,
        report.nodes > 0,
        report.metas == report.nodes,
{
}

/// Once counts have exceeded the budget, larger counts have too.
pub proof fn budget_stays_exceeded(
    limits: ScanLimits,
    files: u64,
    dirs: u64,
    time_up: bool,
    later_files: u64,
    later_dirs: u64,
    later_time_up: bool,
)
    requires
        limits.exceeded_by(files, dirs, time_up),
        files <= later_files,
        dirs <= later_dirs,
        time_up ==> later_time_up,
    ensures
        limits.exceeded_by(later_files, later_dirs, later_time_up),
{
}

/// A scan that was cancelled because of its budget is reported as over budget, not
/// as cancelled, and no event says that it was cancelled.
pub proof fn over_budget_is_no_cancellation(
    engine: Engine,
    task_id: Seq<char>,
    report: ScanReport,
)
    requires
        report.over_budget,
    ensures
        judged(engine, report) == Err::<Backend, ScanError>(ScanError::BudgetExceeded),
        reported(engine, task_id, report) == Seq::<EventView>::empty(),
{
}

/// A scan of exactly as many files and entries as it may have stays within its budget.
pub proof fn limits_may_be_met(limits: ScanLimits, files: u64, dirs: u64)
    requires
        limits.max_files matches Some(limit) ==> files <= limit,
        limits.max_entries matches Some(limit) ==> files + dirs <= limit,
    ensures
        !limits.exceeded_by(files, dirs, false),
{
}

/// A limit that is exceeded counts whatever the other is: more files than `max_files`,
/// more files and directories than `max_entries`, or the time being up, each alone
/// exceeds the budget, and nothing else does.
pub proof fn each_limit_counts_alone(limits: ScanLimits, files: u64, dirs: u64, time_up: bool)
    ensures
        limits.max_files is Some && files > limits.max_files->0 ==> limits.exceeded_by(
            files,
            dirs,
            time_up,
        ),
        limits.max_entries is Some && files + dirs > limits.max_entries->0 ==> limits.exceeded_by(
            files,
            dirs,
            time_up,
        ),
        time_up ==> limits.exceeded_by(files, dirs, time_up),
        limits.exceeded_by(files, dirs, time_up) ==> time_up || (limits.max_files is Some && files
            > limits.max_files->0) || (limits.max_entries is Some && files + dirs
            > limits.max_entries->0),
{
}

/// Taking a limit away, or raising it, exceeds no budget that was kept.
pub proof fn looser_limits_exceed_less(
    tight: ScanLimits,
    loose: ScanLimits,
    files: u64,
    dirs: u64,
    time_up: bool,
)
    requires
        loose.max_files is Some ==> tight.max_files is Some && tight.max_files->0
            <= loose.max_files->0,
        loose.max_entries is Some ==> tight.max_entries is Some && tight.max_entries->0
            <= loose.max_entries->0,
        loose.exceeded_by(files, dirs, time_up),
    ensures
        tight.exceeded_by(files, dirs, time_up),
{
}

/// Whether a scan is over its budget when it has ended.
pub open spec fn ended_over_budget(report: ScanReport) -> bool {
    ||| report.over_budget
    ||| report.time_up
    ||| report.limits.max_files is Some && report.files > report.limits.max_files->0
    ||| report.limits.max_entries is Some && report.files + report.dirs
        > report.limits.max_entries->0
}

/// Every clean scan is written: within its budget, not cancelled, with a node at least
/// and metadata for each, by any backend where any will do, and by the raw MFT where
/// that was insisted on.
pub proof fn clean_scans_are_written(engine: Engine, report: ScanReport)
    requires
        !ended_over_budget(report),
        !report.cancelled,
        report.nodes > 0,
        report.metas == report.nodes,
        engine is Mft ==> report.backend_code == 1,
    ensures
        judged(engine, report) is Ok,
        judged(engine, report)->Ok_0 is Mft <==> report.backend_code == 1,
        judged(engine, report)->Ok_0 is Walk <==> report.backend_code == 2,
        judged(engine, report)->Ok_0 is Unknown <==> report.backend_code != 1
            && report.backend_code != 2,
{
}

/// A scan is given up for exactly one reason: the budget before all else, then a
/// backend that is not the raw MFT insisted on, then a cancellation, then an empty
/// arena, then metadata of another length.
pub proof fn scans_are_given_up_for_the_first_reason(engine: Engine, report: ScanReport)
    ensures
        ({
            let over = ended_over_budget(report);
            let not_mft = engine is Mft && report.backend_code != 1;
            let verdict = judged(engine, report);
            &&& verdict == Err::<Backend, ScanError>(ScanError::BudgetExceeded) <==> over
            &&& verdict == Err::<Backend, ScanError>(ScanError::MftUnavailable) <==> !over
                && not_mft
            &&& verdict == Err::<Backend, ScanError>(ScanError::Cancelled) <==> !over && !not_mft
                && report.cancelled
            &&& verdict == Err::<Backend, ScanError>(ScanError::EmptyArena) <==> !over && !not_mft
                && !report.cancelled && report.nodes == 0
            &&& verdict == Err::<Backend, ScanError>(ScanError::MetadataMismatch) <==> !over
                && !not_mft && !report.cancelled && report.nodes > 0 && report.metas
                != report.nodes
        }),
{
}

/// Of a cancelled scan the cancellation is reported, with the task, and nothing else;
/// of one over its budget or without the raw MFT insisted on, nothing; of any other
/// the fallback exactly when there was one, and then, exactly when the scan is
/// written, that its nodes are.
pub proof fn scans_report_what_became_of_them(
    engine: Engine,
    task_id: Seq<char>,
    report: ScanReport,
)
    ensures
        ({
            let events = reported(engine, task_id, report);
            let over = ended_over_budget(report);
            let not_mft = engine is Mft && report.backend_code != 1;
            let written = report.nodes > 0 && report.metas == report.nodes;
            if over || not_mft {
                events.len() == 0
            } else if report.cancelled {
                events == seq![EventView::Cancelled { task_id }]
            } else if report.mft_fallback && written {
                events == seq![EventView::Fallback, EventView::Write { nodes: report.nodes }]
            } else if report.mft_fallback {
                events == seq![EventView::Fallback]
            } else if written {
                events == seq![EventView::Write { nodes: report.nodes }]
            } else {
                events.len() == 0
            }
        }),
{
    let events = reported(engine, task_id, report);
    if disqualified(engine, report) is None {
        assert(report.mft_fallback && judged(engine, report) is Ok ==> events =~= seq![
            EventView::Fallback,
            EventView::Write { nodes: report.nodes },
        ]);
        assert(report.mft_fallback && !(judged(engine, report) is Ok) ==> events =~= seq![
            EventView::Fallback,
        ]);
        assert(!report.mft_fallback && judged(engine, report) is Ok ==> events =~= seq![
            EventView::Write { nodes: report.nodes },
        ]);
    }
}

/// A task is named by one or more of the 26 letters in either case, the ten digits and
/// the hyphen, in any order.
pub proof fn tasks_are_named_in_letters_digits_hyphens(text: Seq<char>)
    ensures
        names_task(text) <==> text.len() > 0 && forall|i: int|
            0 <= i < text.len() ==> {
                let code = (#[trigger] text[i]) as int;
                ||| 97 <= code <= 122
                ||| 65 <= code <= 90
                ||| 48 <= code <= 57
                ||| code == 45
            },
{
    if names_task(text) {
        assert forall|i: int| 0 <= i < text.len() implies {
            let code = (#[trigger] text[i]) as int;
            ||| 97 <= code <= 122
            ||| 65 <= code <= 90
            ||| 48 <= code <= 57
            ||| code == 45
        } by {
            assert(task_id_char(text[i]));
        }
    }
}

/// A request is refused exactly for a bad time limit or, that being well, for a task
/// that is not named properly.
pub proof fn requests_are_refused_for_two_reasons(seconds_valid: bool, task_id: Seq<char>)
    ensures
        refused(seconds_valid, task_id) is None <==> seconds_valid && names_task(task_id),
        refused(seconds_valid, task_id) == Some(ScanError::BadMaxSeconds) <==> !seconds_valid,
        refused(seconds_valid, task_id) == Some(ScanError::BadTaskId) <==> seconds_valid
            && !names_task(task_id),
{
}

/// A scan whose enumeration has ended is never seen over its budget. One that still
/// runs is, exactly when a limit of its own is exceeded or the time is up.
pub proof fn budgets_count_while_the_scan_runs(limits: ScanLimits, sight: ScanSight)
    ensures
        sight.finished ==> !seen_over_budget(limits, sight),
        !sight.finished ==> (seen_over_budget(limits, sight) <==> {
            ||| sight.time_up
            ||| limits.max_files is Some && sight.files > limits.max_files->0
            ||| limits.max_entries is Some && sight.files + sight.dirs > limits.max_entries->0
        }),
{
}

/// A scan is cancelled exactly when the cancel file asks for it, at any time, or when it
/// is over its budget; what else is seen of it does not count.
pub proof fn scans_are_cancelled_on_request_or_over_budget(
    limits: ScanLimits,
    sight: ScanSight,
    bytes: u64,
)
    ensures
        sight.cancel_requested ==> seen_to_cancel(limits, sight),
        !sight.cancel_requested ==> (seen_to_cancel(limits, sight) <==> seen_over_budget(
            limits,
            sight,
        )),
        seen_to_cancel(limits, (ScanSight { bytes, ..sight })) == seen_to_cancel(limits, sight),
{
}

/// What a scan is cancelled for while it runs, it is given up for when it has ended.
pub proof fn seen_over_budget_is_given_up(
    engine: Engine,
    sight: ScanSight,
    report: ScanReport,
)
    requires
        seen_over_budget(report.limits, sight),
        sight.files <= report.files,
        sight.dirs <= report.dirs,
        sight.time_up ==> report.time_up,
    ensures
        judged(engine, report) == Err::<Backend, ScanError>(ScanError::BudgetExceeded),
{
}

/// Engines and backends are named by their words, each by its own.
pub proof fn names_are_the_words(engine: Engine, backend: Backend)
    ensures
        engine_name(engine) == if engine is Auto {
            "auto"@
        } else if engine is Mft {
            "mft"@
        } else {
            "walk"@
        },
        backend_name(backend) == if backend is Mft {
            "mft"@
        } else if backend is Walk {
            "walk"@
        } else {
            "unknown"@
        },
{
}

} // verus!
