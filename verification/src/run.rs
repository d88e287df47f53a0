//! One scan from request to snapshot, one decision at a time.
//!
//! Reading the file system and writing the database are elsewhere: whoever does
//! them tells [`ScanRun::advance`] what came of it, reports the events that come
//! back, and does what comes next. Reports of counts while the file system is read
//! and rows while they are written have their own decisions.

use crate::events::{Event, EventView};
use crate::scan::{
    check_request, disqualified, judge, judged, names_task, refused, reported, scan_message,
    Backend, Engine, ScanError, ScanReport,
};
use crate::writer::{ExportAction, ExportActionView};
use vstd::prelude::*;

verus! {

/// How far a scan has come.
#[derive(Debug, Clone, Copy, PartialEq, Eq, Structural)]
pub enum RunStage {
    /// Its arguments are still to be checked.
    Requested,
    /// Its root is being opened.
    Opening,
    /// The file system is being read.
    Scanning,
    /// The snapshot is being written.
    Exporting { backend: Backend },
    /// The snapshot, of this many files and directories, is being indexed.
    Indexing { backend: Backend, files: u64, dirs: u64 },
    /// The snapshot is published.
    Finished,
    /// It was given up for this reason, which is still to be reported.
    Stopped { error: ScanError },
    /// It has failed, and the error is reported.
    Failed,
}

/// What came of the last thing done.
#[derive(Debug, PartialEq, Eq)]
pub enum RunInput {
    /// Whether the time limit, if there is one, is positive and finite.
    Arguments { seconds_valid: bool },
    /// The root was found, as a directory or as something else.
    RootOpened { directory: bool },
    /// The file system has been read.
    ScanEnded { report: ScanReport },
    /// The rows are written and about to be indexed.
    RowsWritten { files: u64, dirs: u64 },
    /// The snapshot is published.
    Published { bytes: u64, elapsed_ms: u64 },
    /// The events of a scan that was given up are reported.
    Reported,
    /// Something outside failed, the reporting of an event perhaps.
    Broke { message: String },
}

/// What an input says.
pub enum RunInputView {
    Arguments { seconds_valid: bool },
    RootOpened { directory: bool },
    ScanEnded { report: ScanReport },
    RowsWritten { files: u64, dirs: u64 },
    Published { bytes: u64, elapsed_ms: u64 },
    Reported,
    Broke { message: Seq<char> },
}

impl View for RunInput {
    type V = RunInputView;

    open spec fn view(&self) -> RunInputView {
        match self {
            RunInput::Arguments { seconds_valid } => RunInputView::Arguments {
                seconds_valid: *seconds_valid,
            },
            RunInput::RootOpened { directory } => RunInputView::RootOpened {
                directory: *directory,
            },
            RunInput::ScanEnded { report } => RunInputView::ScanEnded { report: *report },
            RunInput::RowsWritten { files, dirs } => RunInputView::RowsWritten {
                files: *files,
                dirs: *dirs,
            },
            RunInput::Published { bytes, elapsed_ms } => RunInputView::Published {
                bytes: *bytes,
                elapsed_ms: *elapsed_ms,
            },
            RunInput::Reported => RunInputView::Reported,
            RunInput::Broke { message } => RunInputView::Broke { message: message@ },
        }
    }
}

/// What to do next.
#[derive(Debug, Clone, Copy, PartialEq, Eq, Structural)]
pub enum RunAction {
    /// Find the root and see whether it is a directory.
    OpenRoot,
    /// Read the file system.
    Scan,
    /// Write the snapshot of what this backend read.
    Export { backend: Backend },
    /// Create the indexes and publish the snapshot.
    Publish,
    /// End with success.
    Finish,
    /// Report the events, and come back once that is done.
    GiveUp,
    /// End with failure.
    Fail,
    /// Nothing: the input does not belong to the stage.
    Ignore,
}

/// What a scan reports after an input, and what it does next.
#[derive(Debug, PartialEq, Eq)]
pub struct RunStep {
    /// Report these, in this order.
    pub events: Vec<Event>,
    pub action: RunAction,
}

/// A scan.
pub struct RunState {
    pub task_id: Seq<char>,
    /// The root as the user wrote it.
    pub root: Seq<char>,
    pub engine: Engine,
    pub stage: RunStage,
}

impl RunState {
    /// The event that opens a scan.
    pub open spec fn start(self) -> EventView {
        EventView::Start { task_id: self.task_id, root: self.root, engine: self.engine }
    }

    /// The event of a failure.
    pub open spec fn error(self, message: Seq<char>) -> EventView {
        EventView::Error { task_id: self.task_id, message }
    }

    /// The stage after an input.
    pub open spec fn next_stage(self, input: RunInputView) -> RunStage {
        match (self.stage, input) {
            (RunStage::Failed, _) => RunStage::Failed,
            (_, RunInputView::Broke { message }) => RunStage::Failed,
            (RunStage::Requested, RunInputView::Arguments { seconds_valid }) => match refused(
                seconds_valid,
                self.task_id,
            ) {
                Some(error) => RunStage::Stopped { error },
                None => RunStage::Opening,
            },
            (RunStage::Opening, RunInputView::RootOpened { directory }) => if directory {
                RunStage::Scanning
            } else {
                RunStage::Stopped { error: ScanError::RootNotDirectory }
            },
            (RunStage::Scanning, RunInputView::ScanEnded { report }) => match judged(
                self.engine,
                report,
            ) {
                Ok(backend) => RunStage::Exporting { backend },
                Err(error) => RunStage::Stopped { error },
            },
            (RunStage::Exporting { backend }, RunInputView::RowsWritten { files, dirs }) => {
                RunStage::Indexing { backend, files, dirs }
            },
            (
                RunStage::Indexing { backend, files, dirs },
                RunInputView::Published { bytes, elapsed_ms },
            ) => RunStage::Finished,
            (RunStage::Stopped { error }, RunInputView::Reported) => RunStage::Failed,
            _ => self.stage,
        }
    }

    /// The state after an input.
    pub open spec fn after(self, input: RunInputView) -> RunState {
        RunState { stage: self.next_stage(input), ..self }
    }

    /// What is reported after an input.
    pub open spec fn events(self, input: RunInputView) -> Seq<EventView> {
        match (self.stage, input) {
            (RunStage::Failed, _) => Seq::empty(),
            (_, RunInputView::Broke { message }) => seq![self.error(message)],
            (RunStage::Opening, RunInputView::RootOpened { directory }) => if directory {
                seq![self.start()]
            } else {
                Seq::empty()
            },
            (RunStage::Scanning, RunInputView::ScanEnded { report }) => reported(
                self.engine,
                self.task_id,
                report,
            ),
            (RunStage::Exporting { backend }, RunInputView::RowsWritten { files, dirs }) => seq![
                EventView::Index { files, dirs },
            ],
            (
                RunStage::Indexing { backend, files, dirs },
                RunInputView::Published { bytes, elapsed_ms },
            ) => seq![
                EventView::Complete {
                    task_id: self.task_id,
                    backend,
                    files,
                    dirs,
                    bytes,
                    elapsed_ms,
                },
            ],
            (RunStage::Stopped { error }, RunInputView::Reported) => seq![
                self.error(scan_message(error)),
            ],
            _ => Seq::empty(),
        }
    }

    /// What is done after an input: what the stage that it leads to asks for.
    pub open spec fn action(self, input: RunInputView) -> RunAction {
        let stage = self.next_stage(input);
        if stage == self.stage {
            RunAction::Ignore
        } else {
            match stage {
                RunStage::Requested => RunAction::Ignore,
                RunStage::Opening => RunAction::OpenRoot,
                RunStage::Scanning => RunAction::Scan,
                RunStage::Exporting { backend } => RunAction::Export { backend },
                RunStage::Indexing { backend, files, dirs } => RunAction::Publish,
                RunStage::Finished => RunAction::Finish,
                RunStage::Stopped { error } => RunAction::GiveUp,
                RunStage::Failed => RunAction::Fail,
            }
        }
    }
}

/// A scan from request to snapshot.
#[derive(Debug)]
pub struct ScanRun {
    task_id: String,
    root: String,
    engine: Engine,
    stage: RunStage,
}

impl View for ScanRun {
    type V = RunState;

    closed spec fn view(&self) -> RunState {
        RunState {
            task_id: self.task_id@,
            root: self.root@,
            engine: self.engine,
            stage: self.stage,
        }
    }
}

impl ScanRun {
    /// A scan that has been asked for.
    pub fn new(task_id: String, root: String, engine: Engine) -> (run: ScanRun)
        ensures
            run@ == (RunState {
                task_id: task_id@,
                root: root@,
                engine,
                stage: RunStage::Requested,
            }),
    {
        ScanRun { task_id, root, engine, stage: RunStage::Requested }
    }

    fn error(&self, message: &str) -> (event: Event)
        ensures
            event@ == self@.error(message@),
    {
        Event::Error { task_id: self.task_id.clone(), message: message.to_owned() }
    }

    /// Takes in what came of the last thing done, and says what to report and what
    /// to do next.
    pub fn advance(&mut self, input: RunInput) -> (step: RunStep)
        ensures
            final(self)@ == old(self)@.after(input@),
            step.events@.map_values(|event: Event| event@) == old(self)@.events(input@),
            step.action == old(self)@.action(input@),
    {
        let mut events: Vec<Event> = Vec::new();
        let action: RunAction = match (self.stage, &input) {
            (RunStage::Failed, _) => RunAction::Ignore,
            (_, RunInput::Broke { message }) => {
                events.push(self.error(message.as_str()));
                self.stage = RunStage::Failed;
                RunAction::Fail
            },
            (RunStage::Requested, RunInput::Arguments { seconds_valid }) => match check_request(
                *seconds_valid,
                self.task_id.as_str(),
            ) {
                Ok(()) => {
                    self.stage = RunStage::Opening;
                    RunAction::OpenRoot
                },
                Err(error) => {
                    self.stage = RunStage::Stopped { error };
                    RunAction::GiveUp
                },
            },
            (RunStage::Opening, RunInput::RootOpened { directory }) => if *directory {
                events.push(
                    Event::Start {
                        task_id: self.task_id.clone(),
                        root: self.root.clone(),
                        engine: self.engine,
                    },
                );
                self.stage = RunStage::Scanning;
                RunAction::Scan
            } else {
                self.stage = RunStage::Stopped { error: ScanError::RootNotDirectory };
                RunAction::GiveUp
            },
            (RunStage::Scanning, RunInput::ScanEnded { report }) => {
                let judgement = judge(self.engine, self.task_id.as_str(), report);
                events = judgement.events;
                match judgement.outcome {
                    Ok(backend) => {
                        self.stage = RunStage::Exporting { backend };
                        RunAction::Export { backend }
                    },
                    Err(error) => {
                        self.stage = RunStage::Stopped { error };
                        RunAction::GiveUp
                    },
                }
            },
            (RunStage::Exporting { backend }, RunInput::RowsWritten { files, dirs }) => {
                events.push(Event::Index { files: *files, dirs: *dirs });
                self.stage = RunStage::Indexing { backend, files: *files, dirs: *dirs };
                RunAction::Publish
            },
            (
                RunStage::Indexing { backend, files, dirs },
                RunInput::Published { bytes, elapsed_ms },
            ) => {
                events.push(
                    Event::Complete {
                        task_id: self.task_id.clone(),
                        backend,
                        files,
                        dirs,
                        bytes: *bytes,
                        elapsed_ms: *elapsed_ms,
                    },
                );
                self.stage = RunStage::Finished;
                RunAction::Finish
            },
            (RunStage::Stopped { error }, RunInput::Reported) => {
                events.push(self.error(error.message()));
                self.stage = RunStage::Failed;
                RunAction::Fail
            },
            _ => RunAction::Ignore,
        };
        assert(events@.map_values(|event: Event| event@) =~= old(self)@.events(input@));
        RunStep { events, action }
    }
}

/// What a run is told of an action of the export: the counts that the action bears.
pub open spec fn told_of(action: ExportActionView, elapsed_ms: u64) -> Option<RunInputView> {
    match action {
        ExportActionView::BuildIndexes { files, dirs } => Some(
            RunInputView::RowsWritten { files: files as u64, dirs: dirs as u64 },
        ),
        ExportActionView::Publish { files, dirs, bytes } => Some(
            RunInputView::Published { bytes: bytes as u64, elapsed_ms },
        ),
        _ => None,
    }
}

/// What to tell a run of an action of the export, `elapsed_ms` into the scan: before
/// the indexes are built, that the rows are written; after the snapshot is
/// published, that it is.
pub fn told(action: &ExportAction, elapsed_ms: u64) -> (input: Option<RunInput>)
    ensures
        match *action {
            ExportAction::BuildIndexes { files, dirs } => input is Some && input->0@ == (
            RunInputView::RowsWritten { files, dirs }),
            ExportAction::Publish { files, dirs, bytes } => input is Some && input->0@ == (
            RunInputView::Published { bytes, elapsed_ms }),
            _ => input is None,
        },
        input is Some <==> told_of(action@, elapsed_ms) is Some,
        input matches Some(input) ==> told_of(action@, elapsed_ms) == Some(input@),
{
    match action {
        ExportAction::BuildIndexes { files, dirs } => Some(
            RunInput::RowsWritten { files: *files, dirs: *dirs },
        ),
        ExportAction::Publish { bytes, .. } => Some(
            RunInput::Published { bytes: *bytes, elapsed_ms },
        ),
        _ => None,
    }
}

/// The state after some inputs.
pub open spec fn state_after(start: RunState, inputs: Seq<RunInputView>) -> RunState
    decreases inputs.len(),
{
    if inputs.len() == 0 {
        start
    } else {
        state_after(start, inputs.drop_last()).after(inputs.last())
    }
}

/// All that is reported after some inputs.
pub open spec fn log_after(start: RunState, inputs: Seq<RunInputView>) -> Seq<EventView>
    decreases inputs.len(),
{
    if inputs.len() == 0 {
        Seq::empty()
    } else {
        log_after(start, inputs.drop_last()) + state_after(start, inputs.drop_last()).events(
            inputs.last(),
        )
    }
}

/// Whether the inputs tell of a scan, of the engine asked for, whose result is
/// written with this backend.
pub open spec fn scanned_clean(
    run: RunState,
    inputs: Seq<RunInputView>,
    report: ScanReport,
    backend: Backend,
) -> bool {
    &&& inputs.contains(RunInputView::ScanEnded { report })
    &&& judged(run.engine, report) == Ok::<Backend, ScanError>(backend)
}

/// The log of a scan whose result is being written: the start, the fallback if
/// there was one, and that the arena is written.
pub open spec fn log_to_write(run: RunState, report: ScanReport) -> Seq<EventView> {
    if report.mft_fallback {
        seq![run.start(), EventView::Fallback, EventView::Write { nodes: report.nodes }]
    } else {
        seq![run.start(), EventView::Write { nodes: report.nodes }]
    }
}

/// The log of a scan whose snapshot is published: as above, then the indexing and
/// the completion, with the same counts.
pub open spec fn log_to_completion(
    run: RunState,
    report: ScanReport,
    backend: Backend,
    files: u64,
    dirs: u64,
    bytes: u64,
    elapsed_ms: u64,
) -> Seq<EventView> {
    log_to_write(run, report).push(EventView::Index { files, dirs }).push(
        EventView::Complete { task_id: run.task_id, backend, files, dirs, bytes, elapsed_ms },
    )
}

/// What has been reported at a stage without failure.
pub open spec fn on_course(
    run: RunState,
    inputs: Seq<RunInputView>,
    log: Seq<EventView>,
    stage: RunStage,
) -> bool {
    match stage {
        RunStage::Requested | RunStage::Opening => log.len() == 0,
        RunStage::Scanning => log == seq![run.start()],
        RunStage::Exporting { backend } => exists|report: ScanReport| #[trigger]
            scanned_clean(run, inputs, report, backend) && log == log_to_write(run, report),
        RunStage::Indexing { backend, files, dirs } => exists|report: ScanReport| #[trigger]
            scanned_clean(run, inputs, report, backend) && log == log_to_write(run, report).push(
                EventView::Index { files, dirs },
            ),
        RunStage::Finished => completed(run, inputs, log),
        RunStage::Stopped { error } => log.len() == 0 || exists|report: ScanReport|
            {
                &&& #[trigger] inputs.contains(RunInputView::ScanEnded { report })
                &&& judged(run.engine, report) == Err::<Backend, ScanError>(error)
                &&& log == seq![run.start()] + reported(run.engine, run.task_id, report)
            },
        RunStage::Failed => false,
    }
}

/// Whether a log is that of a published snapshot of a clean scan.
pub open spec fn completed(
    run: RunState,
    inputs: Seq<RunInputView>,
    log: Seq<EventView>,
) -> bool {
    exists|report: ScanReport, backend: Backend, files: u64, dirs: u64, bytes: u64, elapsed_ms: u64|
        scanned_clean(run, inputs, report, backend) && log == #[trigger] log_to_completion(
            run,
            report,
            backend,
            files,
            dirs,
            bytes,
            elapsed_ms,
        )
}

/// Whether a log goes as far as it can without failure and ends in an error.
pub open spec fn broken_off(
    run: RunState,
    inputs: Seq<RunInputView>,
    log: Seq<EventView>,
) -> bool {
    &&& log.len() > 0
    &&& log.last() is Error
    &&& exists|stage: RunStage| #[trigger] on_course(run, inputs, log.drop_last(), stage)
}

proof fn lemma_on_course_with_more_inputs(
    run: RunState,
    inputs: Seq<RunInputView>,
    more: Seq<RunInputView>,
    log: Seq<EventView>,
    stage: RunStage,
)
    requires
        on_course(run, inputs, log, stage),
        more.len() > 0,
        more.drop_last() == inputs,
    ensures
        on_course(run, more, log, stage),
{
    assert forall|input: RunInputView| #[trigger] inputs.contains(input) implies more.contains(
        input,
    ) by {
        let i = choose|i: int| 0 <= i < inputs.len() && inputs[i] == input;
        assert(more[i] == input);
    }
    match stage {
        RunStage::Exporting { backend } => {
            let report = choose|report: ScanReport| #[trigger]
                scanned_clean(run, inputs, report, backend) && log == log_to_write(run, report);
            assert(scanned_clean(run, more, report, backend));
        },
        RunStage::Indexing { backend, files, dirs } => {
            let report = choose|report: ScanReport| #[trigger]
                scanned_clean(run, inputs, report, backend) && log == log_to_write(
                    run,
                    report,
                ).push(EventView::Index { files, dirs });
            assert(scanned_clean(run, more, report, backend));
        },
        RunStage::Stopped { error } => {
            if log.len() > 0 {
                let report = choose|report: ScanReport|
                    {
                        &&& #[trigger] inputs.contains(RunInputView::ScanEnded { report })
                        &&& judged(run.engine, report) == Err::<Backend, ScanError>(error)
                        &&& log == seq![run.start()] + reported(run.engine, run.task_id, report)
                    };
                assert(more.contains(RunInputView::ScanEnded { report }));
            }
        },
        _ => {},
    }
}

/// Whatever happens, the reports follow the protocol. Nothing comes before the
/// start. A completion is the last event of a scan that did not fail, after the
/// start, at most one fallback, the writing and the indexing. Once a scan has
/// failed, its log ends in one error, right after what had been reported until then.
pub proof fn reports_follow_the_protocol(start: RunState, inputs: Seq<RunInputView>)
    requires
        start.stage is Requested,
    ensures
        state_after(start, inputs).stage is Failed ==> broken_off(
            start,
            inputs,
            log_after(start, inputs),
        ),
        !(state_after(start, inputs).stage is Failed) ==> on_course(
            start,
            inputs,
            log_after(start, inputs),
            state_after(start, inputs).stage,
        ),
        state_after(start, inputs).engine == start.engine,
        state_after(start, inputs).task_id == start.task_id,
        state_after(start, inputs).root == start.root,
    decreases inputs.len(),
{
    if inputs.len() > 0 {
        let earlier = inputs.drop_last();
        let input = inputs.last();
        let before = state_after(start, earlier);
        let log = log_after(start, earlier);
        let all = log_after(start, inputs);
        reports_follow_the_protocol(start, earlier);
        assert(inputs[inputs.len() - 1] == input);
        assert(inputs.contains(input));
        assert(all == log + before.events(input));
        if before.stage is Failed {
            assert(all =~= log);
            let stage = choose|stage: RunStage| #[trigger]
                on_course(start, earlier, log.drop_last(), stage);
            lemma_on_course_with_more_inputs(start, earlier, inputs, log.drop_last(), stage);
        } else {
            lemma_on_course_with_more_inputs(start, earlier, inputs, log, before.stage);
            if before.after(input).stage is Failed {
                assert(all.drop_last() =~= log);
            } else {
                lemma_on_course_step(start, inputs, log, before, input);
            }
        }
    }
}

proof fn lemma_on_course_step(
    start: RunState,
    inputs: Seq<RunInputView>,
    log: Seq<EventView>,
    before: RunState,
    input: RunInputView,
)
    requires
        before == (RunState { stage: before.stage, ..start }),
        on_course(start, inputs, log, before.stage),
        inputs.contains(input),
        !(before.after(input).stage is Failed),
    ensures
        on_course(start, inputs, log + before.events(input), before.after(input).stage),
{
    let all = log + before.events(input);
    let stage = before.after(input).stage;
    if stage == before.stage {
        assert(all =~= log);
    } else {
        match (before.stage, input) {
            (RunStage::Opening, RunInputView::RootOpened { directory }) => {
                if directory {
                    assert(all =~= seq![start.start()]);
                }
            },
            (RunStage::Scanning, RunInputView::ScanEnded { report }) => {
                match judged(start.engine, report) {
                    Ok(backend) => {
                        assert(scanned_clean(start, inputs, report, backend));
                        assert(all =~= log_to_write(start, report));
                    },
                    Err(error) => {},
                }
            },
            (RunStage::Exporting { backend }, RunInputView::RowsWritten { files, dirs }) => {
                let report = choose|report: ScanReport| #[trigger]
                    scanned_clean(start, inputs, report, backend) && log == log_to_write(
                        start,
                        report,
                    );
                assert(scanned_clean(start, inputs, report, backend));
                assert(all =~= log_to_write(start, report).push(EventView::Index { files, dirs }));
            },
            (
                RunStage::Indexing { backend, files, dirs },
                RunInputView::Published { bytes, elapsed_ms },
            ) => {
                let report = choose|report: ScanReport| #[trigger]
                    scanned_clean(start, inputs, report, backend) && log == log_to_write(
                        start,
                        report,
                    ).push(EventView::Index { files, dirs });
                assert(all =~= log_to_completion(
                    start,
                    report,
                    backend,
                    files,
                    dirs,
                    bytes,
                    elapsed_ms,
                ));
                assert(completed(start, inputs, all));
            },
            _ => {},
        }
    }
}

/// A finished scan has reported exactly its start, a fallback if its scanner told
/// of one, the writing, the indexing and the completion.
pub proof fn finished_scans_report_in_order(start: RunState, inputs: Seq<RunInputView>)
    requires
        start.stage is Requested,
        state_after(start, inputs).stage is Finished,
    ensures
        completed(start, inputs, log_after(start, inputs)),
{
    reports_follow_the_protocol(start, inputs);
}

/// A scan that was asked for the raw MFT exports what the raw MFT gave, or nothing.
pub proof fn raw_mft_or_nothing(start: RunState, inputs: Seq<RunInputView>, input: RunInputView)
    requires
        start.stage is Requested,
        start.engine is Mft,
        state_after(start, inputs).action(input) is Export,
    ensures
        state_after(start, inputs).action(input) == (RunAction::Export { backend: Backend::Mft }),
{
    reports_follow_the_protocol(start, inputs);
}

/// A failed scan stays failed and reports nothing more.
pub proof fn failed_scans_stay_failed(state: RunState, input: RunInputView)
    requires
        state.stage is Failed,
    ensures
        state.after(input) == state,
        state.events(input) == Seq::<EventView>::empty(),
{
}

/// Whatever breaks, at whatever stage before the failure is reported, is reported as
/// an error with its own message and the task, and ends the scan, a finished one too.
pub proof fn what_breaks_is_reported(state: RunState, message: Seq<char>)
    requires
        !(state.stage is Failed),
    ensures
        state.after(RunInputView::Broke { message }).stage is Failed,
        state.events(RunInputView::Broke { message }) == seq![state.error(message)],
        state.events(RunInputView::Broke { message }) == seq![
            EventView::Error { task_id: state.task_id, message },
        ],
        state.action(RunInputView::Broke { message }) is Fail,
{
}

/// A scan over its budget is given up, and all it reports of that is the error.
pub proof fn over_budget_scans_end_without_snapshot(state: RunState, report: ScanReport)
    requires
        state.stage is Scanning,
        report.over_budget || report.limits.exceeded_by(report.files, report.dirs, report.time_up),
    ensures
        state.action(RunInputView::ScanEnded { report }) is GiveUp,
        state.events(RunInputView::ScanEnded { report }) == Seq::<EventView>::empty(),
        ({
            let stopped = state.after(RunInputView::ScanEnded { report });
            &&& stopped.events(RunInputView::Reported) == seq![
                state.error(scan_message(ScanError::BudgetExceeded)),
            ]
            &&& stopped.after(RunInputView::Reported).stage is Failed
        }),
{
    assert(disqualified(state.engine, report) is Some);
}

/// An input says what it holds.
pub proof fn inputs_say_what_they_hold(input: RunInput)
    ensures
        match input {
            RunInput::Arguments { seconds_valid } => input@ == (RunInputView::Arguments {
                seconds_valid,
            }),
            RunInput::RootOpened { directory } => input@ == (RunInputView::RootOpened {
                directory,
            }),
            RunInput::ScanEnded { report } => input@ == (RunInputView::ScanEnded { report }),
            RunInput::RowsWritten { files, dirs } => input@ == (RunInputView::RowsWritten {
                files,
                dirs,
            }),
            RunInput::Published { bytes, elapsed_ms } => input@ == (RunInputView::Published {
                bytes,
                elapsed_ms,
            }),
            RunInput::Reported => input@ is Reported,
            RunInput::Broke { message } => input@ == (RunInputView::Broke { message: message@ }),
        },
{
}

/// No input changes what a scan was asked for.
pub proof fn scans_keep_what_was_asked(state: RunState, input: RunInputView)
    ensures
        state.after(input).task_id == state.task_id,
        state.after(input).root == state.root,
        state.after(input).engine == state.engine,
{
}

/// A request with a good time limit and a proper task goes on to open the root; any
/// other is given up for the reason, and nothing is reported of it yet.
pub proof fn requests_go_on_or_are_given_up(state: RunState, seconds_valid: bool)
    requires
        state.stage is Requested,
    ensures
        ({
            let input = RunInputView::Arguments { seconds_valid };
            &&& state.events(input).len() == 0
            &&& seconds_valid && names_task(state.task_id) ==> state.after(input).stage is Opening
                && state.action(input) is OpenRoot
            &&& !seconds_valid ==> state.after(input).stage == (RunStage::Stopped {
                error: ScanError::BadMaxSeconds,
            }) && state.action(input) is GiveUp
            &&& seconds_valid && !names_task(state.task_id) ==> state.after(input).stage == (
            RunStage::Stopped { error: ScanError::BadTaskId }) && state.action(input) is GiveUp
        }),
{
}

/// A root that is a directory is scanned, and the start is reported as it was asked
/// for; any other root is given up.
pub proof fn directories_are_scanned(state: RunState, directory: bool)
    requires
        state.stage is Opening,
    ensures
        ({
            let input = RunInputView::RootOpened { directory };
            if directory {
                &&& state.after(input).stage is Scanning
                &&& state.action(input) is Scan
                &&& state.events(input) == seq![
                    EventView::Start {
                        task_id: state.task_id,
                        root: state.root,
                        engine: state.engine,
                    },
                ]
            } else {
                &&& state.after(input).stage == (RunStage::Stopped {
                    error: ScanError::RootNotDirectory,
                })
                &&& state.action(input) is GiveUp
                &&& state.events(input).len() == 0
            }
        }),
{
}

/// A scan that has ended is exported by its backend where it is judged well, given up
/// for the reason where not, and reported either way.
pub proof fn ended_scans_are_judged(state: RunState, report: ScanReport)
    requires
        state.stage is Scanning,
    ensures
        ({
            let input = RunInputView::ScanEnded { report };
            &&& state.events(input) == reported(state.engine, state.task_id, report)
            &&& match judged(state.engine, report) {
                Ok(backend) => state.after(input).stage == (RunStage::Exporting { backend })
                    && state.action(input) == (RunAction::Export { backend }),
                Err(error) => state.after(input).stage == (RunStage::Stopped { error })
                    && state.action(input) is GiveUp,
            }
        }),
{
}

/// An export is reported with the counts told of it, first when its rows are written
/// and then, with the bytes and the time told last, when it is published.
pub proof fn exports_are_reported_as_told(
    state: RunState,
    backend: Backend,
    files: u64,
    dirs: u64,
    bytes: u64,
    elapsed_ms: u64,
)
    requires
        state.stage == (RunStage::Exporting { backend }),
    ensures
        ({
            let written = RunInputView::RowsWritten { files, dirs };
            let published = RunInputView::Published { bytes, elapsed_ms };
            let indexing = state.after(written);
            &&& state.events(written) == seq![EventView::Index { files, dirs }]
            &&& state.action(written) is Publish
            &&& indexing.events(published) == seq![
                EventView::Complete {
                    task_id: state.task_id,
                    backend,
                    files,
                    dirs,
                    bytes,
                    elapsed_ms,
                },
            ]
            &&& indexing.action(published) is Finish
            &&& indexing.after(published).stage is Finished
        }),
{
}

/// The reason for which a scan was given up is reported once its events are, with the
/// task and the message of that reason, and ends the scan.
pub proof fn reasons_are_reported_with_the_task(state: RunState, error: ScanError)
    requires
        state.stage == (RunStage::Stopped { error }),
    ensures
        state.events(RunInputView::Reported) == seq![
            EventView::Error { task_id: state.task_id, message: scan_message(error) },
        ],
        state.action(RunInputView::Reported) is Fail,
        state.after(RunInputView::Reported).stage is Failed,
{
}

/// An input that does not belong to the stage changes nothing, and nothing is reported
/// or done for it.
pub proof fn inputs_out_of_place_change_nothing(state: RunState, input: RunInputView)
    requires
        !(input is Broke) || state.stage is Failed,
        !(state.stage is Requested && input is Arguments),
        !(state.stage is Opening && input is RootOpened),
        !(state.stage is Scanning && input is ScanEnded),
        !(state.stage is Exporting && input is RowsWritten),
        !(state.stage is Indexing && input is Published),
        !(state.stage is Stopped && input is Reported),
    ensures
        state.after(input) == state,
        state.events(input).len() == 0,
        state.action(input) is Ignore,
{
}

/// A run is told of the indexing and of the publication, with the counts that the
/// action bears, and of nothing else.
pub proof fn runs_are_told_the_counts(action: ExportAction, elapsed_ms: u64)
    ensures
        told_of(action@, elapsed_ms) is Some <==> action is BuildIndexes || action is Publish,
        action matches ExportAction::BuildIndexes { files, dirs } ==> told_of(action@, elapsed_ms)
            == Some(RunInputView::RowsWritten { files, dirs }),
        action matches ExportAction::Publish { files, dirs, bytes } ==> told_of(action@, elapsed_ms)
            == Some(RunInputView::Published { bytes, elapsed_ms }),
{
}

} // verus!
