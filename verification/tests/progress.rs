use edirstat_scan::events::{as_line, event_line, event_object, Event, EventError};
use edirstat_scan::output::{check_pending, plan_output, OutputError};
use edirstat_scan::run::{RunAction, RunInput, ScanRun};
use edirstat_scan::scan::{
    check_request, is_task_id, judge, watch, Backend, Engine, ScanError, ScanLimits, ScanReport,
    ScanSight,
};

fn text(event: &Event) -> String {
    String::from_utf8(event_line(event).unwrap()).unwrap()
}

fn report() -> ScanReport {
    ScanReport {
        limits: ScanLimits {
            max_files: Some(10),
            max_entries: Some(15),
        },
        over_budget: false,
        files: 9,
        dirs: 5,
        time_up: false,
        backend_code: 2,
        cancelled: false,
        mft_fallback: false,
        nodes: 14,
        metas: 14,
    }
}

fn scan() -> ScanRun {
    ScanRun::new("t-1".to_string(), "dir".to_string(), Engine::Auto)
}

fn error(message: &str) -> Event {
    Event::Error {
        task_id: "t-1".to_string(),
        message: message.to_string(),
    }
}

#[test]
fn start_line() {
    let event = Event::Start {
        task_id: "t".to_string(),
        root: "C:\\x \"y\"".to_string(),
        engine: Engine::Walk,
    };
    assert_eq!(
        text(&event),
        "{\"engine\":\"walk\",\"root\":\"C:\\\\x \\\"y\\\"\",\"task_id\":\"t\",\"type\":\"start\",\"version\":1}\n"
    );
}

#[test]
fn progress_lines() {
    assert_eq!(
        text(&Event::Scan {
            files: 1,
            dirs: 2,
            bytes: 3
        }),
        "{\"bytes\":3,\"dirs\":2,\"files\":1,\"phase\":\"scan\",\"type\":\"progress\",\"version\":1}\n"
    );
    assert_eq!(
        text(&Event::Write { nodes: 4 }),
        "{\"nodes\":4,\"phase\":\"write\",\"type\":\"progress\",\"version\":1}\n"
    );
    assert_eq!(
        text(&Event::Index { files: 5, dirs: 6 }),
        "{\"dirs\":6,\"files\":5,\"phase\":\"index\",\"type\":\"progress\",\"version\":1}\n"
    );
}

#[test]
fn closing_lines() {
    assert_eq!(
        text(&Event::Cancelled {
            task_id: "t".to_string()
        }),
        "{\"task_id\":\"t\",\"type\":\"cancelled\",\"version\":1}\n"
    );
    assert_eq!(
        text(&Event::Fallback),
        "{\"from\":\"mft\",\"reason\":\"Raw MFT scan unavailable; directory traversal used\",\"to\":\"walk\",\"type\":\"fallback\",\"version\":1}\n"
    );
    assert_eq!(
        text(&Event::Complete {
            task_id: "t".to_string(),
            backend: Backend::Unknown,
            files: 1,
            dirs: 2,
            bytes: 3,
            elapsed_ms: u64::MAX,
        }),
        "{\"backend\":\"unknown\",\"bytes\":3,\"dirs\":2,\"elapsed_ms\":18446744073709551615,\"files\":1,\"task_id\":\"t\",\"type\":\"complete\",\"version\":1}\n"
    );
}

#[test]
fn each_event_is_one_line() {
    let line = event_line(&Event::Error {
        task_id: "t".to_string(),
        message: "a\nb\r\u{1}\u{2028}\u{e9}".to_string(),
    })
    .unwrap();
    assert_eq!(line.iter().filter(|byte| **byte == b'\n').count(), 1);
    assert_eq!(line.last(), Some(&b'\n'));
    let value: serde_json::Value = serde_json::from_slice(&line).unwrap();
    assert_eq!(value["message"], "a\nb\r\u{1}\u{2028}\u{e9}");
}

#[test]
fn objects_carry_version_and_type() {
    let object = event_object(&Event::Write { nodes: 7 });
    assert_eq!(object.len(), 4);
    assert_eq!(object["version"], 1);
    assert_eq!(object["type"], "progress");
    assert_eq!(object["phase"], "write");
    assert_eq!(object["nodes"], 7);
    assert_ne!(Err(EventError::Encoding), event_line(&Event::Fallback));
}

#[test]
fn lines_end_in_a_line_feed() {
    assert_eq!(as_line(vec![123, 125]), vec![123, 125, 10]);
}

#[test]
fn task_ids() {
    assert!(is_task_id("standalone"));
    assert!(is_task_id("aZ09-"));
    assert!(is_task_id("-"));
    assert!(!is_task_id(""));
    assert!(!is_task_id("a b"));
    assert!(!is_task_id("a_b"));
    assert!(!is_task_id("../x"));
    assert!(!is_task_id("\u{e9}"));
}

#[test]
fn requests_are_checked_in_order() {
    assert_eq!(check_request(true, "t"), Ok(()));
    assert_eq!(check_request(false, ""), Err(ScanError::BadMaxSeconds));
    assert_eq!(check_request(true, ""), Err(ScanError::BadTaskId));
}

#[test]
fn messages() {
    let expected = [
        (
            ScanError::BadMaxSeconds,
            "max-seconds must be positive and finite",
        ),
        (
            ScanError::BadTaskId,
            "task-id must contain only ASCII letters, digits, or hyphens",
        ),
        (ScanError::RootNotDirectory, "Scan root must be a directory"),
        (
            ScanError::BudgetExceeded,
            "Scan enumeration budget exceeded",
        ),
        (
            ScanError::MftUnavailable,
            "Raw MFT scan unavailable for this root",
        ),
        (ScanError::Cancelled, "Scan cancelled"),
        (ScanError::EmptyArena, "Scan returned an empty arena"),
        (
            ScanError::MetadataMismatch,
            "Scan metadata does not match the arena",
        ),
    ];
    for (error, message) in expected {
        assert_eq!(error.message(), message);
    }
}

#[test]
fn limits_may_be_met_but_not_exceeded() {
    let limits = report().limits;
    assert!(!limits.exceeded(9, 5, false));
    assert!(!limits.exceeded(10, 5, false));
    assert!(limits.exceeded(11, 0, false));
    assert!(limits.exceeded(10, 6, false));
    assert!(!limits.exceeded(0, 15, false));
    assert!(limits.exceeded(0, 16, false));
    assert!(limits.exceeded(0, 0, true));
    let none = ScanLimits {
        max_files: None,
        max_entries: None,
    };
    assert!(!none.exceeded(u64::MAX, u64::MAX, false));
    let all = ScanLimits {
        max_files: Some(u64::MAX),
        max_entries: Some(u64::MAX),
    };
    assert!(!all.exceeded(u64::MAX, 0, false));
    assert!(all.exceeded(u64::MAX, 1, false));
    let nothing = ScanLimits {
        max_files: Some(0),
        max_entries: None,
    };
    assert!(!nothing.exceeded(0, 3, false));
    assert!(nothing.exceeded(1, 0, false));
}

#[test]
fn watching_a_scan() {
    let sight = ScanSight {
        cancel_requested: false,
        finished: false,
        files: 11,
        dirs: 0,
        bytes: 70,
        time_up: false,
    };
    let tick = watch(&report().limits, &sight);
    assert!(tick.cancel && tick.over_budget);
    assert_eq!(
        tick.event,
        Event::Scan {
            files: 11,
            dirs: 0,
            bytes: 70
        }
    );
    let met = watch(&report().limits, &ScanSight { files: 10, ..sight });
    assert!(!met.cancel && !met.over_budget);
    let finished = watch(
        &report().limits,
        &ScanSight {
            finished: true,
            ..sight
        },
    );
    assert!(!finished.cancel && !finished.over_budget);
    let requested = watch(
        &report().limits,
        &ScanSight {
            cancel_requested: true,
            finished: true,
            ..sight
        },
    );
    assert!(requested.cancel && !requested.over_budget);
}

#[test]
fn clean_scans_are_written() {
    let judgement = judge(Engine::Auto, "t", &report());
    assert_eq!(judgement.outcome, Ok(Backend::Walk));
    assert_eq!(judgement.events, vec![Event::Write { nodes: 14 }]);
    let fallback = judge(
        Engine::Auto,
        "t",
        &ScanReport {
            mft_fallback: true,
            backend_code: 7,
            ..report()
        },
    );
    assert_eq!(fallback.outcome, Ok(Backend::Unknown));
    assert_eq!(
        fallback.events,
        vec![Event::Fallback, Event::Write { nodes: 14 }]
    );
}

#[test]
fn other_scans_are_given_up() {
    let outcome = |report: ScanReport| judge(Engine::Auto, "t", &report).outcome;
    let over = ScanReport {
        over_budget: true,
        cancelled: true,
        ..report()
    };
    assert_eq!(outcome(over), Err(ScanError::BudgetExceeded));
    assert_eq!(judge(Engine::Auto, "t", &over).events, vec![]);
    let late = ScanReport {
        time_up: true,
        ..report()
    };
    assert_eq!(outcome(late), Err(ScanError::BudgetExceeded));
    let walked = ScanReport {
        cancelled: true,
        ..report()
    };
    assert_eq!(
        judge(Engine::Mft, "t", &walked).outcome,
        Err(ScanError::MftUnavailable)
    );
    let raw = ScanReport {
        backend_code: 1,
        ..report()
    };
    assert_eq!(judge(Engine::Mft, "t", &raw).outcome, Ok(Backend::Mft));
    let empty = ScanReport {
        nodes: 0,
        ..report()
    };
    assert_eq!(outcome(empty), Err(ScanError::EmptyArena));
    let unmatched = ScanReport {
        metas: 13,
        mft_fallback: true,
        ..report()
    };
    assert_eq!(outcome(unmatched), Err(ScanError::MetadataMismatch));
    assert_eq!(judge(Engine::Auto, "t", &unmatched).events, vec![Event::Fallback]);
}

#[test]
fn cancelled_scans_report_it() {
    let judgement = judge(
        Engine::Auto,
        "t",
        &ScanReport {
            cancelled: true,
            nodes: 0,
            ..report()
        },
    );
    assert_eq!(judgement.outcome, Err(ScanError::Cancelled));
    assert_eq!(
        judgement.events,
        vec![Event::Cancelled {
            task_id: "t".to_string()
        }]
    );
}

fn scanning() -> ScanRun {
    let mut run = scan();
    let arguments = RunInput::Arguments {
        seconds_valid: true,
    };
    assert_eq!(run.advance(arguments).action, RunAction::OpenRoot);
    let opened = RunInput::RootOpened { directory: true };
    assert_eq!(run.advance(opened).action, RunAction::Scan);
    run
}

fn broke(message: &str) -> RunInput {
    RunInput::Broke {
        message: message.to_string(),
    }
}

#[test]
fn whole_run() {
    let mut run = scan();
    let step = run.advance(RunInput::Arguments {
        seconds_valid: true,
    });
    assert_eq!((step.action, step.events), (RunAction::OpenRoot, vec![]));
    let step = run.advance(RunInput::RootOpened { directory: true });
    assert_eq!(step.action, RunAction::Scan);
    assert_eq!(
        step.events,
        vec![Event::Start {
            task_id: "t-1".to_string(),
            root: "dir".to_string(),
            engine: Engine::Auto
        }]
    );
    let step = run.advance(RunInput::ScanEnded { report: report() });
    assert_eq!(
        step.action,
        RunAction::Export {
            backend: Backend::Walk
        }
    );
    assert_eq!(step.events, vec![Event::Write { nodes: 14 }]);
    let step = run.advance(RunInput::RowsWritten { files: 9, dirs: 5 });
    assert_eq!(step.action, RunAction::Publish);
    assert_eq!(step.events, vec![Event::Index { files: 9, dirs: 5 }]);
    let published = || RunInput::Published {
        bytes: 77,
        elapsed_ms: 3,
    };
    let step = run.advance(published());
    assert_eq!(step.action, RunAction::Finish);
    assert_eq!(
        step.events,
        vec![Event::Complete {
            task_id: "t-1".to_string(),
            backend: Backend::Walk,
            files: 9,
            dirs: 5,
            bytes: 77,
            elapsed_ms: 3
        }]
    );
    let step = run.advance(published());
    assert_eq!((step.action, step.events), (RunAction::Ignore, vec![]));
}

#[test]
fn runs_fail_with_an_error() {
    let mut run = ScanRun::new("bad id".to_string(), "dir".to_string(), Engine::Mft);
    let step = run.advance(RunInput::Arguments {
        seconds_valid: true,
    });
    assert_eq!((step.action, step.events), (RunAction::GiveUp, vec![]));
    let step = run.advance(RunInput::Reported);
    assert_eq!(step.action, RunAction::Fail);
    assert_eq!(step.events.len(), 1);

    let mut run = scan();
    let _ = run.advance(RunInput::Arguments {
        seconds_valid: true,
    });
    let step = run.advance(RunInput::RootOpened { directory: false });
    assert_eq!((step.action, step.events), (RunAction::GiveUp, vec![]));
    let step = run.advance(RunInput::Reported);
    assert_eq!(step.action, RunAction::Fail);
    assert_eq!(step.events, vec![error("Scan root must be a directory")]);

    let mut run = scan();
    let step = run.advance(broke("disk"));
    assert_eq!(step.action, RunAction::Fail);
    assert_eq!(step.events, vec![error("disk")]);
    let step = run.advance(broke("again"));
    assert_eq!((step.action, step.events), (RunAction::Ignore, vec![]));
}

#[test]
fn cancelled_run_reports_cancellation_then_error() {
    let cancelled = || RunInput::ScanEnded {
        report: ScanReport {
            cancelled: true,
            ..report()
        },
    };
    let mut run = scanning();
    let step = run.advance(cancelled());
    assert_eq!(step.action, RunAction::GiveUp);
    assert_eq!(
        step.events,
        vec![Event::Cancelled {
            task_id: "t-1".to_string()
        }]
    );
    let step = run.advance(RunInput::Reported);
    assert_eq!(step.action, RunAction::Fail);
    assert_eq!(step.events, vec![error("Scan cancelled")]);

    let mut run = scanning();
    let _ = run.advance(cancelled());
    let step = run.advance(broke("sink is full"));
    assert_eq!(step.action, RunAction::Fail);
    assert_eq!(step.events, vec![error("sink is full")]);
}

#[test]
fn failure_to_report_completion_is_an_error() {
    let mut run = scanning();
    let _ = run.advance(RunInput::ScanEnded { report: report() });
    let _ = run.advance(RunInput::RowsWritten { files: 9, dirs: 5 });
    let step = run.advance(RunInput::Published {
        bytes: 1,
        elapsed_ms: 1,
    });
    assert_eq!(step.action, RunAction::Finish);
    let step = run.advance(broke("sink is full"));
    assert_eq!(step.action, RunAction::Fail);
    assert_eq!(step.events, vec![error("sink is full")]);
}

#[test]
fn run_over_budget_has_no_snapshot() {
    let mut run = scanning();
    let step = run.advance(RunInput::ScanEnded {
        report: ScanReport {
            files: 11,
            ..report()
        },
    });
    assert_eq!((step.action, step.events), (RunAction::GiveUp, vec![]));
    let step = run.advance(RunInput::Reported);
    assert_eq!(step.action, RunAction::Fail);
    assert_eq!(
        step.events,
        vec![error("Scan enumeration budget exceeded")]
    );
}

#[test]
fn run_that_meets_its_budget_is_exported() {
    let mut run = scanning();
    let step = run.advance(RunInput::ScanEnded {
        report: ScanReport {
            files: 10,
            ..report()
        },
    });
    assert_eq!(
        step.action,
        RunAction::Export {
            backend: Backend::Walk
        }
    );
}

#[test]
fn raw_mft_or_nothing_is_exported() {
    let mft = || {
        let mut run = ScanRun::new("t-1".to_string(), "dir".to_string(), Engine::Mft);
        let _ = run.advance(RunInput::Arguments {
            seconds_valid: true,
        });
        let _ = run.advance(RunInput::RootOpened { directory: true });
        run
    };
    let step = mft().advance(RunInput::ScanEnded { report: report() });
    assert_eq!(step.action, RunAction::GiveUp);
    let step = mft().advance(RunInput::ScanEnded {
        report: ScanReport {
            backend_code: 1,
            ..report()
        },
    });
    assert_eq!(
        step.action,
        RunAction::Export {
            backend: Backend::Mft
        }
    );
}

#[test]
fn inputs_out_of_place_are_ignored() {
    let mut run = scan();
    let step = run.advance(RunInput::ScanEnded { report: report() });
    assert_eq!((step.action, step.events), (RunAction::Ignore, vec![]));
    let step = run.advance(RunInput::Reported);
    assert_eq!((step.action, step.events), (RunAction::Ignore, vec![]));
    let mut run = scanning();
    let _ = run.advance(RunInput::ScanEnded { report: report() });
    let step = run.advance(RunInput::Published {
        bytes: 1,
        elapsed_ms: 1,
    });
    assert_eq!((step.action, step.events), (RunAction::Ignore, vec![]));
    let _ = run.advance(RunInput::RowsWritten { files: 1, dirs: 1 });
    let step = run.advance(RunInput::RowsWritten { files: 2, dirs: 1 });
    assert_eq!((step.action, step.events), (RunAction::Ignore, vec![]));
}

#[test]
fn logs_read_back_line_by_line() {
    let events = vec![
        Event::Start {
            task_id: "t".to_string(),
            root: "two\nlines".to_string(),
            engine: Engine::Auto,
        },
        Event::Fallback,
        Event::Error {
            task_id: "t".to_string(),
            message: "\u{e9}\n".to_string(),
        },
    ];
    let mut log: Vec<u8> = Vec::new();
    for event in &events {
        log.extend(event_line(event).unwrap());
    }
    let text = String::from_utf8(log).unwrap();
    let lines: Vec<&str> = text.lines().collect();
    assert_eq!(lines.len(), events.len());
    for (line, event) in lines.iter().zip(&events) {
        let read: serde_json::Map<String, serde_json::Value> =
            serde_json::from_str(line).unwrap();
        assert_eq!(read, event_object(event));
    }
}

#[test]
fn pending_names() {
    assert_eq!(
        plan_output(false, Some("out.db"), "t-1"),
        Ok("out.db.t-1.pending".to_string())
    );
    assert_eq!(
        plan_output(true, Some("out.db"), "t-1"),
        Err(OutputError::Exists)
    );
    assert_eq!(plan_output(true, None, "t-1"), Err(OutputError::Exists));
    assert_eq!(
        plan_output(false, None, "t-1"),
        Err(OutputError::NoFileName)
    );
    assert_ne!(
        plan_output(false, Some("out.db"), "t-2"),
        plan_output(false, Some("out.db"), "t-1")
    );
    assert_eq!(check_pending(false), Ok(()));
    assert_eq!(check_pending(true), Err(OutputError::PendingExists));
}

#[test]
fn output_messages() {
    assert_eq!(
        OutputError::Exists.message("/x/out.db"),
        "Output already exists: /x/out.db"
    );
    assert_eq!(
        OutputError::NoFileName.message("/"),
        "Output must have a file name"
    );
    assert_eq!(
        OutputError::PendingExists.message("p"),
        "Pending output already exists: p"
    );
}
