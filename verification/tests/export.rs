use edirstat_scan::arena::{FileArenaSnapshot, FileNode, NodeMeta, StringPool, NO_INDEX};
use edirstat_scan::directories::{Directories, Placement};
use edirstat_scan::paths::is_excluded;
use edirstat_scan::row::ExportError;
use edirstat_scan::run::{told, RunInput, ScanRun};
use edirstat_scan::scan::{Backend, Engine, ScanLimits, ScanReport};
use edirstat_scan::events::Event;
use edirstat_scan::writer::{ExportAction, ExportRow, SnapshotExport, SnapshotWriter};
use std::path::{PathBuf, MAIN_SEPARATOR};

fn node(name_id: u32, parent: u32, directory: bool, size: u64) -> FileNode {
    FileNode {
        name_id,
        parent,
        size,
        modified_timestamp: 0,
        created_timestamp: 0,
        flags: 0,
        file_count: 0,
        directory,
    }
}

fn meta(allocated_size: u64) -> NodeMeta {
    NodeMeta {
        allocated_size,
        ..NodeMeta::unknown()
    }
}

fn root() -> PathBuf {
    PathBuf::from("/data")
}

/// /data: a/ (x 5, b/ (y 7)), z 1
fn export(excludes: Vec<PathBuf>) -> SnapshotExport {
    let names = ["data", "a", "x", "b", "y", "z"];
    SnapshotExport {
        snapshot: FileArenaSnapshot {
            nodes: vec![
                node(0, NO_INDEX, true, 13),
                node(1, 0, true, 12),
                node(2, 1, false, 5),
                node(3, 1, true, 7),
                node(4, 3, false, 7),
                node(5, 0, false, 1),
            ],
            string_pool: StringPool {
                names: names.iter().map(|name| name.to_string()).collect(),
            },
        },
        metas: vec![
            meta(0),
            meta(0),
            meta(8),
            meta(0),
            meta(u64::MAX),
            meta(16),
        ],
        root: root(),
        excludes,
        backend: Backend::Walk,
    }
}

fn rows_of(action: ExportAction) -> (Vec<ExportRow>, Option<ExportError>) {
    match action {
        ExportAction::Insert { rows, failure } => (rows, failure),
        action => panic!("no rows: {:?}", action),
    }
}

fn metadata_of(action: ExportAction) -> Vec<(&'static str, String)> {
    match action {
        ExportAction::WriteMetadata { entries } => entries
            .into_iter()
            .map(|entry| (entry.key, entry.value))
            .collect(),
        action => panic!("no metadata: {:?}", action),
    }
}

#[test]
fn whole_export_in_order() {
    let mut writer = SnapshotWriter::new(export(vec![]));
    let (rows, failure) = rows_of(writer.advance(false));
    assert_eq!(failure, None);
    let sep = MAIN_SEPARATOR;
    assert_eq!(rows.len(), 6);
    assert_eq!(rows[0].node.name, "/data");
    assert_eq!(rows[0].node.parent_id, None);
    assert_eq!(rows[0].directory, Some(String::new()));
    assert_eq!(rows[1].directory, Some("a".to_string()));
    assert_eq!(rows[2].node.name, "x");
    assert_eq!(rows[2].directory, None);
    assert_eq!(rows[2].node.allocated_size, Some(8));
    assert_eq!(rows[3].directory, Some(format!("a{sep}b")));
    assert_eq!(rows[3].node.allocated_size, None);
    assert_eq!(rows[4].node.parent_id, Some(3));
    assert_eq!(rows[5].node.allocated_size, Some(16));
    let ids: Vec<i64> = rows.iter().map(|row| row.node.id).collect();
    assert_eq!(ids, vec![0, 1, 2, 3, 4, 5]);
    let expected = vec![
        ("format_version", "2".to_string()),
        ("root", "/data".to_string()),
        ("backend", "walk".to_string()),
        ("file_count", "3".to_string()),
        ("directory_count", "3".to_string()),
        ("logical_bytes", "13".to_string()),
        ("allocated_bytes", "24".to_string()),
        ("unknown_allocation_files", "1".to_string()),
    ];
    assert_eq!(metadata_of(writer.advance(false)), expected);
    assert_eq!(
        writer.advance(false),
        ExportAction::BuildIndexes { files: 3, dirs: 3 }
    );
    assert_eq!(
        writer.advance(false),
        ExportAction::Publish {
            files: 3,
            dirs: 3,
            bytes: 13
        }
    );
    assert_eq!(writer.advance(false), ExportAction::Done);
}

#[test]
fn excluded_directories_are_left_out_with_all_they_hold() {
    let mut writer = SnapshotWriter::new(export(vec![root().join("a")]));
    let (rows, failure) = rows_of(writer.advance(false));
    assert_eq!(failure, None);
    let ids: Vec<i64> = rows.iter().map(|row| row.node.id).collect();
    assert_eq!(ids, vec![0, 5]);
    let metadata = metadata_of(writer.advance(false));
    assert_eq!(metadata[3].1, "1");
    assert_eq!(metadata[4].1, "1");
    assert_eq!(metadata[5].1, "1");
}

#[test]
fn nested_exclusion_leaves_the_rest() {
    let excludes = vec![root().join("nothing"), root().join("a").join("b")];
    let mut writer = SnapshotWriter::new(export(excludes));
    let (rows, _) = rows_of(writer.advance(false));
    let ids: Vec<i64> = rows.iter().map(|row| row.node.id).collect();
    assert_eq!(ids, vec![0, 1, 2, 5]);
}

#[test]
fn files_are_not_excluded_by_themselves() {
    let mut writer = SnapshotWriter::new(export(vec![root().join("z")]));
    let (rows, _) = rows_of(writer.advance(false));
    assert_eq!(rows.len(), 6);
}

#[test]
fn root_is_listed_even_when_excluded() {
    let mut writer = SnapshotWriter::new(export(vec![root()]));
    let (rows, _) = rows_of(writer.advance(false));
    let ids: Vec<i64> = rows.iter().map(|row| row.node.id).collect();
    assert_eq!(ids, vec![0, 5]);
}

#[test]
fn exclusion_counts_whole_components() {
    let excludes = vec![PathBuf::from("/data/a")];
    assert!(is_excluded(&root(), "a", &excludes));
    assert!(is_excluded(&root(), "a/b", &excludes));
    assert!(!is_excluded(&root(), "ab", &excludes));
    assert!(!is_excluded(&root(), "", &excludes));
    assert!(!is_excluded(&root(), "a", &vec![]));
    assert!(is_excluded(&root(), "", &vec![PathBuf::from("/")]));
}

#[test]
fn unresolved_name_stops_the_export() {
    let mut broken = export(vec![]);
    broken.snapshot.nodes[3].name_id = 99;
    let mut writer = SnapshotWriter::new(broken);
    let (rows, failure) = rows_of(writer.advance(false));
    assert_eq!(rows.len(), 3);
    assert_eq!(failure, Some(ExportError::UnresolvedName));
    assert_eq!(writer.advance(false), ExportAction::Done);
    assert_eq!(
        ExportError::UnresolvedName.message(),
        "Unresolved arena name"
    );
}

#[test]
fn broken_nodes_below_excluded_directories_do_not_matter() {
    let mut broken = export(vec![root().join("a")]);
    broken.snapshot.nodes[2].name_id = 99;
    broken.snapshot.nodes[4].size = u64::MAX;
    let mut writer = SnapshotWriter::new(broken);
    let (rows, failure) = rows_of(writer.advance(false));
    assert_eq!(rows.len(), 2);
    assert_eq!(failure, None);
}

#[test]
fn orphans_stop_the_export() {
    let mut file_as_parent = export(vec![]);
    file_as_parent.snapshot.nodes[5].parent = 2;
    let (rows, failure) = rows_of(SnapshotWriter::new(file_as_parent).advance(false));
    assert_eq!(rows.len(), 5);
    assert_eq!(failure, Some(ExportError::OrphanNode));
    let mut child_first = export(vec![]);
    child_first.snapshot.nodes[1].parent = 3;
    let (rows, failure) = rows_of(SnapshotWriter::new(child_first).advance(false));
    assert_eq!(rows.len(), 1);
    assert_eq!(failure, Some(ExportError::OrphanNode));
    assert_eq!(
        ExportError::OrphanNode.message(),
        "Arena child without parent directory"
    );
}

#[test]
fn values_beyond_their_columns_stop_the_export() {
    let mut large = export(vec![]);
    large.snapshot.nodes[2].size = 1 << 63;
    let (_, failure) = rows_of(SnapshotWriter::new(large).advance(false));
    assert_eq!(failure, Some(ExportError::SizeOutOfRange));
    let mut allocated = export(vec![]);
    allocated.metas[5] = meta(1 << 63);
    allocated.metas[4] = meta(0);
    let (rows, failure) = rows_of(SnapshotWriter::new(allocated).advance(false));
    assert_eq!(rows.len(), 0);
    assert_eq!(failure, Some(ExportError::AllocationOutOfRange));
}

#[test]
fn missing_metadata_counts_as_unknown() {
    let mut short = export(vec![]);
    short.metas.truncate(2);
    let mut writer = SnapshotWriter::new(short);
    let (rows, _) = rows_of(writer.advance(false));
    assert_eq!(rows[5].node.allocated_size, None);
    assert_eq!(rows[5].node.attributes, None);
    let metadata = metadata_of(writer.advance(false));
    assert_eq!(metadata[7].1, "3");
}

#[test]
fn cancellation_gives_up_before_the_rows() {
    let mut writer = SnapshotWriter::new(export(vec![]));
    assert_eq!(
        writer.advance(true),
        ExportAction::Abort {
            error: ExportError::Cancelled
        }
    );
    assert_eq!(writer.advance(false), ExportAction::Done);
    assert_eq!(
        ExportError::Cancelled.message(),
        "Scan cancelled during SQLite export"
    );
}

#[test]
fn cancellation_gives_up_before_publishing() {
    let mut writer = SnapshotWriter::new(export(vec![]));
    let _ = writer.advance(false);
    let _ = writer.advance(true);
    let _ = writer.advance(true);
    assert_eq!(
        writer.advance(true),
        ExportAction::Abort {
            error: ExportError::Cancelled
        }
    );
    assert_eq!(writer.advance(false), ExportAction::Done);
}

#[test]
fn batches_hold_4096_nodes_and_join() {
    let mut nodes = vec![node(0, NO_INDEX, true, 0)];
    let mut metas = vec![meta(0)];
    for _ in 1..9000 {
        nodes.push(node(1, 0, false, 2));
        metas.push(meta(1));
    }
    let mut writer = SnapshotWriter::new(SnapshotExport {
        snapshot: FileArenaSnapshot {
            nodes,
            string_pool: StringPool {
                names: vec!["r".to_string(), "f".to_string()],
            },
        },
        metas,
        root: root(),
        excludes: vec![],
        backend: Backend::Mft,
    });
    let (first, _) = rows_of(writer.advance(false));
    let (second, _) = rows_of(writer.advance(false));
    let (third, _) = rows_of(writer.advance(false));
    assert_eq!(
        (first.len(), second.len(), third.len()),
        (4096, 4096, 808)
    );
    assert_eq!(second[0].node.id, 4096);
    assert_eq!(third[807].node.id, 8999);
    assert_eq!(first[0].node.allocated_size, Some(8999));
    let metadata = metadata_of(writer.advance(false));
    assert_eq!(metadata[2].1, "mft");
    assert_eq!(metadata[3].1, "8999");
    assert_eq!(metadata[5].1, "17998");
}

#[test]
fn too_many_nodes_message() {
    assert_eq!(
        ExportError::TooManyNodes.message(),
        "Too many arena nodes: out of range integral type conversion attempted"
    );
}

#[test]
fn directories_place_and_settle() {
    let mut directories = Directories::new();
    let top = directories.place(NO_INDEX, Some("root"), '/').unwrap();
    assert_eq!(top, Placement::At(String::new()));
    assert!(directories.settle(0, true, &top, true));
    let a = directories.place(0, Some("a"), '/').unwrap();
    assert_eq!(a, Placement::At("a".to_string()));
    assert!(!directories.settle(1, true, &a, true));
    let inside = directories.place(1, None, '/').unwrap();
    assert_eq!(inside, Placement::Hidden);
    assert!(!directories.settle(2, true, &inside, false));
    assert_eq!(directories.place(2, Some("x"), '/'), Ok(Placement::Hidden));
    assert_eq!(
        directories.place(0, None, '/'),
        Err(ExportError::UnresolvedName)
    );
    assert_eq!(
        directories.place(7, Some("x"), '/'),
        Err(ExportError::OrphanNode)
    );
    let b = directories.place(0, Some("b"), '/').unwrap();
    assert!(directories.settle(3, true, &b, false));
    assert_eq!(
        directories.place(3, Some("c"), '/'),
        Ok(Placement::At("b/c".to_string()))
    );
}

#[test]
fn actions_are_told_to_the_run() {
    assert_eq!(
        told(&ExportAction::BuildIndexes { files: 3, dirs: 4 }, 9),
        Some(RunInput::RowsWritten { files: 3, dirs: 4 })
    );
    assert_eq!(
        told(
            &ExportAction::Publish {
                files: 3,
                dirs: 4,
                bytes: 5
            },
            9
        ),
        Some(RunInput::Published {
            bytes: 5,
            elapsed_ms: 9
        })
    );
    assert_eq!(told(&ExportAction::Done, 9), None);
    assert_eq!(
        told(
            &ExportAction::Abort {
                error: ExportError::Cancelled
            },
            9
        ),
        None
    );
    assert_eq!(
        told(&ExportAction::WriteMetadata { entries: vec![] }, 9),
        None
    );
}

#[test]
fn run_fed_by_the_writer_completes_with_its_counts() {
    let mut run = ScanRun::new("t".to_string(), "data".to_string(), Engine::Walk);
    let _ = run.advance(RunInput::Arguments {
        seconds_valid: true,
    });
    let _ = run.advance(RunInput::RootOpened { directory: true });
    let _ = run.advance(RunInput::ScanEnded {
        report: ScanReport {
            limits: ScanLimits {
                max_files: None,
                max_entries: None,
            },
            over_budget: false,
            files: 3,
            dirs: 3,
            time_up: false,
            backend_code: 2,
            cancelled: false,
            mft_fallback: false,
            nodes: 6,
            metas: 6,
        },
    });
    let mut writer = SnapshotWriter::new(export(vec![root().join("a")]));
    let mut events = vec![];
    loop {
        let action = writer.advance(false);
        if action == ExportAction::Done {
            break;
        }
        if let Some(input) = told(&action, 12) {
            events.extend(run.advance(input).events);
        }
    }
    assert_eq!(
        events,
        vec![
            Event::Index { files: 1, dirs: 1 },
            Event::Complete {
                task_id: "t".to_string(),
                backend: Backend::Walk,
                files: 1,
                dirs: 1,
                bytes: 1,
                elapsed_ms: 12
            }
        ]
    );
}
