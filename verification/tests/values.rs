use edirstat_scan::arena::{FileNode, NodeMeta, StringPool, NO_INDEX, UNKNOWN_ATTRIBUTES};
use edirstat_scan::file_id::{get_entry_file_id, get_file_id, wants_entry_id, IdSource};
use edirstat_scan::filetime::filetime_to_unix_ns;
use edirstat_scan::row::{node_row, reparse_tag_value, ExportError};
use edirstat_scan::text::{decimal_text, path_below};

const EPOCH: u64 = 116_444_736_000_000_000;

fn file() -> FileNode {
    FileNode {
        name_id: 0,
        parent: 3,
        size: 10,
        modified_timestamp: 5,
        created_timestamp: 7,
        flags: 6,
        file_count: 1,
        directory: false,
    }
}

#[test]
fn filetime_zero_is_unknown() {
    assert_eq!(filetime_to_unix_ns(0), None);
}

#[test]
fn filetime_epoch_is_zero() {
    assert_eq!(filetime_to_unix_ns(EPOCH), Some(0));
    assert_eq!(filetime_to_unix_ns(EPOCH + 1), Some(100));
    assert_eq!(filetime_to_unix_ns(EPOCH - 1), Some(-100));
}

#[test]
fn filetime_beyond_64_bits_is_none() {
    let largest = EPOCH + (i64::MAX / 100) as u64;
    assert_eq!(
        filetime_to_unix_ns(largest),
        Some(i64::MAX / 100 * 100)
    );
    assert_eq!(filetime_to_unix_ns(largest + 1), None);
    assert_eq!(filetime_to_unix_ns(u64::MAX), None);
    assert_eq!(filetime_to_unix_ns(1), None);
}

#[test]
fn filetime_converts_back_and_keeps_order() {
    let earlier = EPOCH + 12_345;
    let later = EPOCH + 12_346;
    let ns = filetime_to_unix_ns(earlier).unwrap();
    assert_eq!(ns / 100 + EPOCH as i64, earlier as i64);
    assert!(ns < filetime_to_unix_ns(later).unwrap());
}

#[test]
fn reparse_tag_that_was_read_is_kept() {
    let meta = NodeMeta {
        reparse_tag: 0xA000_000C,
        ..NodeMeta::unknown()
    };
    assert_eq!(reparse_tag_value(&meta), Some(0xA000_000C));
}

#[test]
fn reparse_tag_is_zero_without_reparse_point() {
    let meta = NodeMeta {
        attributes: 0x20,
        ..NodeMeta::unknown()
    };
    assert_eq!(reparse_tag_value(&meta), Some(0));
}

#[test]
fn reparse_tag_is_none_when_not_read() {
    let reparse = NodeMeta {
        attributes: 0x420,
        ..NodeMeta::unknown()
    };
    assert_eq!(reparse_tag_value(&reparse), None);
    assert_eq!(reparse_tag_value(&NodeMeta::unknown()), None);
}

#[test]
fn row_has_every_column() {
    let meta = NodeMeta {
        allocated_size: 4096,
        modified_filetime: EPOCH + 3,
        file_id: 9,
        attributes: 0x20,
        reparse_tag: 0,
        link_count: 2,
    };
    let row = node_row(4, &file(), "a.txt", &meta, Some(4096)).unwrap();
    assert_eq!(row.id, 4);
    assert_eq!(row.parent_id, Some(3));
    assert_eq!(row.name, "a.txt");
    assert_eq!(row.is_dir, 0);
    assert_eq!(row.size, 10);
    assert_eq!(row.allocated_size, Some(4096));
    assert_eq!(row.modified_ns, Some(300));
    assert_eq!(row.created_ns, Some(7_000_000_000));
    assert_eq!(row.flags, 6);
    assert_eq!(row.file_count, 1);
    assert_eq!(row.file_id, Some(9));
    assert_eq!(row.attributes, Some(0x20));
    assert_eq!(row.reparse_tag, Some(0));
    assert_eq!(row.link_count, Some(2));
}

#[test]
fn row_of_unknown_metadata_has_empty_columns() {
    let node = FileNode {
        parent: NO_INDEX,
        created_timestamp: 0,
        ..file()
    };
    let row = node_row(0, &node, "", &NodeMeta::unknown(), None).unwrap();
    assert_eq!(row.parent_id, None);
    assert_eq!(row.allocated_size, None);
    assert_eq!(row.modified_ns, Some(5_000_000_000));
    assert_eq!(row.created_ns, None);
    assert_eq!(row.file_id, None);
    assert_eq!(row.attributes, None);
    assert_eq!(row.reparse_tag, None);
    assert_eq!(row.link_count, None);
}

#[test]
fn directories_keep_the_propagated_time() {
    let node = FileNode {
        directory: true,
        ..file()
    };
    let meta = NodeMeta {
        modified_filetime: EPOCH + 3,
        ..NodeMeta::unknown()
    };
    let row = node_row(1, &node, "d", &meta, Some(0)).unwrap();
    assert_eq!(row.is_dir, 1);
    assert_eq!(row.modified_ns, Some(5_000_000_000));
    let unknown = FileNode {
        modified_timestamp: 0,
        ..node
    };
    let row = node_row(1, &unknown, "d", &meta, Some(0)).unwrap();
    assert_eq!(row.modified_ns, None);
}

#[test]
fn file_references_use_all_bits() {
    let column = |file_id| {
        let meta = NodeMeta {
            file_id,
            ..NodeMeta::unknown()
        };
        node_row(1, &file(), "f", &meta, None).unwrap().file_id
    };
    assert_eq!(column(0), None);
    assert_eq!(column(u64::MAX), Some(-1));
    assert_eq!(column(1 << 63), Some(i64::MIN));
    assert_eq!(column(i64::MAX as u64), Some(i64::MAX));
    assert_ne!(column(1), column(2));
}

#[test]
fn sizes_beyond_the_column_are_refused() {
    let large = FileNode {
        size: 1 << 63,
        ..file()
    };
    assert_eq!(
        node_row(1, &large, "f", &NodeMeta::unknown(), Some(u64::MAX)),
        Err(ExportError::SizeOutOfRange)
    );
    assert_eq!(
        node_row(1, &file(), "f", &NodeMeta::unknown(), Some(1 << 63)),
        Err(ExportError::AllocationOutOfRange)
    );
    assert_eq!(
        ExportError::SizeOutOfRange.message(),
        ExportError::AllocationOutOfRange.message()
    );
}

#[test]
fn pool_finds_names_by_position() {
    let pool = StringPool {
        names: vec!["a".to_string(), "b".to_string()],
    };
    assert_eq!(pool.get(1), Some("b"));
    assert_eq!(pool.get(2), None);
    assert_eq!(UNKNOWN_ATTRIBUTES, u32::MAX);
}

#[test]
fn numbers_are_written_in_decimal() {
    assert_eq!(decimal_text(0), "0");
    assert_eq!(decimal_text(9), "9");
    assert_eq!(decimal_text(10), "10");
    assert_eq!(decimal_text(1_020_304), "1020304");
    assert_eq!(decimal_text(u64::MAX), u64::MAX.to_string());
}

#[test]
fn paths_are_joined_below_the_root() {
    assert_eq!(path_below("", '/', "a"), "a");
    assert_eq!(path_below("a", '/', "b"), "a/b");
    assert_eq!(path_below("a/b", '\\', "\u{e9}"), "a/b\\\u{e9}");
}

#[test]
fn same_answer_same_id() {
    let id = get_file_id(IdSource::Metadata, Some((7, 21)));
    assert_eq!(id, (7, 21));
    assert_eq!(id, get_file_id(IdSource::PathLookup, Some((7, 21))));
    assert_ne!(id, get_file_id(IdSource::Metadata, Some((7, 22))));
}

#[test]
fn failed_or_absent_queries_fall_back() {
    assert_eq!(get_file_id(IdSource::PathLookup, None), (0, 0));
    assert_eq!(get_file_id(IdSource::Absent, Some((1, 2))), (0, 0));
}

#[test]
fn path_lookups_are_for_directories_only() {
    assert!(wants_entry_id(IdSource::PathLookup, true));
    assert!(!wants_entry_id(IdSource::PathLookup, false));
    assert_eq!(
        get_entry_file_id(IdSource::PathLookup, true, Some((1, 2))),
        (1, 2)
    );
    assert_eq!(
        get_entry_file_id(IdSource::PathLookup, false, Some((1, 2))),
        (0, 0)
    );
}

#[test]
fn metadata_tells_files_and_directories_alike() {
    assert!(wants_entry_id(IdSource::Metadata, false));
    assert_eq!(
        get_entry_file_id(IdSource::Metadata, false, Some((1, 2))),
        (1, 2)
    );
    assert_eq!(
        get_entry_file_id(IdSource::Metadata, true, Some((1, 2))),
        (1, 2)
    );
    assert!(!wants_entry_id(IdSource::Absent, true));
    assert_eq!(
        get_entry_file_id(IdSource::Absent, true, Some((1, 2))),
        (0, 0)
    );
}
