use edirstat_scan::allocation::subtree_allocations;
use edirstat_scan::arena::{FileNode, NodeMeta, NO_INDEX, UNKNOWN_ALLOCATION};

fn node(parent: u32, directory: bool) -> FileNode {
    FileNode {
        name_id: 0,
        parent,
        size: 0,
        modified_timestamp: 0,
        created_timestamp: 0,
        flags: 0,
        file_count: 0,
        directory,
    }
}

fn meta(allocated_size: u64) -> NodeMeta {
    NodeMeta {
        allocated_size,
        ..NodeMeta::unknown()
    }
}

#[test]
fn sums_files_into_all_directories_above() {
    let nodes = [
        node(NO_INDEX, true),
        node(0, true),
        node(1, false),
        node(1, false),
        node(0, false),
    ];
    let metas = [meta(77), meta(88), meta(4096), meta(8192), meta(512)];
    assert_eq!(
        subtree_allocations(&nodes, &metas),
        vec![Some(12800), Some(12288), Some(4096), Some(8192), Some(512)]
    );
}

#[test]
fn unknown_file_makes_everything_above_unknown() {
    let nodes = [
        node(NO_INDEX, true),
        node(0, true),
        node(1, false),
        node(0, true),
        node(3, false),
    ];
    let metas = [
        meta(0),
        meta(0),
        meta(UNKNOWN_ALLOCATION),
        meta(0),
        meta(10),
    ];
    assert_eq!(
        subtree_allocations(&nodes, &metas),
        vec![None, None, None, Some(10), Some(10)]
    );
}

#[test]
fn directory_without_allocation_is_zero() {
    let nodes = [node(NO_INDEX, true)];
    let metas = [meta(UNKNOWN_ALLOCATION)];
    assert_eq!(subtree_allocations(&nodes, &metas), vec![Some(0)]);
}

#[test]
fn sums_stay_at_the_largest_value() {
    let nodes = [node(NO_INDEX, true), node(0, false), node(0, false)];
    let metas = [meta(0), meta(u64::MAX - 1), meta(5)];
    assert_eq!(
        subtree_allocations(&nodes, &metas),
        vec![Some(u64::MAX), Some(u64::MAX - 1), Some(5)]
    );
}

#[test]
fn links_forward_and_to_itself_are_not_followed() {
    let nodes = [node(1, true), node(1, false), node(NO_INDEX, false)];
    let metas = [meta(0), meta(3), meta(4)];
    assert_eq!(
        subtree_allocations(&nodes, &metas),
        vec![Some(0), Some(3), Some(4)]
    );
}

#[test]
fn only_nodes_with_metadata_are_measured() {
    let nodes = [node(NO_INDEX, true), node(0, false), node(0, false)];
    let metas = [meta(0), meta(3)];
    assert_eq!(subtree_allocations(&nodes, &metas), vec![Some(3), Some(3)]);
    assert_eq!(subtree_allocations(&[], &metas), vec![]);
}

#[test]
fn inner_directory_fits_in_outer() {
    let nodes = [node(NO_INDEX, true), node(0, true), node(1, false)];
    let metas = [meta(0), meta(0), meta(9)];
    let totals = subtree_allocations(&nodes, &metas);
    assert!(totals[1] <= totals[0]);
    assert!(totals[2] <= totals[1]);
}
