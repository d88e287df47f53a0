//! The rows that a snapshot holds for one node.

use crate::arena::{FileNode, NodeMeta, NO_INDEX, UNKNOWN_ATTRIBUTES};
use crate::filetime::{filetime_to_unix_ns, unix_ns};
use vstd::prelude::*;

verus! {

pub const FILE_ATTRIBUTE_REPARSE_POINT: u32 = 0x400;

/// Why a snapshot was not written.
#[derive(Debug, Clone, Copy, PartialEq, Eq, Structural)]
pub enum ExportError {
    /// The arena has more nodes than identifiers.
    TooManyNodes,
    /// A node's name is not in the string pool.
    UnresolvedName,
    /// A node's parent is not a directory that stands before it.
    OrphanNode,
    /// A size does not fit in a signed 64-bit column.
    SizeOutOfRange,
    /// An allocation does not fit in a signed 64-bit column.
    AllocationOutOfRange,
    /// Cancellation was requested while the snapshot was written.
    Cancelled,
}

/// The message of an export error.
pub open spec fn export_message(error: ExportError) -> Seq<char> {
    match error {
        ExportError::TooManyNodes => {
            "Too many arena nodes: out of range integral type conversion attempted"@
        },
        ExportError::UnresolvedName => "Unresolved arena name"@,
        ExportError::OrphanNode => "Arena child without parent directory"@,
        ExportError::SizeOutOfRange => "out of range integral type conversion attempted"@,
        ExportError::AllocationOutOfRange => "out of range integral type conversion attempted"@,
        ExportError::Cancelled => "Scan cancelled during SQLite export"@,
    }
}

impl ExportError {
    pub fn message(&self) -> (text: &'static str)
        ensures
            text@ == export_message(*self),
    {
        match self {
            ExportError::TooManyNodes => {
                "Too many arena nodes: out of range integral type conversion attempted"
            },
            ExportError::UnresolvedName => "Unresolved arena name",
            ExportError::OrphanNode => "Arena child without parent directory",
            ExportError::SizeOutOfRange => "out of range integral type conversion attempted",
            ExportError::AllocationOutOfRange => "out of range integral type conversion attempted",
            ExportError::Cancelled => "Scan cancelled during SQLite export",
        }
    }
}

/// A row of the `nodes` table, column by column.
#[derive(Debug, PartialEq, Eq)]
pub struct NodeRow {
    pub id: i64,
    pub parent_id: Option<i64>,
    pub name: String,
    pub is_dir: i64,
    pub size: i64,
    pub allocated_size: Option<i64>,
    pub modified_ns: Option<i64>,
    pub created_ns: Option<i64>,
    pub flags: i64,
    pub file_count: i64,
    pub file_id: Option<i64>,
    pub attributes: Option<i64>,
    pub reparse_tag: Option<i64>,
    pub link_count: Option<i64>,
}

/// What a row of the `nodes` table says.
pub struct NodeRowView {
    pub id: int,
    pub parent_id: Option<int>,
    pub name: Seq<char>,
    pub is_dir: int,
    pub size: int,
    pub allocated_size: Option<int>,
    pub modified_ns: Option<int>,
    pub created_ns: Option<int>,
    pub flags: int,
    pub file_count: int,
    pub file_id: Option<int>,
    pub attributes: Option<int>,
    pub reparse_tag: Option<int>,
    pub link_count: Option<int>,
}

/// An optional column as a mathematical integer.
pub open spec fn widened(column: Option<i64>) -> Option<int> {
    match column {
        Some(value) => Some(value as int),
        None => None,
    }
}

impl View for NodeRow {
    type V = NodeRowView;

    open spec fn view(&self) -> NodeRowView {
        NodeRowView {
            id: self.id as int,
            parent_id: widened(self.parent_id),
            name: self.name@,
            is_dir: self.is_dir as int,
            size: self.size as int,
            allocated_size: widened(self.allocated_size),
            modified_ns: widened(self.modified_ns),
            created_ns: widened(self.created_ns),
            flags: self.flags as int,
            file_count: self.file_count as int,
            file_id: widened(self.file_id),
            attributes: widened(self.attributes),
            reparse_tag: widened(self.reparse_tag),
            link_count: widened(self.link_count),
        }
    }
}

/// A value that is there unless it is the one that means "unknown".
pub open spec fn unless(value: int, unknown: int) -> Option<int> {
    if value == unknown {
        None
    } else {
        Some(value)
    }
}

/// Whole seconds as nanoseconds; none for 0 (unknown).
pub open spec fn seconds_as_ns(seconds: u32) -> Option<int> {
    unless(seconds * 1_000_000_000, 0)
}

/// The modification column. Directories keep the arena's propagated time; files
/// prefer full precision.
pub open spec fn modified_column(node: FileNode, meta: NodeMeta) -> Option<int> {
    if !node.directory && unix_ns(meta.modified_filetime) is Some {
        widened(unix_ns(meta.modified_filetime))
    } else {
        seconds_as_ns(node.modified_timestamp)
    }
}

/// A file reference in a signed column: the same 64 bits.
pub open spec fn file_id_column(file_id: u64) -> Option<int> {
    if file_id == 0 {
        None
    } else if file_id <= i64::MAX {
        Some(file_id as int)
    } else {
        Some(file_id - 0x1_0000_0000_0000_0000)
    }
}

/// The reparse tag column: 0 without a reparse point, none when the tag was not read.
pub open spec fn reparse_tag_column(meta: NodeMeta) -> Option<int> {
    if meta.reparse_tag != 0 {
        Some(meta.reparse_tag as int)
    } else if meta.attributes != UNKNOWN_ATTRIBUTES && meta.attributes
        & FILE_ATTRIBUTE_REPARSE_POINT == 0 {
        Some(0)
    } else {
        None
    }
}

/// Everything a row says of a node.
pub open spec fn row_of(
    id: nat,
    node: FileNode,
    name: Seq<char>,
    meta: NodeMeta,
    allocated: Option<u64>,
) -> NodeRowView {
    NodeRowView {
        id: id as int,
        parent_id: unless(node.parent as int, NO_INDEX as int),
        name,
        is_dir: if node.directory {
            1
        } else {
            0
        },
        size: node.size as int,
        allocated_size: match allocated {
            Some(bytes) => Some(bytes as int),
            None => None,
        },
        modified_ns: modified_column(node, meta),
        created_ns: seconds_as_ns(node.created_timestamp),
        flags: node.flags as int,
        file_count: node.file_count as int,
        file_id: file_id_column(meta.file_id),
        attributes: unless(meta.attributes as int, UNKNOWN_ATTRIBUTES as int),
        reparse_tag: reparse_tag_column(meta),
        link_count: unless(meta.link_count as int, 0),
    }
}

/// Why a node cannot be written as a row, if it cannot.
pub open spec fn row_failure(node: FileNode, allocated: Option<u64>) -> Option<ExportError> {
    if node.size > i64::MAX {
        Some(ExportError::SizeOutOfRange)
    } else if allocated is Some && allocated->0 > i64::MAX {
        Some(ExportError::AllocationOutOfRange)
    } else {
        None
    }
}

/// Reparse tag column: 0 without a reparse point, `None` when the tag was not read.
pub fn reparse_tag_value(meta: &NodeMeta) -> (tag: Option<i64>)
    ensures
        widened(tag) == reparse_tag_column(*meta),
{
    if meta.reparse_tag != 0 {
        Some(meta.reparse_tag as i64)
    } else if meta.attributes != UNKNOWN_ATTRIBUTES && meta.attributes
        & FILE_ATTRIBUTE_REPARSE_POINT == 0 {
        Some(0)
    } else {
        None
    }
}

fn seconds_to_ns(seconds: u32) -> (ns: Option<i64>)
    ensures
        widened(ns) == seconds_as_ns(seconds),
{
    if seconds == 0 {
        None
    } else {
        Some(seconds as i64 * 1_000_000_000)
    }
}

fn file_id_value(file_id: u64) -> (column: Option<i64>)
    ensures
        widened(column) == file_id_column(file_id),
{
    if file_id == 0 {
        None
    } else {
        // Bit-cast: NTFS file references use all 64 bits.
        let column: i64 = file_id as i64;
        assert(column == if file_id <= i64::MAX {
            file_id as int
        } else {
            file_id - 0x1_0000_0000_0000_0000
        }) by (bit_vector)
            requires
                column == file_id as i64,
        ;
        Some(column)
    }
}

fn column_unless(value: u32, unknown: u32) -> (column: Option<i64>)
    ensures
        widened(column) == unless(value as int, unknown as int),
{
    if value == unknown {
        None
    } else {
        Some(value as i64)
    }
}

/// Builds the row of a node, or says why there is none.
pub fn node_row(
    id: u32,
    node: &FileNode,
    name: &str,
    meta: &NodeMeta,
    allocated: Option<u64>,
) -> (row: Result<NodeRow, ExportError>)
    ensures
        match row {
            Ok(row) => row_failure(*node, allocated) is None && row@ == row_of(
                id as nat,
                *node,
                name@,
                *meta,
                allocated,
            ),
            Err(error) => row_failure(*node, allocated) == Some(error),
        },
{
    let precise_modified: Option<i64> = if node.is_directory() {
        None
    } else {
        filetime_to_unix_ns(meta.modified_filetime)
    };
    let modified_ns: Option<i64> = match precise_modified {
        Some(ns) => Some(ns),
        None => seconds_to_ns(node.modified_timestamp),
    };
    if node.size > i64::MAX as u64 {
        return Err(ExportError::SizeOutOfRange);
    }
    let allocated_size: Option<i64> = match allocated {
        Some(bytes) => {
            if bytes > i64::MAX as u64 {
                return Err(ExportError::AllocationOutOfRange);
            }
            Some(bytes as i64)
        },
        None => None,
    };
    Ok(
        NodeRow {
            id: id as i64,
            parent_id: column_unless(node.parent, NO_INDEX),
            name: name.to_owned(),
            is_dir: if node.is_directory() {
                1
            } else {
                0
            },
            size: node.size as i64,
            allocated_size,
            modified_ns,
            created_ns: seconds_to_ns(node.created_timestamp),
            flags: node.flags as i64,
            file_count: node.file_count as i64,
            file_id: file_id_value(meta.file_id),
            attributes: column_unless(meta.attributes, UNKNOWN_ATTRIBUTES),
            reparse_tag: reparse_tag_value(meta),
            link_count: column_unless(meta.link_count, 0),
        },
    )
}

/// Different known file references stay different in their column, and a known
/// one is never taken for an unknown one.
pub proof fn file_ids_stay_apart(a: u64, b: u64)
    requires
        a != b,
    ensures
        file_id_column(a) != file_id_column(b),
{
}

/// A node whose metadata was not read has no file reference, attributes, reparse
/// tag or link count in its row, and the arena's modification time.
pub proof fn unread_metadata_leaves_columns_empty(
    id: nat,
    node: FileNode,
    name: Seq<char>,
    allocated: Option<u64>,
)
    ensures
        ({
            let row = row_of(id, node, name, crate::arena::unknown_meta(), allocated);
            &&& row.file_id is None
            &&& row.attributes is None
            &&& row.reparse_tag is None
            &&& row.link_count is None
            &&& row.modified_ns == seconds_as_ns(node.modified_timestamp)
        }),
{
}

/// Of every node that is written, file or directory, the row has its identifier,
/// parent, name, kind, size, flags and file count as they are.
pub proof fn rows_say_what_the_node_is(
    row: NodeRow,
    id: u32,
    node: FileNode,
    name: Seq<char>,
    meta: NodeMeta,
    allocated: Option<u64>,
)
    requires
        row@ == row_of(id as nat, node, name, meta, allocated),
    ensures
        row.id == id,
        row.parent_id is None <==> node.parent == 0xFFFF_FFFFu32,
        row.parent_id is Some ==> row.parent_id->0 == node.parent,
        row.name@ == name,
        row.is_dir == 1 <==> node.directory,
        row.is_dir == 0 <==> !node.directory,
        row.size == node.size,
        row.flags == node.flags,
        row.file_count == node.file_count,
{
}

/// Of every node that is written, the row has the allocation handed in, and of its
/// metadata what was read: each column is empty exactly where the value is the mark
/// for "not read", and has the value otherwise.
pub proof fn rows_say_what_was_read(
    row: NodeRow,
    id: u32,
    node: FileNode,
    name: Seq<char>,
    meta: NodeMeta,
    allocated: Option<u64>,
)
    requires
        row@ == row_of(id as nat, node, name, meta, allocated),
    ensures
        row.allocated_size is Some <==> allocated is Some,
        allocated is Some ==> row.allocated_size->0 == allocated->0,
        row.attributes is None <==> meta.attributes == 0xFFFF_FFFFu32,
        row.attributes is Some ==> row.attributes->0 == meta.attributes,
        row.link_count is None <==> meta.link_count == 0,
        row.link_count is Some ==> row.link_count->0 == meta.link_count,
        row.file_id is None <==> meta.file_id == 0,
        row.file_id is Some ==> (row.file_id->0 - meta.file_id) % 0x1_0000_0000_0000_0000 == 0,
        row.reparse_tag is None <==> meta.reparse_tag == 0 && (meta.attributes == 0xFFFF_FFFFu32
            || meta.attributes & 0x400u32 != 0),
        row.reparse_tag is Some ==> row.reparse_tag->0 == meta.reparse_tag,
{
}

/// Of every node that is written, the row has the creation time of the arena, in
/// nanoseconds; the modification time of a directory is the arena's, that of a file
/// is the precise one where it converts, and the arena's where not.
pub proof fn rows_say_when(
    row: NodeRow,
    id: u32,
    node: FileNode,
    name: Seq<char>,
    meta: NodeMeta,
    allocated: Option<u64>,
)
    requires
        row@ == row_of(id as nat, node, name, meta, allocated),
    ensures
        row.created_ns is None <==> node.created_timestamp == 0,
        row.created_ns is Some ==> row.created_ns->0 == node.created_timestamp * 1_000_000_000,
        !node.directory && unix_ns(meta.modified_filetime) is Some ==> row.modified_ns == unix_ns(
            meta.modified_filetime,
        ),
        node.directory || unix_ns(meta.modified_filetime) is None ==> {
            &&& row.modified_ns is None <==> node.modified_timestamp == 0
            &&& row.modified_ns is Some ==> row.modified_ns->0 == node.modified_timestamp
                * 1_000_000_000
        },
{
}

/// A node is refused exactly when its size or the allocation handed in exceeds the
/// largest signed value; the size is looked at first.
pub proof fn rows_are_refused_for_size_alone(node: FileNode, allocated: Option<u64>)
    ensures
        row_failure(node, allocated) is None <==> node.size <= 0x7FFF_FFFF_FFFF_FFFF && (
        allocated is None || allocated->0 <= 0x7FFF_FFFF_FFFF_FFFF),
        row_failure(node, allocated) == Some(ExportError::SizeOutOfRange) <==> node.size
            > 0x7FFF_FFFF_FFFF_FFFF,
        row_failure(node, allocated) == Some(ExportError::AllocationOutOfRange) <==> node.size
            <= 0x7FFF_FFFF_FFFF_FFFF && allocated is Some && allocated->0 > 0x7FFF_FFFF_FFFF_FFFF,
{
}

/// A reparse tag column is empty exactly where there may be a reparse point whose tag
/// was not read, and else has the tag.
pub proof fn reparse_tags_are_read_or_ruled_out(tag: Option<i64>, meta: NodeMeta)
    requires
        widened(tag) == reparse_tag_column(meta),
    ensures
        tag is None <==> meta.reparse_tag == 0 && (meta.attributes == 0xFFFF_FFFFu32
            || meta.attributes & 0x400u32 != 0),
        tag is Some ==> tag->0 == meta.reparse_tag,
{
}

} // verus!
