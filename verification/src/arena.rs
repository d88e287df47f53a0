//! The scanned tree: nodes in one array, parents before children, names in a pool.

use vstd::prelude::*;

verus! {

/// The `parent` of a node that has none.
pub const NO_INDEX: u32 = 0xFFFF_FFFF;

/// The `allocated_size` of a node whose allocation was not read.
pub const UNKNOWN_ALLOCATION: u64 = 0xFFFF_FFFF_FFFF_FFFF;

/// The `attributes` of a node whose attributes were not read.
pub const UNKNOWN_ATTRIBUTES: u32 = 0xFFFF_FFFF;

/// One file or directory of the arena.
#[derive(Debug, Clone, Copy, PartialEq, Eq)]
pub struct FileNode {
    /// Position of the node's name in the string pool.
    pub name_id: u32,
    /// Position of the parent in the arena, or [`NO_INDEX`].
    pub parent: u32,
    pub size: u64,
    /// Whole seconds since the Unix epoch; 0 when unknown.
    pub modified_timestamp: u32,
    /// Whole seconds since the Unix epoch; 0 when unknown.
    pub created_timestamp: u32,
    pub flags: u32,
    pub file_count: u32,
    pub directory: bool,
}

impl FileNode {
    pub fn is_directory(&self) -> (directory: bool)
        ensures
            directory == self.directory,
    {
        self.directory
    }
}

/// What the file system says of a node beyond its place in the tree.
#[derive(Debug, Clone, Copy, PartialEq, Eq)]
pub struct NodeMeta {
    /// Allocated bytes, or [`UNKNOWN_ALLOCATION`].
    pub allocated_size: u64,
    /// Last modification as a Windows `FILETIME`; 0 when unknown.
    pub modified_filetime: u64,
    /// File reference; 0 when unknown.
    pub file_id: u64,
    /// Windows file attributes, or [`UNKNOWN_ATTRIBUTES`].
    pub attributes: u32,
    /// Reparse tag; 0 when there is none or it was not read.
    pub reparse_tag: u32,
    /// Number of hard links; 0 when unknown.
    pub link_count: u32,
}

/// The metadata of a node of which nothing was read.
pub open spec fn unknown_meta() -> NodeMeta {
    NodeMeta {
        allocated_size: UNKNOWN_ALLOCATION,
        modified_filetime: 0,
        file_id: 0,
        attributes: UNKNOWN_ATTRIBUTES,
        reparse_tag: 0,
        link_count: 0,
    }
}

impl NodeMeta {
    /// Metadata in which every field says "not read".
    pub fn unknown() -> (meta: NodeMeta)
        ensures
            meta == unknown_meta(),
    {
        NodeMeta {
            allocated_size: UNKNOWN_ALLOCATION,
            modified_filetime: 0,
            file_id: 0,
            attributes: UNKNOWN_ATTRIBUTES,
            reparse_tag: 0,
            link_count: 0,
        }
    }
}

/// The names of an arena, each stored once and found by its position.
#[derive(Debug)]
pub struct StringPool {
    pub names: Vec<String>,
}

impl View for StringPool {
    type V = Seq<Seq<char>>;

    open spec fn view(&self) -> Seq<Seq<char>> {
        self.names@.map_values(|name: String| name@)
    }
}

impl StringPool {
    /// The name at position `id`, if the pool has one there.
    pub fn get(&self, id: u32) -> (name: Option<&str>)
        ensures
            name is Some <==> id < self@.len(),
            name matches Some(text) ==> text@ == self@[id as int],
    {
        if (id as usize) < self.names.len() {
            Some(self.names[id as usize].as_str())
        } else {
            None
        }
    }
}

/// A finished scan: the nodes and the pool that names them.
#[derive(Debug)]
pub struct FileArenaSnapshot {
    pub nodes: Vec<FileNode>,
    pub string_pool: StringPool,
}

/// Metadata of which nothing was read bears the marks for that and no other value.
pub proof fn unknown_metadata_bears_the_marks()
    ensures
        unknown_meta().allocated_size == 0xFFFF_FFFF_FFFF_FFFFu64,
        unknown_meta().attributes == 0xFFFF_FFFFu32,
        unknown_meta().modified_filetime == 0,
        unknown_meta().file_id == 0,
        unknown_meta().reparse_tag == 0,
        unknown_meta().link_count == 0,
{
}

/// A pool holds its names in their order.
pub proof fn pool_holds_its_names(pool: StringPool)
    ensures
        pool@.len() == pool.names@.len(),
        forall|i: int| 0 <= i < pool.names@.len() ==> #[trigger] pool@[i] == pool.names@[i]@,
{
}

} // verus!
