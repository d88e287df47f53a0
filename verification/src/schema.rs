//! The SQL of a snapshot.

use vstd::prelude::*;

verus! {

/// Creates the tables.
pub const CREATE_TABLES: &'static str = "PRAGMA journal_mode=DELETE; PRAGMA synchronous=NORMAL;
        CREATE TABLE metadata (key TEXT PRIMARY KEY, value TEXT NOT NULL);
        CREATE TABLE nodes (
            id INTEGER PRIMARY KEY, parent_id INTEGER, name TEXT NOT NULL,
            is_dir INTEGER NOT NULL, size INTEGER NOT NULL, allocated_size INTEGER,
            modified_ns INTEGER, created_ns INTEGER, flags INTEGER NOT NULL,
            file_count INTEGER NOT NULL, file_id INTEGER, attributes INTEGER,
            reparse_tag INTEGER, link_count INTEGER
        );
        CREATE TABLE directories (node_id INTEGER PRIMARY KEY, relative_path TEXT NOT NULL);";

/// Inserts a row of `nodes`, its columns in the order of the fields of a node row.
pub const INSERT_NODE: &'static str = "INSERT INTO nodes
            (id,parent_id,name,is_dir,size,allocated_size,modified_ns,created_ns,flags,file_count,
            file_id,attributes,reparse_tag,link_count)
            VALUES (?,?,?,?,?,?,?,?,?,?,?,?,?,?)";

/// Inserts a row of `directories`.
pub const INSERT_DIRECTORY: &'static str =
    "INSERT INTO directories(node_id,relative_path) VALUES (?,?)";

/// Inserts a row of `metadata`.
pub const INSERT_METADATA: &'static str = "INSERT INTO metadata VALUES (?,?)";

/// Creates the indexes.
pub const CREATE_INDEXES: &'static str = "CREATE INDEX idx_nodes_size ON nodes(is_dir,size DESC,id);
        CREATE INDEX idx_nodes_parent ON nodes(parent_id,id);
        CREATE INDEX idx_nodes_name ON nodes(name);
        CREATE INDEX idx_directories_path ON directories(relative_path);";

} // verus!
