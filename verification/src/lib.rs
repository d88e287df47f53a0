//! The decision logic of a read-only, headless disk scan that ends in a compact
//! SQLite snapshot: what a scan may do, what it reports, and which rows of the
//! scanned arena the snapshot holds.

pub mod allocation;
pub mod arena;
pub mod directories;
pub mod events;
pub mod file_id;
pub mod filetime;
pub mod laws;
pub mod model;
pub mod output;
pub mod paths;
pub mod row;
pub mod run;
pub mod scan;
pub mod schema;
pub mod text;
pub mod writer;
