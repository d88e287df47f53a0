//! Identifiers of files, for telling hard links, cycles and device boundaries.

use vstd::prelude::*;

verus! {

/// A device and an inode or file index on it.
pub type FileId = (u64, u64);

/// How a platform tells the identifier of a file.
#[derive(Debug, Clone, Copy, PartialEq, Eq, Structural)]
pub enum IdSource {
    /// It stands in the metadata that a directory walk reads anyway.
    Metadata,
    /// It takes another look at the path, which opens the file.
    PathLookup,
    /// The platform has none.
    Absent,
}

/// The identifier of a file that has none, or whose identifier could not be read.
pub open spec fn no_file_id() -> FileId {
    (0, 0)
}

/// Whether the identifier of a directory entry is asked for: lookups by path are
/// made for directories only, since cycle and device-boundary checks apply to those.
pub open spec fn entry_id_wanted(source: IdSource, directory: bool) -> bool {
    match source {
        IdSource::Metadata => true,
        IdSource::PathLookup => directory,
        IdSource::Absent => false,
    }
}

/// Whether to read the identifier of a directory entry at all.
pub fn wants_entry_id(source: IdSource, directory: bool) -> (wanted: bool)
    ensures
        wanted == entry_id_wanted(source, directory),
{
    match source {
        IdSource::Metadata => true,
        IdSource::PathLookup => directory,
        IdSource::Absent => false,
    }
}

/// The identifier of a file, given what the platform answered.
pub open spec fn file_id_of(source: IdSource, answer: Option<FileId>) -> FileId {
    if source is Absent || answer is None {
        no_file_id()
    } else {
        answer->0
    }
}

/// The identifier of a directory entry, given what the platform answered.
pub open spec fn entry_id_of(source: IdSource, directory: bool, answer: Option<FileId>) -> FileId {
    if entry_id_wanted(source, directory) {
        file_id_of(source, answer)
    } else {
        no_file_id()
    }
}

/// The identifier of a file, from what the platform answered; the fallback where
/// the platform has none or the query failed.
pub fn get_file_id(source: IdSource, answer: Option<FileId>) -> (id: FileId)
    ensures
        id == match (source, answer) {
            (IdSource::Absent, _) => no_file_id(),
            (_, Some(id)) => id,
            (_, None) => no_file_id(),
        },
        id == file_id_of(source, answer),
{
    match source {
        IdSource::Absent => (0, 0),
        IdSource::Metadata | IdSource::PathLookup => match answer {
            Some(id) => id,
            None => (0, 0),
        },
    }
}

/// The identifier of an entry that a directory walk meets, from what the platform
/// answered.
pub fn get_entry_file_id(source: IdSource, directory: bool, answer: Option<FileId>) -> (id: FileId)
    ensures
        id == match answer {
            Some(id) => if entry_id_wanted(source, directory) {
                id
            } else {
                no_file_id()
            },
            None => no_file_id(),
        },
        id == entry_id_of(source, directory, answer),
{
    if wants_entry_id(source, directory) {
        get_file_id(source, answer)
    } else {
        (0, 0)
    }
}

/// The identifier of nothing is (0, 0), and entries are asked for theirs exactly where
/// it stands in the metadata, or where it takes a lookup and they are directories.
pub proof fn lookups_are_for_directories_only(source: IdSource, directory: bool)
    ensures
        no_file_id() == (0u64, 0u64),
        entry_id_wanted(source, directory) <==> source is Metadata || (source is PathLookup
            && directory),
{
}

/// What the platform answers is the identifier, unchanged, wherever the platform has
/// one; without an answer, or on a platform without identifiers, it is (0, 0).
pub proof fn answers_are_taken_as_they_are(source: IdSource, device: u64, index: u64)
    ensures
        !(source is Absent) ==> file_id_of(source, Some((device, index))) == (device, index),
        source is Absent ==> file_id_of(source, Some((device, index))) == (0u64, 0u64),
        file_id_of(source, None) == (0u64, 0u64),
{
}

/// A directory has the same identifier as an entry and by itself; a file where that
/// takes no lookup. Where it would, a file has none as an entry.
pub proof fn entries_have_the_identifiers_of_their_files(
    source: IdSource,
    directory: bool,
    answer: Option<FileId>,
)
    ensures
        directory || !(source is PathLookup) ==> entry_id_of(source, directory, answer)
            == file_id_of(source, answer),
        !directory && source is PathLookup ==> entry_id_of(source, directory, answer) == (
        0u64,
        0u64,
        ),
{
}

} // verus!
