//! Writing a snapshot, one decision at a time.
//!
//! The database and the file system are elsewhere. [`SnapshotWriter::advance`] says
//! what to do next; whoever does it comes back with the state of the cancel flag.

use crate::allocation::{capped, measured, subtree_allocations, subtree_total};
use crate::arena::{FileArenaSnapshot, NodeMeta};
use crate::directories::{Directories, DirectoriesView, Placement, PlacementView};
use crate::model::{ExportRowView, SnapshotModel, Tally};
use crate::paths::{
    all_components, is_excluded, path_bytes, path_separator, path_text, separator_of, text_of,
};
use crate::row::{node_row, ExportError, NodeRow};
use crate::scan::{backend_name, Backend};
use crate::text::{decimal, decimal_text};
use std::path::PathBuf;
use vstd::prelude::*;

verus! {

/// Layout version of the snapshot.
pub const FORMAT_VERSION: &'static str = "2";

/// Number of nodes between two looks at the cancel flag.
pub const CANCEL_INTERVAL: usize = 4096;

/// What a snapshot is made from.
#[derive(Debug)]
pub struct SnapshotExport {
    pub snapshot: FileArenaSnapshot,
    pub metas: Vec<NodeMeta>,
    /// The scan root.
    pub root: PathBuf,
    /// Paths whose directories are left out.
    pub excludes: Vec<PathBuf>,
    pub backend: Backend,
}

impl View for SnapshotExport {
    type V = SnapshotModel;

    open spec fn view(&self) -> SnapshotModel {
        SnapshotModel {
            nodes: self.snapshot.nodes@,
            names: self.snapshot.string_pool@,
            metas: self.metas@,
            root_text: path_text(self.root),
            separator: path_separator(self.root),
            root: path_bytes(self.root),
            excludes: all_components(self.excludes@),
        }
    }
}

/// The rows of one listed node.
#[derive(Debug, PartialEq, Eq)]
pub struct ExportRow {
    /// The row of `nodes`.
    pub node: NodeRow,
    /// For a directory, its path in `directories`.
    pub directory: Option<String>,
}

impl View for ExportRow {
    type V = ExportRowView;

    open spec fn view(&self) -> ExportRowView {
        ExportRowView {
            node: self.node@,
            directory: match self.directory {
                Some(path) => Some(path@),
                None => None,
            },
        }
    }
}

/// A row of the `metadata` table.
#[derive(Debug, PartialEq, Eq)]
pub struct MetadataRow {
    pub key: &'static str,
    pub value: String,
}

/// What a row of the `metadata` table says.
pub struct MetadataRowView {
    pub key: Seq<char>,
    pub value: Seq<char>,
}

impl View for MetadataRow {
    type V = MetadataRowView;

    open spec fn view(&self) -> MetadataRowView {
        MetadataRowView { key: self.key@, value: self.value@ }
    }
}

/// Sums over the listed nodes; byte counts stay at the largest 64-bit value.
#[derive(Debug, Clone, Copy, PartialEq, Eq)]
pub struct Totals {
    pub files: u64,
    pub dirs: u64,
    pub bytes: u64,
    pub allocated_bytes: u64,
    pub unknown_allocations: u64,
}

impl Totals {
    /// Whether the totals are those of a tally.
    pub open spec fn hold(self, tally: Tally) -> bool {
        &&& self.files == tally.files
        &&& self.dirs == tally.dirs
        &&& self.bytes == capped_bytes(tally.bytes)
        &&& self.allocated_bytes == capped_bytes(tally.allocated_bytes)
        &&& self.unknown_allocations == tally.unknown_allocations
    }
}

/// A byte count as 64 bits hold it.
pub open spec fn capped_bytes(bytes: nat) -> nat {
    if bytes <= u64::MAX {
        bytes
    } else {
        u64::MAX as nat
    }
}

/// How far the writing of a snapshot has come.
#[derive(Debug, Clone, Copy, PartialEq, Eq, Structural)]
pub enum Stage {
    /// Rows of nodes are being inserted.
    Rows,
    /// The metadata has been handed out.
    Metadata,
    /// The indexes have been asked for.
    Indexes,
    /// The snapshot may be published.
    Published,
    /// The snapshot is given up.
    Failed,
}

/// The next thing to do for a snapshot.
#[derive(Debug, PartialEq, Eq)]
pub enum ExportAction {
    /// Insert these rows; then, if there is a failure, give up with it.
    Insert { rows: Vec<ExportRow>, failure: Option<ExportError> },
    /// Insert these rows of metadata and commit.
    WriteMetadata { entries: Vec<MetadataRow> },
    /// Report that these numbers of files and directories are being indexed, and
    /// create the indexes.
    BuildIndexes { files: u64, dirs: u64 },
    /// Close the database and move it to its final name.
    Publish { files: u64, dirs: u64, bytes: u64 },
    /// Give up.
    Abort { error: ExportError },
    /// Nothing is left to do.
    Done,
}

/// What an action says.
pub enum ExportActionView {
    Insert { rows: Seq<ExportRowView>, failure: Option<ExportError> },
    WriteMetadata { entries: Seq<MetadataRowView> },
    BuildIndexes { files: nat, dirs: nat },
    Publish { files: nat, dirs: nat, bytes: nat },
    Abort { error: ExportError },
    Done,
}

impl View for ExportAction {
    type V = ExportActionView;

    open spec fn view(&self) -> ExportActionView {
        match self {
            ExportAction::Insert { rows, failure } => ExportActionView::Insert {
                rows: rows@.map_values(|row: ExportRow| row@),
                failure: *failure,
            },
            ExportAction::WriteMetadata { entries } => ExportActionView::WriteMetadata {
                entries: entries@.map_values(|row: MetadataRow| row@),
            },
            ExportAction::BuildIndexes { files, dirs } => ExportActionView::BuildIndexes {
                files: *files as nat,
                dirs: *dirs as nat,
            },
            ExportAction::Publish { files, dirs, bytes } => ExportActionView::Publish {
                files: *files as nat,
                dirs: *dirs as nat,
                bytes: *bytes as nat,
            },
            ExportAction::Abort { error } => ExportActionView::Abort { error: *error },
            ExportAction::Done => ExportActionView::Done,
        }
    }
}

/// The state of a snapshot being written.
pub struct WriterState {
    pub model: SnapshotModel,
    pub backend: Backend,
    /// Number of nodes dealt with.
    pub next: nat,
    pub stage: Stage,
}

/// One row of metadata.
pub open spec fn entry(key: Seq<char>, value: Seq<char>) -> MetadataRowView {
    MetadataRowView { key, value }
}

impl WriterState {
    /// The start: no node dealt with.
    pub open spec fn start(model: SnapshotModel, backend: Backend) -> WriterState {
        WriterState { model, backend, next: 0, stage: Stage::Rows }
    }

    /// The end of the batch that comes next.
    pub open spec fn batch_end(self) -> nat {
        if self.next + CANCEL_INTERVAL <= self.model.nodes.len() {
            self.next + CANCEL_INTERVAL as nat
        } else {
            self.model.nodes.len()
        }
    }

    /// The rows of the metadata table.
    pub open spec fn metadata(self) -> Seq<MetadataRowView> {
        let tally = self.model.tally(self.next);
        seq![
            entry("format_version"@, "2"@),
            entry("root"@, self.model.root_text),
            entry("backend"@, backend_name(self.backend)),
            entry("file_count"@, decimal(tally.files)),
            entry("directory_count"@, decimal(tally.dirs)),
            entry("logical_bytes"@, decimal(capped_bytes(tally.bytes))),
            entry("allocated_bytes"@, decimal(capped_bytes(tally.allocated_bytes))),
            entry("unknown_allocation_files"@, decimal(tally.unknown_allocations)),
        ]
    }

    /// The next action.
    pub open spec fn action(self, cancelled: bool) -> ExportActionView {
        let tally = self.model.tally(self.next);
        match self.stage {
            Stage::Rows => if self.next == self.model.nodes.len() {
                ExportActionView::WriteMetadata { entries: self.metadata() }
            } else if cancelled {
                ExportActionView::Abort { error: ExportError::Cancelled }
            } else {
                let stop = self.model.stop(self.next, self.batch_end());
                ExportActionView::Insert {
                    rows: self.model.rows(self.next, stop),
                    failure: if stop < self.batch_end() {
                        self.model.failure(stop)
                    } else {
                        None
                    },
                }
            },
            Stage::Metadata => ExportActionView::BuildIndexes {
                files: tally.files,
                dirs: tally.dirs,
            },
            Stage::Indexes => if cancelled {
                ExportActionView::Abort { error: ExportError::Cancelled }
            } else {
                ExportActionView::Publish {
                    files: tally.files,
                    dirs: tally.dirs,
                    bytes: capped_bytes(tally.bytes),
                }
            },
            Stage::Published | Stage::Failed => ExportActionView::Done,
        }
    }

    /// The state after the next action.
    pub open spec fn after(self, cancelled: bool) -> WriterState {
        match self.stage {
            Stage::Rows => if self.next == self.model.nodes.len() {
                WriterState { stage: Stage::Metadata, ..self }
            } else if cancelled {
                WriterState { stage: Stage::Failed, ..self }
            } else {
                let stop = self.model.stop(self.next, self.batch_end());
                WriterState {
                    next: stop,
                    stage: if stop < self.batch_end() {
                        Stage::Failed
                    } else {
                        Stage::Rows
                    },
                    ..self
                }
            },
            Stage::Metadata => WriterState { stage: Stage::Indexes, ..self },
            Stage::Indexes => if cancelled {
                WriterState { stage: Stage::Failed, ..self }
            } else {
                WriterState { stage: Stage::Published, ..self }
            },
            Stage::Published | Stage::Failed => self,
        }
    }
}

/// Whether these are the directories among the first `count` nodes.
spec fn met(directories: DirectoriesView, model: SnapshotModel, count: nat) -> bool {
    &&& forall|p: u32| #[trigger]
        directories.paths.dom().contains(p) <==> p < count && model.nodes[p as int].directory
            && !model.hidden(p as nat)
    &&& forall|p: u32| #[trigger]
        directories.paths.dom().contains(p) ==> directories.paths[p] == model.path(p as nat)
    &&& forall|p: u32| #[trigger]
        directories.excluded.contains(p) <==> p < count && model.hidden(p as nat)
}

/// A snapshot being written.
#[derive(Debug)]
pub struct SnapshotWriter {
    export: SnapshotExport,
    allocations: Vec<Option<u64>>,
    root_text: String,
    separator: char,
    next: usize,
    directories: Directories,
    totals: Totals,
    stage: Stage,
}

impl View for SnapshotWriter {
    type V = WriterState;

    closed spec fn view(&self) -> WriterState {
        WriterState {
            model: self.export@,
            backend: self.export.backend,
            next: self.next as nat,
            stage: self.stage,
        }
    }
}

impl SnapshotWriter {
    /// What holds of a writer between two actions.
    pub closed spec fn well_formed(self) -> bool {
        let model = self.export@;
        &&& self.inputs_ready()
        &&& self.next <= model.nodes.len()
        &&& model.passes(self.next as nat)
        &&& self.totals.hold(model.tally(self.next as nat))
        &&& self.stage is Rows ==> met(self.directories@, model, self.next as nat)
        &&& self.stage is Metadata || self.stage is Indexes || self.stage is Published ==> self.next
            == model.nodes.len()
    }

    spec fn inputs_ready(self) -> bool {
        let model = self.export@;
        &&& self.root_text@ == model.root_text
        &&& self.separator == model.separator
        &&& self.allocations@.len() == measured(model.nodes, model.metas)
        &&& forall|i: int|
            0 <= i < self.allocations@.len() ==> #[trigger] self.allocations@[i] == capped(
                subtree_total(model.nodes, model.metas, i as nat),
            )
    }

    /// Starts a snapshot.
    pub fn new(export: SnapshotExport) -> (writer: SnapshotWriter)
        ensures
            writer.well_formed(),
            writer@ == WriterState::start(export@, export.backend),
    {
        let allocations = subtree_allocations(
            export.snapshot.nodes.as_slice(),
            export.metas.as_slice(),
        );
        let root_text = text_of(&export.root);
        let separator = separator_of(&export.root);
        SnapshotWriter {
            export,
            allocations,
            root_text,
            separator,
            next: 0,
            directories: Directories::new(),
            totals: Totals {
                files: 0,
                dirs: 0,
                bytes: 0,
                allocated_bytes: 0,
                unknown_allocations: 0,
            },
            stage: Stage::Rows,
        }
    }

    /// Adds a listed node to the totals.
    fn count(&mut self, directory: bool, size: u64, allocated: Option<u64>)
        requires
            old(self).totals.files < u64::MAX,
            old(self).totals.dirs < u64::MAX,
            old(self).totals.unknown_allocations < u64::MAX,
        ensures
            *final(self) == (SnapshotWriter { totals: final(self).totals, ..*old(self) }),
            final(self).totals == counted(old(self).totals, directory, size, allocated),
    {
        if directory {
            self.totals.dirs = self.totals.dirs + 1;
        } else {
            self.totals.files = self.totals.files + 1;
            self.totals.bytes = self.totals.bytes.saturating_add(size);
            match allocated {
                Some(bytes) => {
                    self.totals.allocated_bytes = self.totals.allocated_bytes.saturating_add(bytes);
                },
                None => {
                    self.totals.unknown_allocations = self.totals.unknown_allocations + 1;
                },
            }
        }
    }

    /// Deals with the next node: its rows if it is listed, or why the export stops.
    fn export_node(&mut self) -> (row: Result<Option<ExportRow>, ExportError>)
        requires
            old(self).well_formed(),
            old(self).stage is Rows,
            old(self).next < old(self).export@.nodes.len(),
        ensures
            final(self)@.model == old(self)@.model,
            final(self)@.backend == old(self)@.backend,
            final(self)@.stage == old(self)@.stage,
            match row {
                Ok(row) => {
                    let i = old(self)@.next;
                    &&& final(self).well_formed()
                    &&& final(self)@.next == i + 1
                    &&& old(self)@.model.failure(i) is None
                    &&& row is Some <==> old(self)@.model.listed(i)
                    &&& row matches Some(row) ==> row@ == old(self)@.model.row(i)
                },
                Err(error) => {
                    &&& final(self)@.next == old(self)@.next
                    &&& old(self)@.model.failure(old(self)@.next) == Some(error)
                    &&& final(self).inputs_ready()
                    &&& final(self).totals == old(self).totals
                },
            },
    {
        let ghost model = self.export@;
        let ghost i = self.next as nat;
        let idx: usize = self.next;
        assert(idx < self.export.snapshot.nodes.len());
        if idx as u64 > u32::MAX as u64 {
            return Err(ExportError::TooManyNodes);
        }
        let id: u32 = idx as u32;
        let node = self.export.snapshot.nodes[idx];
        let name = self.export.snapshot.string_pool.get(node.name_id);
        let placement = match self.directories.place(node.parent, name, self.separator) {
            Ok(placement) => placement,
            Err(error) => {
                return Err(error);
            },
        };
        let excluded: bool = match &placement {
            Placement::At(relative) => node.is_directory() && idx != 0 && is_excluded(
                &self.export.root,
                relative.as_str(),
                &self.export.excludes,
            ),
            Placement::Hidden => false,
        };
        let listed = self.directories.settle(id, node.is_directory(), &placement, excluded);
        proof {
            assert(listed == model.listed(i));
            assert(met(self.directories@, model, i + 1)) by {
                lemma_met_one_more(
                    old(self).directories@,
                    self.directories@,
                    model,
                    id,
                    placement@,
                    excluded,
                );
            }
            lemma_tally_bounded(model, i);
        }
        if !listed {
            self.next = idx + 1;
            return Ok(None);
        }
        let meta = if idx < self.export.metas.len() {
            self.export.metas[idx]
        } else {
            NodeMeta::unknown()
        };
        let allocated: Option<u64> = if idx < self.allocations.len() {
            self.allocations[idx]
        } else {
            None
        };
        let text: &str = if idx == 0 {
            self.root_text.as_str()
        } else {
            name.unwrap()
        };
        let row = match node_row(id, &node, text, &meta, allocated) {
            Ok(row) => row,
            Err(error) => {
                return Err(error);
            },
        };
        let directory: Option<String> = match placement {
            Placement::At(relative) => if node.is_directory() {
                Some(relative)
            } else {
                None
            },
            Placement::Hidden => None,
        };
        self.count(node.is_directory(), node.size, allocated);
        self.next = idx + 1;
        Ok(Some(ExportRow { node: row, directory }))
    }
}

impl SnapshotWriter {
    /// The rows of the metadata table.
    fn metadata(&self) -> (entries: Vec<MetadataRow>)
        requires
            self.well_formed(),
        ensures
            entries@.map_values(|row: MetadataRow| row@) == self@.metadata(),
    {
        let totals = self.totals;
        let mut entries: Vec<MetadataRow> = Vec::new();
        entries.push(MetadataRow { key: "format_version", value: FORMAT_VERSION.to_owned() });
        entries.push(MetadataRow { key: "root", value: self.root_text.clone() });
        entries.push(MetadataRow { key: "backend", value: self.export.backend.name().to_owned() });
        entries.push(MetadataRow { key: "file_count", value: decimal_text(totals.files) });
        entries.push(MetadataRow { key: "directory_count", value: decimal_text(totals.dirs) });
        entries.push(MetadataRow { key: "logical_bytes", value: decimal_text(totals.bytes) });
        // Sum over files whose allocation is known; the count below says how many are not.
        entries.push(
            MetadataRow { key: "allocated_bytes", value: decimal_text(totals.allocated_bytes) },
        );
        entries.push(
            MetadataRow {
                key: "unknown_allocation_files",
                value: decimal_text(totals.unknown_allocations),
            },
        );
        assert(entries@.map_values(|row: MetadataRow| row@) =~= self@.metadata());
        entries
    }

    /// Deals with the next batch of nodes.
    fn next_batch(&mut self) -> (action: ExportAction)
        requires
            old(self).well_formed(),
            old(self)@.stage is Rows,
            old(self)@.next < old(self)@.model.nodes.len(),
        ensures
            final(self).well_formed(),
            final(self)@ == old(self)@.after(false),
            action@ == old(self)@.action(false),
    {
        let ghost start = self@;
        let ghost model = self@.model;
        let count: usize = self.export.snapshot.nodes.len();
        let end: usize = if count - self.next >= CANCEL_INTERVAL {
            self.next + CANCEL_INTERVAL
        } else {
            count
        };
        let mut rows: Vec<ExportRow> = Vec::new();
        assert(rows@.map_values(|row: ExportRow| row@) =~= model.rows(start.next, start.next));
        while self.next < end
            invariant
                self.well_formed(),
                self@.stage is Rows,
                self@.model == model,
                self@.backend == start.backend,
                start == old(self)@,
                start.model == model,
                start.stage is Rows,
                start.next < model.nodes.len(),
                start.next <= self.next <= end <= model.nodes.len(),
                end == start.batch_end(),
                rows@.map_values(|row: ExportRow| row@) == model.rows(start.next, self.next as nat),
            decreases end - self.next,
        {
            let ghost i = self.next as nat;
            let ghost listed = rows@;
            match self.export_node() {
                Ok(Some(row)) => {
                    rows.push(row);
                    assert(rows@.map_values(|row: ExportRow| row@) =~= listed.map_values(
                        |row: ExportRow| row@,
                    ).push(row@));
                },
                Ok(None) => {},
                Err(error) => {
                    self.stage = Stage::Failed;
                    proof {
                        lemma_stop_at(model, start.next, i, end as nat);
                    }
                    return ExportAction::Insert { rows, failure: Some(error) };
                },
            }
        }
        proof {
            lemma_stop_at(model, start.next, end as nat, end as nat);
        }
        ExportAction::Insert { rows, failure: None }
    }

    /// Says what to do next, given whether cancellation has been requested.
    pub fn advance(&mut self, cancelled: bool) -> (action: ExportAction)
        requires
            old(self).well_formed(),
        ensures
            final(self).well_formed(),
            final(self)@ == old(self)@.after(cancelled),
            action@ == old(self)@.action(cancelled),
    {
        match self.stage {
            Stage::Rows => {
                if self.next == self.export.snapshot.nodes.len() {
                    let entries = self.metadata();
                    self.stage = Stage::Metadata;
                    ExportAction::WriteMetadata { entries }
                } else if cancelled {
                    self.stage = Stage::Failed;
                    ExportAction::Abort { error: ExportError::Cancelled }
                } else {
                    self.next_batch()
                }
            },
            Stage::Metadata => {
                self.stage = Stage::Indexes;
                ExportAction::BuildIndexes { files: self.totals.files, dirs: self.totals.dirs }
            },
            Stage::Indexes => {
                if cancelled {
                    self.stage = Stage::Failed;
                    ExportAction::Abort { error: ExportError::Cancelled }
                } else {
                    self.stage = Stage::Published;
                    ExportAction::Publish {
                        files: self.totals.files,
                        dirs: self.totals.dirs,
                        bytes: self.totals.bytes,
                    }
                }
            },
            Stage::Published | Stage::Failed => ExportAction::Done,
        }
    }
}

/// The export stops where nothing before fails and the end is reached or the next
/// node fails.
proof fn lemma_stop_at(model: SnapshotModel, from: nat, at: nat, to: nat)
    requires
        from <= at <= to,
        forall|i: nat| from <= i < at ==> (#[trigger] model.failure(i)) is None,
        at == to || model.failure(at) is Some,
    ensures
        model.stop(from, to) == at,
    decreases at - from,
{
    if from < at {
        assert(model.failure(from) is None);
        lemma_stop_at(model, from + 1, at, to);
    }
}

/// The totals with one more listed node.
spec fn counted(totals: Totals, directory: bool, size: u64, allocated: Option<u64>) -> Totals {
    if directory {
        Totals { dirs: (totals.dirs + 1) as u64, ..totals }
    } else {
        Totals {
            files: (totals.files + 1) as u64,
            dirs: totals.dirs,
            bytes: capped_bytes((totals.bytes + size) as nat) as u64,
            allocated_bytes: match allocated {
                Some(bytes) => capped_bytes((totals.allocated_bytes + bytes) as nat) as u64,
                None => totals.allocated_bytes,
            },
            unknown_allocations: match allocated {
                Some(_) => totals.unknown_allocations,
                None => (totals.unknown_allocations + 1) as u64,
            },
        }
    }
}

/// No count exceeds the number of nodes counted.
pub(crate) proof fn lemma_tally_bounded(model: SnapshotModel, count: nat)
    ensures
        model.tally(count).files + model.tally(count).dirs <= count,
        model.tally(count).unknown_allocations <= model.tally(count).files,
    decreases count,
{
    if count > 0 {
        lemma_tally_bounded(model, (count - 1) as nat);
    }
}

/// Settling the next node keeps track of the directories met.
proof fn lemma_met_one_more(
    before: DirectoriesView,
    after: DirectoriesView,
    model: SnapshotModel,
    id: u32,
    placement: PlacementView,
    excluded: bool,
)
    requires
        met(before, model, id as nat),
        before.placed(
            model.nodes[id as int].parent,
            model.name(id as nat),
            model.separator,
        ) == Ok::<PlacementView, ExportError>(placement),
        placement matches PlacementView::At(_) ==> excluded == (model.nodes[id as int].directory
            && id != 0 && model.excluded(id as nat)),
        after == before.settled(id, model.nodes[id as int].directory, placement, excluded),
    ensures
        met(after, model, id as nat + 1),
        model.listed(id as nat) == !DirectoriesView::left_out(
            id,
            model.nodes[id as int].directory,
            placement,
            excluded,
        ),
        placement is Hidden <==> model.below_hidden(id as nat),
        placement matches PlacementView::At(path) ==> path == model.path(id as nat),
{
    let parent = model.nodes[id as int].parent;
    assert(before.excluded.contains(parent) <==> parent < id && model.hidden(parent as nat));
    assert(before.paths.dom().contains(parent) <==> parent < id
        && model.nodes[parent as int].directory && !model.hidden(parent as nat));
}

} // verus!
