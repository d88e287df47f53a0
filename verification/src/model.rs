//! What a snapshot of an arena holds, as mathematics.

use crate::allocation::{capped, measured, subtree_total};
use crate::arena::{unknown_meta, FileNode, NodeMeta, NO_INDEX};
use crate::paths::{covered, joined_components};
use crate::row::{row_failure, row_of, ExportError, NodeRowView};
use crate::text::below;
use vstd::prelude::*;

verus! {

/// What a snapshot is made from.
pub struct SnapshotModel {
    pub nodes: Seq<FileNode>,
    /// The string pool.
    pub names: Seq<Seq<char>>,
    pub metas: Seq<NodeMeta>,
    /// The scan root as text.
    pub root_text: Seq<char>,
    /// The platform's path separator.
    pub separator: char,
    /// The bytes of the scan root.
    pub root: Seq<u8>,
    /// The components of each excluded path.
    pub excludes: Seq<Seq<Seq<u8>>>,
}

/// A row of `nodes` and, for a directory, its path in `directories`.
pub struct ExportRowView {
    pub node: NodeRowView,
    pub directory: Option<Seq<char>>,
}

/// Sums over the listed nodes.
pub struct Tally {
    pub files: nat,
    pub dirs: nat,
    /// Sizes of the files.
    pub bytes: nat,
    /// Allocations of the files that have a known one.
    pub allocated_bytes: nat,
    /// Files whose allocation is unknown.
    pub unknown_allocations: nat,
}

impl SnapshotModel {
    /// The name of node `i`, if the pool has it.
    pub open spec fn name(self, i: nat) -> Option<Seq<char>> {
        if self.nodes[i as int].name_id < self.names.len() {
            Some(self.names[self.nodes[i as int].name_id as int])
        } else {
            None
        }
    }

    /// Whether node `i` is marked as having no parent.
    pub open spec fn rooted(self, i: nat) -> bool {
        self.nodes[i as int].parent == NO_INDEX
    }

    pub open spec fn parent(self, i: nat) -> nat {
        self.nodes[i as int].parent as nat
    }

    /// The path of node `i` below the scan root.
    pub open spec fn path(self, i: nat) -> Seq<char>
        decreases i,
    {
        if self.rooted(i) || self.parent(i) >= i || self.name(i) is None {
            Seq::empty()
        } else {
            below(self.path(self.parent(i)), self.separator, self.name(i)->0)
        }
    }

    /// Whether the path of node `i` is one of the excluded paths or lies in one.
    pub open spec fn excluded(self, i: nat) -> bool {
        covered(joined_components(self.separator, self.root, self.path(i)), self.excludes)
    }

    /// Whether node `i` is a directory that the snapshot leaves out with all it
    /// holds: its parent is left out, or its path is excluded. The first node is
    /// never excluded itself.
    pub open spec fn hidden(self, i: nat) -> bool
        decreases i,
    {
        self.nodes[i as int].directory && ((!self.rooted(i) && self.parent(i) < i && self.hidden(
            self.parent(i),
        )) || (i != 0 && self.excluded(i)))
    }

    /// Whether node `i` lies in a directory that is left out.
    pub open spec fn below_hidden(self, i: nat) -> bool {
        !self.rooted(i) && self.parent(i) < i && self.hidden(self.parent(i))
    }

    /// Whether node `i` has rows of its own.
    pub open spec fn listed(self, i: nat) -> bool {
        !self.below_hidden(i) && !self.hidden(i)
    }

    /// Whether the parent of node `i` is a listed directory before it.
    pub open spec fn has_directory(self, i: nat) -> bool {
        &&& self.parent(i) < i
        &&& self.nodes[self.parent(i) as int].directory
        &&& !self.hidden(self.parent(i))
    }

    pub open spec fn meta(self, i: nat) -> NodeMeta {
        if i < self.metas.len() {
            self.metas[i as int]
        } else {
            unknown_meta()
        }
    }

    /// Bytes allocated by node `i` and what lies below it, where known.
    pub open spec fn allocated(self, i: nat) -> Option<u64> {
        if i < measured(self.nodes, self.metas) {
            capped(subtree_total(self.nodes, self.metas, i))
        } else {
            None
        }
    }

    /// Why the export stops at node `i`, if it does.
    pub open spec fn failure(self, i: nat) -> Option<ExportError> {
        if i > u32::MAX {
            Some(ExportError::TooManyNodes)
        } else if self.below_hidden(i) {
            None
        } else if self.name(i) is None {
            Some(ExportError::UnresolvedName)
        } else if !self.rooted(i) && !self.has_directory(i) {
            Some(ExportError::OrphanNode)
        } else if self.hidden(i) {
            None
        } else {
            row_failure(self.nodes[i as int], self.allocated(i))
        }
    }

    /// The rows of node `i`. The first node bears the scan root as its name.
    pub open spec fn row(self, i: nat) -> ExportRowView {
        ExportRowView {
            node: row_of(
                i,
                self.nodes[i as int],
                if i == 0 {
                    self.root_text
                } else {
                    self.name(i)->0
                },
                self.meta(i),
                self.allocated(i),
            ),
            directory: if self.nodes[i as int].directory {
                Some(self.path(i))
            } else {
                None
            },
        }
    }

    /// The rows of the listed nodes from `from` up to, not including, `to`.
    pub open spec fn rows(self, from: nat, to: nat) -> Seq<ExportRowView>
        decreases to,
    {
        if to <= from {
            Seq::empty()
        } else if self.listed((to - 1) as nat) {
            self.rows(from, (to - 1) as nat).push(self.row((to - 1) as nat))
        } else {
            self.rows(from, (to - 1) as nat)
        }
    }

    /// The sums over the first `count` nodes.
    pub open spec fn tally(self, count: nat) -> Tally
        decreases count,
    {
        if count == 0 {
            Tally { files: 0, dirs: 0, bytes: 0, allocated_bytes: 0, unknown_allocations: 0 }
        } else {
            let i = (count - 1) as nat;
            let before = self.tally(i);
            if !self.listed(i) {
                before
            } else if self.nodes[i as int].directory {
                Tally { dirs: before.dirs + 1, ..before }
            } else {
                Tally {
                    files: before.files + 1,
                    dirs: before.dirs,
                    bytes: before.bytes + self.nodes[i as int].size as nat,
                    allocated_bytes: before.allocated_bytes + match self.allocated(i) {
                        Some(bytes) => bytes as nat,
                        None => 0,
                    },
                    unknown_allocations: before.unknown_allocations + if self.allocated(i) is None {
                        1nat
                    } else {
                        0
                    },
                }
            }
        }
    }

    /// The first node from `from` on, before `to`, at which the export stops; `to`
    /// where it does not stop.
    pub open spec fn stop(self, from: nat, to: nat) -> nat
        decreases to - from,
    {
        if from >= to || self.failure(from) is Some {
            from
        } else {
            self.stop(from + 1, to)
        }
    }

    /// Whether the export goes through the first `count` nodes.
    pub open spec fn passes(self, count: nat) -> bool {
        forall|i: nat| i < count ==> (#[trigger] self.failure(i)) is None
    }
}

} // verus!
