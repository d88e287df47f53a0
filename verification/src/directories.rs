//! The directories met so far: where the listed ones are, and which are excluded.

use crate::arena::NO_INDEX;
use crate::row::ExportError;
use crate::text::{below, path_below};
use std::collections::{HashMap, HashSet};
use vstd::prelude::*;

verus! {

broadcast use vstd::std_specs::hash::group_hash_axioms;

/// Where a node stands among the directories before it.
#[derive(Debug, PartialEq, Eq)]
pub enum Placement {
    /// Inside an excluded directory.
    Hidden,
    /// At this path below the root.
    At(String),
}

/// What a placement says.
pub enum PlacementView {
    Hidden,
    At(Seq<char>),
}

impl View for Placement {
    type V = PlacementView;

    open spec fn view(&self) -> PlacementView {
        match self {
            Placement::Hidden => PlacementView::Hidden,
            Placement::At(path) => PlacementView::At(path@),
        }
    }
}

/// The directories of an arena, up to some node.
#[derive(Debug)]
pub struct Directories {
    paths: HashMap<u32, String>,
    excluded: HashSet<u32>,
}

/// The paths of the listed directories and the excluded ones.
#[verifier::ext_equal]
pub struct DirectoriesView {
    pub paths: Map<u32, Seq<char>>,
    pub excluded: Set<u32>,
}

impl View for Directories {
    type V = DirectoriesView;

    closed spec fn view(&self) -> DirectoriesView {
        DirectoriesView {
            paths: self.paths@.map_values(|path: String| path@),
            excluded: self.excluded@,
        }
    }
}

impl DirectoriesView {
    /// Where a node with this parent and name stands, or why it stands nowhere.
    pub open spec fn placed(
        self,
        parent: u32,
        name: Option<Seq<char>>,
        separator: char,
    ) -> Result<PlacementView, ExportError> {
        if parent != NO_INDEX && self.excluded.contains(parent) {
            Ok(PlacementView::Hidden)
        } else if name is None {
            Err(ExportError::UnresolvedName)
        } else if parent == NO_INDEX {
            Ok(PlacementView::At(Seq::empty()))
        } else if self.paths.dom().contains(parent) {
            Ok(PlacementView::At(below(self.paths[parent], separator, name->0)))
        } else {
            Err(ExportError::OrphanNode)
        }
    }

    /// Whether a node is left out: it is hidden, or an excluded directory other
    /// than the first node.
    pub open spec fn left_out(
        id: u32,
        directory: bool,
        placement: PlacementView,
        excluded: bool,
    ) -> bool {
        placement is Hidden || (directory && id != 0 && excluded)
    }

    /// The directories once a node has been met.
    pub open spec fn settled(
        self,
        id: u32,
        directory: bool,
        placement: PlacementView,
        excluded: bool,
    ) -> DirectoriesView {
        if !directory {
            self
        } else if Self::left_out(id, directory, placement, excluded) {
            DirectoriesView { paths: self.paths, excluded: self.excluded.insert(id) }
        } else {
            DirectoriesView {
                paths: self.paths.insert(id, placement->At_0),
                excluded: self.excluded,
            }
        }
    }
}

impl Directories {
    /// No directory met yet.
    pub fn new() -> (directories: Directories)
        ensures
            directories@ == (DirectoriesView { paths: Map::empty(), excluded: Set::empty() }),
    {
        let directories = Directories { paths: HashMap::new(), excluded: HashSet::new() };
        assert(directories@ =~= DirectoriesView { paths: Map::empty(), excluded: Set::empty() });
        directories
    }

    /// Finds where a node with this parent and name stands.
    pub fn place(&self, parent: u32, name: Option<&str>, separator: char) -> (placement: Result<
        Placement,
        ExportError,
    >)
        ensures
            match placement {
                Ok(placement) => self@.placed(
                    parent,
                    match name {
                        Some(text) => Some(text@),
                        None => None,
                    },
                    separator,
                ) == Ok::<PlacementView, ExportError>(placement@),
                Err(error) => self@.placed(
                    parent,
                    match name {
                        Some(text) => Some(text@),
                        None => None,
                    },
                    separator,
                ) == Err::<PlacementView, ExportError>(error),
            },
    {
        if parent != NO_INDEX && self.excluded.contains(&parent) {
            return Ok(Placement::Hidden);
        }
        match name {
            None => Err(ExportError::UnresolvedName),
            Some(name) => {
                if parent == NO_INDEX {
                    Ok(Placement::At(String::new()))
                } else {
                    match self.paths.get(&parent) {
                        Some(prefix) => Ok(
                            Placement::At(path_below(prefix.as_str(), separator, name)),
                        ),
                        None => Err(ExportError::OrphanNode),
                    }
                }
            },
        }
    }

    /// Takes note of a node and says whether it is listed. `excluded` tells whether
    /// the user excluded the node's own path.
    pub fn settle(&mut self, id: u32, directory: bool, placement: &Placement, excluded: bool) -> (listed:
        bool)
        ensures
            final(self)@ == old(self)@.settled(id, directory, placement@, excluded),
            listed == !DirectoriesView::left_out(id, directory, placement@, excluded),
    {
        match placement {
            Placement::Hidden => {
                if directory {
                    self.excluded.insert(id);
                    assert(self@ =~= old(self)@.settled(id, directory, placement@, excluded));
                }
                false
            },
            Placement::At(path) => {
                if directory && id != 0 && excluded {
                    self.excluded.insert(id);
                    assert(self@ =~= old(self)@.settled(id, directory, placement@, excluded));
                    return false;
                }
                if directory {
                    self.paths.insert(id, path.clone());
                    assert(self@.paths =~= old(self)@.paths.insert(id, path@));
                    assert(self@ =~= old(self)@.settled(id, directory, placement@, excluded));
                }
                true
            },
        }
    }
}

/// A node lies hidden exactly in an excluded directory, whatever its name.
pub proof fn hidden_exactly_in_excluded_directories(
    met: DirectoriesView,
    parent: u32,
    name: Option<Seq<char>>,
    separator: char,
)
    ensures
        met.placed(parent, name, separator) == Ok::<PlacementView, ExportError>(
            PlacementView::Hidden,
        ) <==> parent != 0xFFFF_FFFFu32 && met.excluded.contains(parent),
{
}

/// A node elsewhere is placed by its name in its parent: the root at the empty path,
/// an entry of the root at its name, any other below its parent's path. It is refused
/// exactly without a name, or without a listed directory as its parent.
pub proof fn placed_by_name_in_the_parent(
    met: DirectoriesView,
    parent: u32,
    name: Option<Seq<char>>,
    separator: char,
)
    requires
        parent == 0xFFFF_FFFFu32 || !met.excluded.contains(parent),
    ensures
        met.placed(parent, name, separator) == Err::<PlacementView, ExportError>(
            ExportError::UnresolvedName,
        ) <==> name is None,
        met.placed(parent, name, separator) == Err::<PlacementView, ExportError>(
            ExportError::OrphanNode,
        ) <==> name is Some && parent != 0xFFFF_FFFFu32 && !met.paths.dom().contains(parent),
        name is Some && parent == 0xFFFF_FFFFu32 ==> met.placed(parent, name, separator) == Ok::<
            PlacementView,
            ExportError,
        >(PlacementView::At(Seq::empty())),
        name is Some && parent != 0xFFFF_FFFFu32 && met.paths.dom().contains(parent) ==> met.placed(
            parent,
            name,
            separator,
        ) == Ok::<PlacementView, ExportError>(
            PlacementView::At(
                if met.paths[parent].len() == 0 {
                    name->0
                } else {
                    met.paths[parent] + seq![separator] + name->0
                },
            ),
        ),
{
    if name is Some && met.paths.dom().contains(parent) {
        assert(met.paths[parent].push(separator) =~= met.paths[parent] + seq![separator]);
    }
}

/// Files are left out only when hidden; directories also when excluded themselves,
/// but for the first node. A directory that is met is remembered, as excluded when
/// left out and at its path when not; files change nothing, and no other directory
/// is forgotten or moved.
pub proof fn settling_remembers_the_directory(
    met: DirectoriesView,
    id: u32,
    directory: bool,
    placement: PlacementView,
    excluded: bool,
)
    ensures
        ({
            let out = DirectoriesView::left_out(id, directory, placement, excluded);
            let after = met.settled(id, directory, placement, excluded);
            &&& placement is Hidden ==> out
            &&& !(placement is Hidden) ==> (out <==> directory && id != 0 && excluded)
            &&& !directory ==> after == met
            &&& directory && out ==> after.paths == met.paths && after.excluded
                == met.excluded.insert(id)
            &&& directory && !out ==> after.excluded == met.excluded && after.paths
                == met.paths.insert(id, placement->At_0)
        }),
{
}

/// A placement says whether it is hidden, and at which path else.
pub proof fn placements_say_where(placement: Placement)
    ensures
        placement is Hidden <==> placement@ is Hidden,
        placement matches Placement::At(path) ==> placement@ == PlacementView::At(path@),
{
}

} // verus!
