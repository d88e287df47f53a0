//! Allocated bytes of whole subtrees.

use crate::arena::{FileNode, NodeMeta, NO_INDEX, UNKNOWN_ALLOCATION};
use vstd::prelude::*;

verus! {

/// Whether node `j` has a parent that stands before it in the arena.
pub open spec fn has_parent(nodes: Seq<FileNode>, j: nat) -> bool {
    nodes[j as int].parent != NO_INDEX && nodes[j as int].parent < j
}

/// Whether node `j` is `top` or lies somewhere below it.
pub open spec fn under(nodes: Seq<FileNode>, j: nat, top: nat) -> bool
    decreases j,
{
    j == top || (has_parent(nodes, j) && under(nodes, nodes[j as int].parent as nat, top))
}

/// What a node itself contributes: nothing for a directory, the allocation of a
/// file, or `None` where that is unknown.
pub open spec fn own_allocation(node: FileNode, meta: NodeMeta) -> Option<nat> {
    if node.directory {
        Some(0)
    } else if meta.allocated_size == UNKNOWN_ALLOCATION {
        None
    } else {
        Some(meta.allocated_size as nat)
    }
}

/// Sum of two contributions; unknown as soon as one of them is.
pub open spec fn combined(a: Option<nat>, b: Option<nat>) -> Option<nat> {
    match (a, b) {
        (Some(x), Some(y)) => Some(x + y),
        _ => None,
    }
}

/// Sum of the contributions of the chosen nodes among the first `count`.
pub open spec fn total_where(
    nodes: Seq<FileNode>,
    metas: Seq<NodeMeta>,
    chosen: spec_fn(nat) -> bool,
    count: nat,
) -> Option<nat>
    decreases count,
{
    if count == 0 {
        Some(0)
    } else {
        let last = (count - 1) as nat;
        let before = total_where(nodes, metas, chosen, last);
        if chosen(last) {
            combined(before, own_allocation(nodes[last as int], metas[last as int]))
        } else {
            before
        }
    }
}

/// Number of nodes that have metadata.
pub open spec fn measured(nodes: Seq<FileNode>, metas: Seq<NodeMeta>) -> nat {
    if nodes.len() <= metas.len() {
        nodes.len()
    } else {
        metas.len()
    }
}

/// Bytes allocated by `top` and everything below it.
pub open spec fn subtree_total(nodes: Seq<FileNode>, metas: Seq<NodeMeta>, top: nat) -> Option<nat> {
    total_where(nodes, metas, |j: nat| under(nodes, j, top), measured(nodes, metas))
}

/// A total as 64 bits hold it: values beyond the largest stay at the largest.
pub open spec fn capped(total: Option<nat>) -> Option<u64> {
    match total {
        Some(bytes) => Some(
            if bytes <= u64::MAX {
                bytes as u64
            } else {
                u64::MAX
            },
        ),
        None => None,
    }
}

/// Whether `j` leads to `top` by parent links that all start at `from` or later.
spec fn leads_to(nodes: Seq<FileNode>, j: nat, top: nat, from: nat) -> bool
    decreases j,
{
    j == top || (j >= from && has_parent(nodes, j) && leads_to(
        nodes,
        nodes[j as int].parent as nat,
        top,
        from,
    ))
}

spec fn total_from(
    nodes: Seq<FileNode>,
    metas: Seq<NodeMeta>,
    top: nat,
    from: nat,
    count: nat,
) -> Option<nat> {
    total_where(nodes, metas, |j: nat| leads_to(nodes, j, top, from), count)
}

/// Equal choices give equal totals.
proof fn lemma_total_congruent(
    nodes: Seq<FileNode>,
    metas: Seq<NodeMeta>,
    a: spec_fn(nat) -> bool,
    b: spec_fn(nat) -> bool,
    count: nat,
)
    requires
        forall|j: nat| j < count ==> #[trigger] a(j) == b(j),
    ensures
        total_where(nodes, metas, a, count) == total_where(nodes, metas, b, count),
    decreases count,
{
    if count > 0 {
        let last = (count - 1) as nat;
        assert(a(last) == b(last));
        lemma_total_congruent(nodes, metas, a, b, last);
    }
}

/// The total over a disjoint union is the sum of the totals.
proof fn lemma_total_splits(
    nodes: Seq<FileNode>,
    metas: Seq<NodeMeta>,
    whole: spec_fn(nat) -> bool,
    a: spec_fn(nat) -> bool,
    b: spec_fn(nat) -> bool,
    count: nat,
)
    requires
        forall|j: nat| j < count ==> (#[trigger] whole(j) <==> a(j) || b(j)),
        forall|j: nat| j < count ==> !(#[trigger] a(j) && b(j)),
    ensures
        total_where(nodes, metas, whole, count) == combined(
            total_where(nodes, metas, a, count),
            total_where(nodes, metas, b, count),
        ),
    decreases count,
{
    if count > 0 {
        let last = (count - 1) as nat;
        lemma_total_splits(nodes, metas, whole, a, b, last);
        assert(whole(last) <==> a(last) || b(last));
        assert(!(a(last) && b(last)));
    }
}

/// The total over one node is what that node contributes.
proof fn lemma_total_of_one(
    nodes: Seq<FileNode>,
    metas: Seq<NodeMeta>,
    chosen: spec_fn(nat) -> bool,
    only: nat,
    count: nat,
)
    requires
        forall|j: nat| j < count ==> (#[trigger] chosen(j) <==> j == only),
    ensures
        total_where(nodes, metas, chosen, count) == if only < count {
            own_allocation(nodes[only as int], metas[only as int])
        } else {
            Some(0nat)
        },
    decreases count,
{
    if count > 0 {
        let last = (count - 1) as nat;
        lemma_total_of_one(nodes, metas, chosen, only, last);
        assert(chosen(last) <==> last == only);
    }
}

/// Without any link to follow, a node leads only to itself.
proof fn lemma_leads_without_links(nodes: Seq<FileNode>, j: nat, top: nat, from: nat)
    requires
        j < from,
    ensures
        leads_to(nodes, j, top, from) <==> j == top,
{
}

/// Following the link of one more node, `idx`, joins what led to `idx` to its parent.
proof fn lemma_leads_one_more_link(nodes: Seq<FileNode>, j: nat, top: nat, idx: nat)
    ensures
        leads_to(nodes, j, top, idx) <==> leads_to(nodes, j, top, idx + 1) || (has_parent(
            nodes,
            idx,
        ) && top == nodes[idx as int].parent && leads_to(nodes, j, idx, idx + 1)),
    decreases j,
{
    if has_parent(nodes, j) {
        let parent = nodes[j as int].parent as nat;
        lemma_leads_one_more_link(nodes, parent, top, idx);
        if j == idx {
            lemma_leads_without_links(nodes, parent, top, idx);
        }
    }
}

/// Before the link of `idx` is followed, nothing leads both to `idx` and to a node before it.
proof fn lemma_leads_apart(nodes: Seq<FileNode>, j: nat, idx: nat, before: nat)
    requires
        before < idx,
    ensures
        !(leads_to(nodes, j, idx, idx + 1) && leads_to(nodes, j, before, idx + 1)),
    decreases j,
{
    if has_parent(nodes, j) {
        lemma_leads_apart(nodes, nodes[j as int].parent as nat, idx, before);
    }
}

/// With the links of all nodes but the first, "leads to" is "lies under".
proof fn lemma_leads_is_under(nodes: Seq<FileNode>, j: nat, top: nat, from: nat)
    requires
        from <= 1,
    ensures
        leads_to(nodes, j, top, from) == under(nodes, j, top),
    decreases j,
{
    if has_parent(nodes, j) {
        lemma_leads_is_under(nodes, nodes[j as int].parent as nat, top, from);
    }
}

/// How the totals change when the link of `idx` is followed.
proof fn lemma_total_one_more_link(
    nodes: Seq<FileNode>,
    metas: Seq<NodeMeta>,
    top: nat,
    idx: nat,
    count: nat,
)
    ensures
        total_from(nodes, metas, top, idx, count) == if has_parent(nodes, idx) && top
            == nodes[idx as int].parent {
            combined(
                total_from(nodes, metas, top, idx + 1, count),
                total_from(nodes, metas, idx, idx + 1, count),
            )
        } else {
            total_from(nodes, metas, top, idx + 1, count)
        },
{
    let whole = |j: nat| leads_to(nodes, j, top, idx);
    let a = |j: nat| leads_to(nodes, j, top, idx + 1);
    let b = |j: nat| leads_to(nodes, j, idx, idx + 1);
    assert forall|j: nat| j < count implies (#[trigger] whole(j) <==> a(j) || (has_parent(nodes, idx)
        && top == nodes[idx as int].parent && b(j))) by {
        lemma_leads_one_more_link(nodes, j, top, idx);
    }
    if has_parent(nodes, idx) && top == nodes[idx as int].parent {
        assert forall|j: nat| j < count implies !(#[trigger] a(j) && b(j)) by {
            lemma_leads_apart(nodes, j, idx, top);
        }
        lemma_total_splits(nodes, metas, whole, a, b, count);
    } else {
        lemma_total_congruent(nodes, metas, whole, a, count);
    }
}

/// Bytes allocated under each node: a file's own allocation, or the sum over a
/// directory's files. `None` when any contributing allocation is unknown.
pub fn subtree_allocations(nodes: &[FileNode], metas: &[NodeMeta]) -> (totals: Vec<Option<u64>>)
    ensures
        totals@.len() == measured(nodes@, metas@),
        totals@.len() == if nodes@.len() <= metas@.len() {
            nodes@.len()
        } else {
            metas@.len()
        },
        forall|i: int|
            0 <= i < totals@.len() ==> #[trigger] totals@[i] == capped(
                subtree_total(nodes@, metas@, i as nat),
            ),
{
    let count: usize = if nodes.len() <= metas.len() {
        nodes.len()
    } else {
        metas.len()
    };
    let mut totals: Vec<Option<u64>> = Vec::new();
    let mut filled: usize = 0;
    while filled < count
        invariant
            count == measured(nodes@, metas@),
            filled <= count,
            totals@.len() == filled,
            forall|i: int|
                0 <= i < filled ==> #[trigger] totals@[i] == capped(
                    own_allocation(nodes@[i], metas@[i]),
                ),
        decreases count - filled,
    {
        let own: Option<u64> = if nodes[filled].is_directory() {
            Some(0)
        } else if metas[filled].allocated_size == UNKNOWN_ALLOCATION {
            None
        } else {
            Some(metas[filled].allocated_size)
        };
        totals.push(own);
        filled = filled + 1;
    }
    proof {
        assert forall|i: int| 0 <= i < count implies #[trigger] totals@[i] == capped(
            total_from(nodes@, metas@, i as nat, count as nat, count as nat),
        ) by {
            let chosen = |j: nat| leads_to(nodes@, j, i as nat, count as nat);
            assert forall|j: nat| j < count implies (#[trigger] chosen(j) <==> j == i) by {
                lemma_leads_without_links(nodes@, j, i as nat, count as nat);
            }
            lemma_total_of_one(nodes@, metas@, chosen, i as nat, count as nat);
        }
    }
    // Children always follow their parent in the arena.
    let mut from: usize = count;
    while from > 1
        invariant
            count == measured(nodes@, metas@),
            from <= count,
            totals@.len() == count,
            forall|i: int|
                0 <= i < count ==> #[trigger] totals@[i] == capped(
                    total_from(nodes@, metas@, i as nat, from as nat, count as nat),
                ),
        decreases from,
    {
        let ghost before = totals@;
        let idx: usize = from - 1;
        let parent_index = nodes[idx].parent;
        if parent_index != NO_INDEX && (parent_index as usize) < idx {
            let parent: usize = parent_index as usize;
            let sum: Option<u64> = match (totals[parent], totals[idx]) {
                (Some(total), Some(child)) => Some(total.saturating_add(child)),
                _ => None,
            };
            totals.set(parent, sum);
        }
        proof {
            assert forall|i: int| 0 <= i < count implies #[trigger] totals@[i] == capped(
                total_from(nodes@, metas@, i as nat, idx as nat, count as nat),
            ) by {
                lemma_total_one_more_link(nodes@, metas@, i as nat, idx as nat, count as nat);
                assert(before[i] == capped(
                    total_from(nodes@, metas@, i as nat, from as nat, count as nat),
                ));
                assert(before[idx as int] == capped(
                    total_from(nodes@, metas@, idx as nat, from as nat, count as nat),
                ));
            }
        }
        from = idx;
    }
    proof {
        assert forall|i: int| 0 <= i < count implies #[trigger] totals@[i] == capped(
            subtree_total(nodes@, metas@, i as nat),
        ) by {
            let a = |j: nat| leads_to(nodes@, j, i as nat, from as nat);
            let b = |j: nat| under(nodes@, j, i as nat);
            assert forall|j: nat| j < count implies #[trigger] a(j) == b(j) by {
                lemma_leads_is_under(nodes@, j, i as nat, from as nat);
            }
            lemma_total_congruent(nodes@, metas@, a, b, count as nat);
        }
    }
    totals
}

/// What lies below a node lies below everything that node lies below.
proof fn lemma_under_transitive(nodes: Seq<FileNode>, j: nat, middle: nat, top: nat)
    requires
        under(nodes, j, middle),
        under(nodes, middle, top),
    ensures
        under(nodes, j, top),
    decreases j,
{
    if j != middle {
        lemma_under_transitive(nodes, nodes[j as int].parent as nat, middle, top);
    }
}

proof fn lemma_total_unknown(
    nodes: Seq<FileNode>,
    metas: Seq<NodeMeta>,
    chosen: spec_fn(nat) -> bool,
    count: nat,
)
    ensures
        total_where(nodes, metas, chosen, count) is None <==> exists|j: nat|
            j < count && #[trigger] chosen(j) && own_allocation(
                nodes[j as int],
                metas[j as int],
            ) is None,
    decreases count,
{
    if count > 0 {
        let last = (count - 1) as nat;
        lemma_total_unknown(nodes, metas, chosen, last);
        if chosen(last) && own_allocation(nodes[last as int], metas[last as int]) is None {
            assert(last < count);
        } else if total_where(nodes, metas, chosen, last) is None {
            let j = choose|j: nat|
                j < last && #[trigger] chosen(j) && own_allocation(
                    nodes[j as int],
                    metas[j as int],
                ) is None;
            assert(j < count && chosen(j));
        }
    }
}

proof fn lemma_total_of_fewer(
    nodes: Seq<FileNode>,
    metas: Seq<NodeMeta>,
    fewer: spec_fn(nat) -> bool,
    more: spec_fn(nat) -> bool,
    count: nat,
)
    requires
        forall|j: nat| j < count && #[trigger] fewer(j) ==> more(j),
    ensures
        total_where(nodes, metas, fewer, count) is None ==> total_where(
            nodes,
            metas,
            more,
            count,
        ) is None,
        total_where(nodes, metas, more, count) matches Some(bytes) ==> total_where(
            nodes,
            metas,
            fewer,
            count,
        )->0 <= bytes,
    decreases count,
{
    if count > 0 {
        let last = (count - 1) as nat;
        lemma_total_of_fewer(nodes, metas, fewer, more, last);
        assert(fewer(last) ==> more(last));
    }
}

/// A total is unknown exactly when the allocation of some file at or below the
/// node is unknown.
pub proof fn unknown_exactly_when_a_part_is(
    nodes: Seq<FileNode>,
    metas: Seq<NodeMeta>,
    top: nat,
)
    ensures
        subtree_total(nodes, metas, top) is None <==> exists|j: nat|
            j < measured(nodes, metas) && #[trigger] under(nodes, j, top) && own_allocation(
                nodes[j as int],
                metas[j as int],
            ) is None,
{
    let chosen = |j: nat| under(nodes, j, top);
    let count = measured(nodes, metas);
    lemma_total_unknown(nodes, metas, chosen, count);
    if subtree_total(nodes, metas, top) is None {
        let j = choose|j: nat|
            j < count && #[trigger] chosen(j) && own_allocation(
                nodes[j as int],
                metas[j as int],
            ) is None;
        assert(under(nodes, j, top));
    }
    if exists|j: nat|
        j < count && #[trigger] under(nodes, j, top) && own_allocation(
            nodes[j as int],
            metas[j as int],
        ) is None {
        let j = choose|j: nat|
            j < count && #[trigger] under(nodes, j, top) && own_allocation(
                nodes[j as int],
                metas[j as int],
            ) is None;
        assert(chosen(j));
    }
}

/// A node with nothing below it has what it allocates itself.
pub proof fn childless_node_has_its_own(nodes: Seq<FileNode>, metas: Seq<NodeMeta>, top: nat)
    requires
        top < measured(nodes, metas),
        forall|j: nat|
            j < measured(nodes, metas) && #[trigger] has_parent(nodes, j)
                ==> nodes[j as int].parent != top,
    ensures
        subtree_total(nodes, metas, top) == own_allocation(nodes[top as int], metas[top as int]),
{
    let chosen = |j: nat| under(nodes, j, top);
    let count = measured(nodes, metas);
    assert forall|j: nat| j < count implies (#[trigger] chosen(j) <==> j == top) by {
        lemma_nothing_under_childless(nodes, j, top, count);
    }
    lemma_total_of_one(nodes, metas, chosen, top, count);
}

proof fn lemma_nothing_under_childless(nodes: Seq<FileNode>, j: nat, top: nat, count: nat)
    requires
        j < count,
        forall|k: nat|
            k < count && #[trigger] has_parent(nodes, k) ==> nodes[k as int].parent != top,
    ensures
        under(nodes, j, top) <==> j == top,
    decreases j,
{
    if has_parent(nodes, j) {
        lemma_nothing_under_childless(nodes, nodes[j as int].parent as nat, top, count);
    }
}

/// A directory holds at least what any node below it holds, and is unknown when that is.
pub proof fn subtree_fits_in_what_holds_it(
    nodes: Seq<FileNode>,
    metas: Seq<NodeMeta>,
    inner: nat,
    outer: nat,
)
    requires
        under(nodes, inner, outer),
    ensures
        subtree_total(nodes, metas, inner) is None ==> subtree_total(nodes, metas, outer) is None,
        subtree_total(nodes, metas, outer) matches Some(bytes) ==> subtree_total(
            nodes,
            metas,
            inner,
        )->0 <= bytes,
{
    let fewer = |j: nat| under(nodes, j, inner);
    let more = |j: nat| under(nodes, j, outer);
    let count = measured(nodes, metas);
    assert forall|j: nat| j < count && #[trigger] fewer(j) implies more(j) by {
        lemma_under_transitive(nodes, j, inner, outer);
    }
    lemma_total_of_fewer(nodes, metas, fewer, more, count);
}

/// Whether `chain` climbs from node `j` to node `top`, from parent to parent.
pub open spec fn climbs(nodes: Seq<FileNode>, chain: Seq<nat>, j: nat, top: nat) -> bool {
    &&& chain.len() > 0
    &&& chain[0] == j
    &&& chain.last() == top
    &&& forall|k: int| 0 <= k < chain.len() - 1 ==> #[trigger] climbs_at(nodes, chain, k)
}

/// Whether `chain` goes from its place `k` to the parent, which stands before its child.
pub open spec fn climbs_at(nodes: Seq<FileNode>, chain: Seq<nat>, k: int) -> bool {
    &&& nodes[chain[k] as int].parent != 0xFFFF_FFFFu32
    &&& nodes[chain[k] as int].parent == chain[k + 1]
    &&& chain[k + 1] < chain[k]
}

/// A node lies at or below another exactly when a chain of parents leads there.
pub proof fn under_is_a_chain_of_parents(nodes: Seq<FileNode>, j: nat, top: nat)
    ensures
        under(nodes, j, top) <==> exists|chain: Seq<nat>| #[trigger] climbs(nodes, chain, j, top),
    decreases j,
{
    if under(nodes, j, top) {
        if j == top {
            assert(climbs(nodes, seq![j], j, top));
        } else {
            let parent = nodes[j as int].parent as nat;
            under_is_a_chain_of_parents(nodes, parent, top);
            let rest = choose|chain: Seq<nat>| #[trigger] climbs(nodes, chain, parent, top);
            let chain = seq![j] + rest;
            assert forall|k: int| 0 <= k < chain.len() - 1 implies #[trigger] climbs_at(
                nodes,
                chain,
                k,
            ) by {
                if k > 0 {
                    assert(climbs_at(nodes, rest, k - 1));
                    assert(chain[k] == rest[k - 1] && chain[k + 1] == rest[k]);
                } else {
                    assert(chain[1] == rest[0]);
                }
            }
            assert(climbs(nodes, chain, j, top));
        }
    }
    if exists|chain: Seq<nat>| #[trigger] climbs(nodes, chain, j, top) {
        let chain = choose|chain: Seq<nat>| #[trigger] climbs(nodes, chain, j, top);
        if chain.len() > 1 {
            let rest = chain.subrange(1, chain.len() as int);
            assert(climbs_at(nodes, chain, 0));
            assert forall|k: int| 0 <= k < rest.len() - 1 implies #[trigger] climbs_at(
                nodes,
                rest,
                k,
            ) by {
                assert(climbs_at(nodes, chain, k + 1));
                assert(rest[k] == chain[k + 1] && rest[k + 1] == chain[k + 2]);
            }
            assert(climbs(nodes, rest, chain[1], top));
            under_is_a_chain_of_parents(nodes, chain[1], top);
        }
    }
}

/// An allocation is unknown exactly when, at or below the node and among the nodes
/// with metadata, there is a file whose allocated size is the mark for "not read".
/// Nothing else of a node or its metadata matters.
pub proof fn unknown_exactly_when_a_file_was_not_read(
    nodes: Seq<FileNode>,
    metas: Seq<NodeMeta>,
    top: nat,
)
    ensures
        capped(subtree_total(nodes, metas, top)) is None <==> exists|j: nat|
            j < nodes.len() && j < metas.len() && #[trigger] under(nodes, j, top)
                && !nodes[j as int].directory && metas[j as int].allocated_size
                == 0xFFFF_FFFF_FFFF_FFFFu64,
{
    unknown_exactly_when_a_part_is(nodes, metas, top);
    if subtree_total(nodes, metas, top) is None {
        let j = choose|j: nat|
            j < measured(nodes, metas) && #[trigger] under(nodes, j, top) && own_allocation(
                nodes[j as int],
                metas[j as int],
            ) is None;
        assert(under(nodes, j, top));
    }
}

/// A file with nothing below it has its allocated size, where that was read.
pub proof fn lone_file_has_its_allocated_size(
    nodes: Seq<FileNode>,
    metas: Seq<NodeMeta>,
    file: nat,
)
    requires
        file < nodes.len(),
        file < metas.len(),
        !nodes[file as int].directory,
        metas[file as int].allocated_size != 0xFFFF_FFFF_FFFF_FFFFu64,
        forall|j: int| 0 <= j < nodes.len() ==> (#[trigger] nodes[j]).parent != file,
    ensures
        capped(subtree_total(nodes, metas, file)) == Some(metas[file as int].allocated_size),
{
    assert forall|j: nat| j < measured(nodes, metas) && #[trigger] has_parent(nodes, j) implies
        nodes[j as int].parent != file by {
        assert(nodes[j as int].parent != file);
    }
    childless_node_has_its_own(nodes, metas, file);
}

/// Where every node at or below the top is a directory or a file without any
/// allocation, nothing is allocated.
pub proof fn nothing_allocated_is_zero(nodes: Seq<FileNode>, metas: Seq<NodeMeta>, top: nat)
    requires
        forall|j: nat|
            j < nodes.len() && j < metas.len() && #[trigger] under(nodes, j, top)
                ==> nodes[j as int].directory || metas[j as int].allocated_size == 0,
    ensures
        subtree_total(nodes, metas, top) == Some(0nat),
{
    let chosen = |j: nat| under(nodes, j, top);
    assert forall|j: nat| j < measured(nodes, metas) && #[trigger] chosen(j) implies own_allocation(
        nodes[j as int],
        metas[j as int],
    ) == Some(0nat) by {
        assert(under(nodes, j, top));
    }
    lemma_total_of_nothing(nodes, metas, chosen, measured(nodes, metas));
}

proof fn lemma_total_of_nothing(
    nodes: Seq<FileNode>,
    metas: Seq<NodeMeta>,
    chosen: spec_fn(nat) -> bool,
    count: nat,
)
    requires
        forall|j: nat|
            j < count && #[trigger] chosen(j) ==> own_allocation(
                nodes[j as int],
                metas[j as int],
            ) == Some(0nat),
    ensures
        total_where(nodes, metas, chosen, count) == Some(0nat),
    decreases count,
{
    if count > 0 {
        let last = (count - 1) as nat;
        assert(chosen(last) ==> own_allocation(nodes[last as int], metas[last as int]) == Some(
            0nat,
        ));
        lemma_total_of_nothing(nodes, metas, chosen, last);
    }
}

/// A total before and after the contribution of one node changed.
spec fn moved(before: Option<nat>, after: Option<nat>, old_part: nat, new_part: nat) -> bool {
    match (before, after) {
        (Some(x), Some(y)) => y + old_part == x + new_part,
        (None, None) => true,
        _ => false,
    }
}

proof fn lemma_total_after_change(
    nodes: Seq<FileNode>,
    metas: Seq<NodeMeta>,
    chosen: spec_fn(nat) -> bool,
    j: nat,
    meta: NodeMeta,
    count: nat,
)
    requires
        j < metas.len(),
        count <= metas.len(),
        own_allocation(nodes[j as int], metas[j as int]) is Some,
        own_allocation(nodes[j as int], meta) is Some,
    ensures
        ({
            let changed = j < count && chosen(j);
            moved(
                total_where(nodes, metas, chosen, count),
                total_where(nodes, metas.update(j as int, meta), chosen, count),
                if changed {
                    own_allocation(nodes[j as int], metas[j as int])->0
                } else {
                    0
                },
                if changed {
                    own_allocation(nodes[j as int], meta)->0
                } else {
                    0
                },
            )
        }),
    decreases count,
{
    if count > 0 {
        lemma_total_after_change(nodes, metas, chosen, j, meta, (count - 1) as nat);
    }
}

/// When the allocated size of a file changes, the totals of the nodes it lies at or
/// below change by as much, those of all others not at all, and its other metadata
/// changes none.
pub proof fn totals_move_with_each_file(
    nodes: Seq<FileNode>,
    metas: Seq<NodeMeta>,
    file: nat,
    meta: NodeMeta,
    top: nat,
)
    requires
        file < nodes.len(),
        file < metas.len(),
        !nodes[file as int].directory,
        metas[file as int].allocated_size != 0xFFFF_FFFF_FFFF_FFFFu64,
        meta.allocated_size != 0xFFFF_FFFF_FFFF_FFFFu64,
    ensures
        ({
            let before = subtree_total(nodes, metas, top);
            let after = subtree_total(nodes, metas.update(file as int, meta), top);
            if under(nodes, file, top) {
                &&& before is Some <==> after is Some
                &&& before is Some ==> after->0 + metas[file as int].allocated_size == before->0
                    + meta.allocated_size
            } else {
                after == before
            }
        }),
{
    let chosen = |j: nat| under(nodes, j, top);
    lemma_total_after_change(nodes, metas, chosen, file, meta, measured(nodes, metas));
}

/// The metadata of a directory counts for no total.
pub proof fn directory_metadata_counts_for_nothing(
    nodes: Seq<FileNode>,
    metas: Seq<NodeMeta>,
    directory: nat,
    meta: NodeMeta,
    top: nat,
)
    requires
        directory < nodes.len(),
        directory < metas.len(),
        nodes[directory as int].directory,
    ensures
        subtree_total(nodes, metas.update(directory as int, meta), top) == subtree_total(
            nodes,
            metas,
            top,
        ),
{
    let chosen = |j: nat| under(nodes, j, top);
    lemma_total_after_change(nodes, metas, chosen, directory, meta, measured(nodes, metas));
}

/// A total that 64 bits hold is given as it is, a larger one as the largest value,
/// an unknown one as unknown.
pub proof fn totals_stay_at_the_largest_value(total: Option<nat>)
    ensures
        capped(total) is None <==> total is None,
        total matches Some(bytes) ==> capped(total)->0 == if bytes <= 0xFFFF_FFFF_FFFF_FFFF {
            bytes as int
        } else {
            0xFFFF_FFFF_FFFF_FFFF
        },
{
}

} // verus!
