//! What holds of every snapshot.

use crate::allocation::{capped, subtree_total, under};
use crate::arena::unknown_meta;
use crate::model::{ExportRowView, SnapshotModel};
use crate::events::EventView;
use crate::paths::{components_of, joined_bytes, path_bytes, path_separator, path_text};
use crate::row::{row_of, ExportError};
use crate::run::{log_after, state_after, told_of, RunInputView, RunStage, RunState};
use crate::scan::Backend;
use crate::text::{below, decimal};
use crate::writer::{
    capped_bytes, lemma_tally_bounded, ExportAction, ExportActionView, ExportRow, SnapshotExport,
    Stage, WriterState, CANCEL_INTERVAL,
};
use vstd::prelude::*;

verus! {

/// The first node of an arena is always listed: no exclusion removes the scan root.
pub proof fn first_node_is_listed(model: SnapshotModel)
    ensures
        model.listed(0),
{
}

/// Whether node `a` is a directory, other than the first node, at or above node
/// `i`, whose path is excluded.
pub open spec fn excludes_from(model: SnapshotModel, a: nat, i: nat) -> bool {
    &&& a != 0
    &&& model.nodes[a as int].directory
    &&& model.excluded(a)
    &&& under(model.nodes, i, a)
}

/// A node is left out exactly when it is, or lies somewhere below, an excluded
/// directory other than the first node.
pub proof fn left_out_exactly_in_excluded_directories(model: SnapshotModel, i: nat)
    requires
        i < model.nodes.len(),
        model.passes(i + 1),
    ensures
        !model.listed(i) <==> exists|a: nat| #[trigger] excludes_from(model, a, i),
    decreases i,
{
    assert(model.failure(i) is None);
    if !model.listed(i) {
        if model.nodes[i as int].directory && i != 0 && model.excluded(i) {
            assert(excludes_from(model, i, i));
        } else {
            assert(model.below_hidden(i));
            let parent = model.parent(i);
            left_out_exactly_in_excluded_directories(model, parent);
            let a = choose|a: nat| #[trigger] excludes_from(model, a, parent);
            assert(excludes_from(model, a, i));
        }
    }
    if exists|a: nat| #[trigger] excludes_from(model, a, i) {
        let a = choose|a: nat| #[trigger] excludes_from(model, a, i);
        if a != i {
            let parent = model.parent(i);
            assert(excludes_from(model, a, parent));
            left_out_exactly_in_excluded_directories(model, parent);
        }
    }
}

/// Every listed node without the root mark has a listed directory before it as its
/// parent, and its path is that directory's path and its own name.
pub proof fn parents_are_listed_first(model: SnapshotModel, i: nat)
    requires
        i < model.nodes.len(),
        model.passes(i + 1),
        model.listed(i),
        !model.rooted(i),
    ensures
        model.parent(i) < i,
        model.nodes[model.parent(i) as int].directory,
        model.listed(model.parent(i)),
        model.name(i) is Some,
        model.path(i) == below(model.path(model.parent(i)), model.separator, model.name(i)->0),
        model.row(i).node.parent_id == Some(model.row(model.parent(i)).node.id),
        model.row(model.parent(i)).directory == Some(model.path(model.parent(i))),
{
    assert(model.failure(i) is None);
    let parent = model.parent(i);
    assert(model.failure(parent) is None);
    if model.below_hidden(parent) {
        assert(model.hidden(parent));
    }
}

/// Batches of rows that follow each other make up the rows of the whole range.
pub proof fn batches_join(model: SnapshotModel, from: nat, middle: nat, to: nat)
    requires
        from <= middle <= to,
    ensures
        model.rows(from, middle) + model.rows(middle, to) == model.rows(from, to),
    decreases to,
{
    if middle < to {
        batches_join(model, from, middle, (to - 1) as nat);
        assert(model.rows(from, middle) + model.rows(middle, to) =~= model.rows(from, to));
    } else {
        assert(model.rows(from, middle) + model.rows(middle, to) =~= model.rows(from, to));
    }
}

/// The rows of a range are those of its listed nodes, each once, in the order of
/// their identifiers.
pub proof fn each_listed_node_once_in_order(model: SnapshotModel, from: nat, to: nat)
    ensures
        forall|k: int|
            0 <= k < model.rows(from, to).len() ==> {
                let id = (#[trigger] model.rows(from, to)[k]).node.id as nat;
                from <= id < to && model.listed(id) && model.rows(from, to)[k] == model.row(id)
            },
        forall|k: int, l: int|
            0 <= k < l < model.rows(from, to).len() ==> (#[trigger] model.rows(
                from,
                to,
            )[k]).node.id < (#[trigger] model.rows(from, to)[l]).node.id,
        forall|i: nat|
            from <= i < to && #[trigger] model.listed(i) ==> model.rows(from, to).contains(
                model.row(i),
            ),
    decreases to,
{
    if to > from {
        let last = (to - 1) as nat;
        each_listed_node_once_in_order(model, from, last);
        let rows = model.rows(from, to);
        let before = model.rows(from, last);
        if model.listed(last) {
            assert(rows == before.push(model.row(last)));
            assert forall|i: nat| from <= i < to && #[trigger] model.listed(i) implies rows.contains(
                model.row(i),
            ) by {
                if i == last {
                    assert(rows[before.len() as int] == model.row(i));
                } else {
                    assert(before.contains(model.row(i)));
                    let k = choose|k: int| 0 <= k < before.len() && before[k] == model.row(i);
                    assert(rows[k] == model.row(i));
                }
            }
            assert forall|k: int| 0 <= k < rows.len() implies ({
                let id = (#[trigger] rows[k]).node.id as nat;
                from <= id < to && model.listed(id) && rows[k] == model.row(id)
            }) by {
                if k < before.len() {
                    assert(rows[k] == before[k]);
                }
            }
            assert forall|k: int, l: int| 0 <= k < l < rows.len() implies (#[trigger] rows[k]).node.id
                < (#[trigger] rows[l]).node.id by {
                assert(rows[k] == before[k]);
                if l < before.len() {
                    assert(rows[l] == before[l]);
                }
            }
        }
    }
}

/// The counts of files and directories add up to the number of rows, and no more
/// files have an unknown allocation than there are files.
pub proof fn counts_match_rows(model: SnapshotModel, count: nat)
    ensures
        model.tally(count).files + model.tally(count).dirs == model.rows(0, count).len(),
        model.tally(count).unknown_allocations <= model.tally(count).files,
    decreases count,
{
    if count > 0 {
        counts_match_rows(model, (count - 1) as nat);
    }
}

/// The state after one action for each of the given states of the cancel flag.
pub open spec fn after_actions(start: WriterState, flags: Seq<bool>) -> WriterState
    decreases flags.len(),
{
    if flags.len() == 0 {
        start
    } else {
        after_actions(start, flags.drop_last()).after(flags.last())
    }
}

/// All rows that those actions insert.
pub open spec fn inserted(start: WriterState, flags: Seq<bool>) -> Seq<ExportRowView>
    decreases flags.len(),
{
    if flags.len() == 0 {
        Seq::empty()
    } else {
        let before = inserted(start, flags.drop_last());
        match after_actions(start, flags.drop_last()).action(flags.last()) {
            ExportActionView::Insert { rows, .. } => before + rows,
            _ => before,
        }
    }
}

proof fn lemma_stop_bounds(model: SnapshotModel, from: nat, to: nat)
    requires
        from <= to,
    ensures
        from <= model.stop(from, to) <= to,
        forall|i: nat| from <= i < model.stop(from, to) ==> (#[trigger] model.failure(i)) is None,
        model.stop(from, to) < to ==> model.failure(model.stop(from, to)) is Some,
    decreases to - from,
{
    if from < to && model.failure(from) is None {
        lemma_stop_bounds(model, from + 1, to);
    }
}

/// Whatever the cancel flag does: the rows inserted so far are exactly those of the
/// listed nodes dealt with, none of which failed, and past the rows every node has
/// been dealt with.
pub proof fn inserted_rows_are_the_listed_nodes(
    model: SnapshotModel,
    backend: Backend,
    flags: Seq<bool>,
)
    ensures
        ({
            let start = WriterState::start(model, backend);
            let state = after_actions(start, flags);
            &&& state.model == model
            &&& state.backend == backend
            &&& state.next <= model.nodes.len()
            &&& model.passes(state.next)
            &&& inserted(start, flags) == model.rows(0, state.next)
            &&& state.stage is Metadata || state.stage is Indexes || state.stage is Published
                ==> state.next == model.nodes.len()
        }),
    decreases flags.len(),
{
    let start = WriterState::start(model, backend);
    if flags.len() > 0 {
        let before = after_actions(start, flags.drop_last());
        inserted_rows_are_the_listed_nodes(model, backend, flags.drop_last());
        if before.stage is Rows && before.next < model.nodes.len() && !flags.last() {
            lemma_stop_bounds(model, before.next, before.batch_end());
            batches_join(model, 0, before.next, model.stop(before.next, before.batch_end()));
        }
    }
}

/// A snapshot is published only when it is complete and no cancellation has been
/// seen: every node has been dealt with, none failed, and the inserted rows are
/// those of all listed nodes.
pub proof fn published_snapshots_are_complete(
    model: SnapshotModel,
    backend: Backend,
    flags: Seq<bool>,
    cancelled: bool,
)
    requires
        after_actions(WriterState::start(model, backend), flags).action(cancelled) is Publish,
    ensures
        !cancelled,
        model.passes(model.nodes.len()),
        inserted(WriterState::start(model, backend), flags) == model.rows(0, model.nodes.len()),
        after_actions(WriterState::start(model, backend), flags).action(cancelled) == (
        ExportActionView::Publish {
            files: model.tally(model.nodes.len()).files,
            dirs: model.tally(model.nodes.len()).dirs,
            bytes: capped_bytes(model.tally(model.nodes.len()).bytes),
        }),
{
    inserted_rows_are_the_listed_nodes(model, backend, flags);
}

/// An export that was given up does nothing more: it never publishes.
pub proof fn given_up_stays_given_up(state: WriterState, flags: Seq<bool>, cancelled: bool)
    requires
        state.stage is Failed,
    ensures
        after_actions(state, flags) == state,
        after_actions(state, flags).action(cancelled) is Done,
    decreases flags.len(),
{
    if flags.len() > 0 {
        given_up_stays_given_up(state, flags.drop_last(), cancelled);
    }
}

/// Where the cancel flag is looked at, a set flag gives the export up.
pub proof fn cancellation_gives_up(state: WriterState)
    requires
        (state.stage is Rows && state.next < state.model.nodes.len()) || state.stage is Indexes,
    ensures
        state.action(true) == (ExportActionView::Abort { error: ExportError::Cancelled }),
        state.after(true).stage is Failed,
{
}

/// The number of actions of an export that nothing stops, up to the last but one.
pub open spec fn actions_before_publishing(nodes: nat) -> nat {
    (nodes + CANCEL_INTERVAL - 1) as nat / CANCEL_INTERVAL as nat + 2
}

/// The flags of an export that nobody cancels.
pub open spec fn never_cancelled(actions: nat) -> Seq<bool> {
    Seq::new(actions, |i: int| false)
}

proof fn lemma_uncancelled_rows(model: SnapshotModel, backend: Backend, batches: nat)
    requires
        model.passes(model.nodes.len()),
        batches * CANCEL_INTERVAL < model.nodes.len() + CANCEL_INTERVAL,
    ensures
        after_actions(WriterState::start(model, backend), never_cancelled(batches)) == (WriterState {
            model,
            backend,
            next: if batches * CANCEL_INTERVAL <= model.nodes.len() {
                (batches * CANCEL_INTERVAL) as nat
            } else {
                model.nodes.len()
            },
            stage: Stage::Rows,
        }),
    decreases batches,
{
    if batches > 0 {
        let fewer = (batches - 1) as nat;
        assert(never_cancelled(batches).drop_last() =~= never_cancelled(fewer));
        assert(!never_cancelled(batches).last());
        lemma_uncancelled_rows(model, backend, fewer);
        let before = after_actions(WriterState::start(model, backend), never_cancelled(fewer));
        lemma_stop_bounds(model, before.next, before.batch_end());
        let stop = model.stop(before.next, before.batch_end());
        if stop < before.batch_end() {
            assert(model.failure(stop) is None);
        }
    }
}

/// An export in which no node fails and that nobody cancels publishes its snapshot.
pub proof fn unhindered_export_publishes(model: SnapshotModel, backend: Backend)
    requires
        model.passes(model.nodes.len()),
    ensures
        after_actions(
            WriterState::start(model, backend),
            never_cancelled(actions_before_publishing(model.nodes.len())),
        ).action(false) is Publish,
{
    let count = model.nodes.len();
    let batches = (count + CANCEL_INTERVAL - 1) as nat / CANCEL_INTERVAL as nat;
    let start = WriterState::start(model, backend);
    assert(count <= batches * CANCEL_INTERVAL < count + CANCEL_INTERVAL);
    lemma_uncancelled_rows(model, backend, batches);
    let flags = never_cancelled(batches + 2);
    let flags1 = never_cancelled(batches + 1);
    assert(flags.drop_last() =~= flags1);
    assert(flags1.drop_last() =~= never_cancelled(batches));
    assert(after_actions(start, flags1).stage is Metadata);
    assert(after_actions(start, flags).stage is Indexes);
}

/// What a run is told of those actions, each at its time.
pub open spec fn inputs_told(
    start: WriterState,
    flags: Seq<bool>,
    elapsed_ms: Seq<u64>,
) -> Seq<RunInputView>
    decreases flags.len(),
{
    if flags.len() == 0 {
        Seq::empty()
    } else {
        let before = inputs_told(start, flags.drop_last(), elapsed_ms);
        match told_of(
            after_actions(start, flags.drop_last()).action(flags.last()),
            elapsed_ms[flags.len() - 1],
        ) {
            Some(input) => before.push(input),
            None => before,
        }
    }
}

/// The event of indexing all that a model lists.
pub open spec fn index_of(model: SnapshotModel) -> EventView {
    let tally = model.tally(model.nodes.len());
    EventView::Index { files: tally.files as u64, dirs: tally.dirs as u64 }
}

/// The event of completion with the tally of a model.
pub open spec fn completion_of(
    task_id: Seq<char>,
    backend: Backend,
    model: SnapshotModel,
    elapsed_ms: u64,
) -> EventView {
    let tally = model.tally(model.nodes.len());
    EventView::Complete {
        task_id,
        backend,
        files: tally.files as u64,
        dirs: tally.dirs as u64,
        bytes: capped_bytes(tally.bytes) as u64,
        elapsed_ms,
    }
}

/// Where a run stands, and what it has reported, when the export stands at `stage`.
spec fn in_step(
    run: RunState,
    log: Seq<EventView>,
    stage: Stage,
    task_id: Seq<char>,
    backend: Backend,
    model: SnapshotModel,
) -> bool {
    let tally = model.tally(model.nodes.len());
    let exporting = run.stage == (RunStage::Exporting { backend }) && log.len() == 0;
    let indexing = run.stage == (RunStage::Indexing {
        backend,
        files: tally.files as u64,
        dirs: tally.dirs as u64,
    }) && log == seq![index_of(model)];
    match stage {
        Stage::Rows | Stage::Metadata => exporting,
        Stage::Indexes => indexing,
        Stage::Published => {
            &&& run.stage is Finished
            &&& log.len() == 2
            &&& log[0] == index_of(model)
            &&& log[1] is Complete
            &&& log[1] == completion_of(task_id, backend, model, log[1]->elapsed_ms)
        },
        Stage::Failed => exporting || indexing,
    }
}

proof fn lemma_run_keeps_step(
    run: RunState,
    model: SnapshotModel,
    backend: Backend,
    flags: Seq<bool>,
    elapsed_ms: Seq<u64>,
)
    requires
        run.stage == (RunStage::Exporting { backend }),
    ensures
        ({
            let start = WriterState::start(model, backend);
            let inputs = inputs_told(start, flags, elapsed_ms);
            &&& state_after(run, inputs).task_id == run.task_id
            &&& in_step(
                state_after(run, inputs),
                log_after(run, inputs),
                after_actions(start, flags).stage,
                run.task_id,
                backend,
                model,
            )
        }),
    decreases flags.len(),
{
    let start = WriterState::start(model, backend);
    if flags.len() > 0 {
        let earlier = flags.drop_last();
        let before = after_actions(start, earlier);
        let told_before = inputs_told(start, earlier, elapsed_ms);
        lemma_run_keeps_step(run, model, backend, earlier, elapsed_ms);
        inserted_rows_are_the_listed_nodes(model, backend, earlier);
        match told_of(before.action(flags.last()), elapsed_ms[flags.len() - 1]) {
            Some(input) => {
                let inputs = told_before.push(input);
                assert(inputs.drop_last() =~= told_before);
                assert(inputs_told(start, flags, elapsed_ms) == inputs);
                let log = log_after(run, told_before);
                assert(log_after(run, inputs) == log + state_after(run, told_before).events(input));
            },
            None => {},
        }
    }
}

/// The counts of an export that goes through fit in 64 bits.
proof fn lemma_counts_fit(model: SnapshotModel, count: nat)
    requires
        model.passes(count),
    ensures
        model.tally(count).files <= u64::MAX,
        model.tally(count).dirs <= u64::MAX,
{
    if count > u32::MAX + 1 {
        let last = (count - 1) as nat;
        assert(model.failure(last) is None);
    }
    lemma_tally_bounded(model, count);
}

/// A run that is told of an export that publishes finishes, and reports the indexing
/// and the completion with the tally of what was exported: the numbers of listed
/// files and directories, and the bytes of the files as 64 bits hold them.
pub proof fn told_runs_complete_with_the_tally(
    run: RunState,
    model: SnapshotModel,
    backend: Backend,
    flags: Seq<bool>,
    elapsed_ms: Seq<u64>,
)
    requires
        run.stage == (RunStage::Exporting { backend }),
        after_actions(WriterState::start(model, backend), flags).stage is Published,
    ensures
        ({
            let inputs = inputs_told(WriterState::start(model, backend), flags, elapsed_ms);
            let log = log_after(run, inputs);
            let tally = model.tally(model.nodes.len());
            &&& state_after(run, inputs).stage is Finished
            &&& log.len() == 2
            &&& log[0] matches EventView::Index { files, dirs } && files == tally.files && dirs
                == tally.dirs
            &&& log[1] matches EventView::Complete {
                task_id,
                backend: by,
                files,
                dirs,
                bytes,
                elapsed_ms: _,
            } && task_id == run.task_id && by == backend && files == tally.files && dirs
                == tally.dirs && bytes == capped_bytes(tally.bytes)
        }),
{
    lemma_run_keeps_step(run, model, backend, flags, elapsed_ms);
    inserted_rows_are_the_listed_nodes(model, backend, flags);
    lemma_counts_fit(model, model.nodes.len());
}

/// A run that is told of an export finishes only if the export publishes.
pub proof fn told_runs_finish_only_when_published(
    run: RunState,
    model: SnapshotModel,
    backend: Backend,
    flags: Seq<bool>,
    elapsed_ms: Seq<u64>,
)
    requires
        run.stage == (RunStage::Exporting { backend }),
    ensures
        state_after(
            run,
            inputs_told(WriterState::start(model, backend), flags, elapsed_ms),
        ).stage is Finished <==> after_actions(
            WriterState::start(model, backend),
            flags,
        ).stage is Published,
{
    lemma_run_keeps_step(run, model, backend, flags, elapsed_ms);
}

/// A node is called what the pool has at its name's place, and nothing where the pool
/// ends before.
pub proof fn nodes_are_called_what_the_pool_says(model: SnapshotModel, i: nat)
    ensures
        model.name(i) is Some <==> model.nodes[i as int].name_id < model.names.len(),
        model.name(i) is Some ==> model.name(i)->0
            == model.names[model.nodes[i as int].name_id as int],
{
}

/// The path of a node marked as root is empty. The path of any other is its name, after
/// the path of its parent and a separator where that path is not empty.
pub proof fn paths_lead_through_the_parents(model: SnapshotModel, i: nat)
    ensures
        model.nodes[i as int].parent == 0xFFFF_FFFFu32 ==> model.path(i).len() == 0,
        ({
            let node = model.nodes[i as int];
            let above = model.path(node.parent as nat);
            let name = model.names[node.name_id as int];
            node.parent != 0xFFFF_FFFFu32 && node.parent < i && node.name_id < model.names.len()
                ==> model.path(i) == if above.len() == 0 {
                name
            } else {
                above + seq![model.separator] + name
            }
        }),
{
    let above = model.path(model.nodes[i as int].parent as nat);
    assert(above.push(model.separator) =~= above + seq![model.separator]);
}

/// The path of a node is excluded exactly when, joined to the scan root, it lies at or
/// in some excluded path, whichever.
pub proof fn paths_are_excluded_by_any_exclude(model: SnapshotModel, i: nat)
    ensures
        model.excluded(i) <==> exists|e: int|
            0 <= e < model.excludes.len() && (#[trigger] model.excludes[e]).is_prefix_of(
                components_of(
                    model.separator,
                    joined_bytes(model.separator, model.root, model.path(i)),
                ),
            ),
{
    let path = components_of(
        model.separator,
        joined_bytes(model.separator, model.root, model.path(i)),
    );
    if exists|e: int|
        0 <= e < model.excludes.len() && (#[trigger] model.excludes[e]).is_prefix_of(path) {
        let e = choose|e: int|
            0 <= e < model.excludes.len() && (#[trigger] model.excludes[e]).is_prefix_of(path);
        assert(model.excludes[e].is_prefix_of(path));
    }
}

/// With more excludes no node is listed that was not, and no path changes.
pub proof fn more_excludes_list_less(fewer: SnapshotModel, more: SnapshotModel, i: nat)
    requires
        more == (SnapshotModel { excludes: more.excludes, ..fewer }),
        forall|e: int|
            0 <= e < fewer.excludes.len() ==> more.excludes.contains(#[trigger] fewer.excludes[e]),
    ensures
        more.path(i) == fewer.path(i),
        fewer.hidden(i) ==> more.hidden(i),
        more.listed(i) ==> fewer.listed(i),
    decreases i,
{
    if !fewer.rooted(i) && fewer.parent(i) < i {
        more_excludes_list_less(fewer, more, fewer.parent(i));
    }
    assert(more.path(i) == fewer.path(i));
    if fewer.excluded(i) {
        paths_are_excluded_by_any_exclude(fewer, i);
        let path = components_of(
            fewer.separator,
            joined_bytes(fewer.separator, fewer.root, fewer.path(i)),
        );
        let e = choose|e: int|
            0 <= e < fewer.excludes.len() && (#[trigger] fewer.excludes[e]).is_prefix_of(path);
        assert(more.excludes.contains(fewer.excludes[e]));
        let f = choose|f: int|
            0 <= f < more.excludes.len() && more.excludes[f] == fewer.excludes[e];
        assert(more.excludes[f].is_prefix_of(path));
    }
}

/// Without excludes every node is listed.
pub proof fn no_excludes_list_all(model: SnapshotModel, i: nat)
    requires
        model.excludes.len() == 0,
    ensures
        model.listed(i),
    decreases i,
{
    if !model.rooted(i) && model.parent(i) < i {
        no_excludes_list_all(model, model.parent(i));
    }
}

/// A directory, other than the first node, is left out when its own path is excluded or
/// its parent is left out; a file when its parent is; nothing else is left out.
pub proof fn left_out_with_the_parent_or_when_excluded(model: SnapshotModel, i: nat)
    ensures
        ({
            let node = model.nodes[i as int];
            let inside = node.parent != 0xFFFF_FFFFu32 && node.parent < i
                && model.nodes[node.parent as int].directory && !model.listed(node.parent as nat);
            !model.listed(i) <==> inside || (node.directory && i != 0 && model.excluded(i))
        }),
{
    lemma_hidden_is_left_out(model, i);
    lemma_hidden_is_left_out(model, model.parent(i));
}

/// The directories that hide what they hold are those that are left out themselves.
proof fn lemma_hidden_is_left_out(model: SnapshotModel, i: nat)
    ensures
        model.hidden(i) <==> model.nodes[i as int].directory && !model.listed(i),
{
}

/// The export stops at a node for exactly one reason, looked at in this order: no
/// identifier is left; its name is missing; its parent is no listed directory before
/// it; its size or allocation is too large. A node in a directory that is left out
/// stops it for want of an identifier only, and a directory left out for its own path
/// never for its size.
pub proof fn exports_stop_for_the_first_reason(model: SnapshotModel, i: nat)
    ensures
        ({
            let node = model.nodes[i as int];
            let rooted = node.parent == 0xFFFF_FFFFu32;
            let inside = !rooted && node.parent < i && model.nodes[node.parent as int].directory
                && !model.listed(node.parent as nat);
            let held = !rooted && node.parent < i && model.nodes[node.parent as int].directory
                && model.listed(node.parent as nat);
            let failure = model.failure(i);
            if i > 0xFFFF_FFFF {
                failure == Some(ExportError::TooManyNodes)
            } else if inside {
                failure is None
            } else if node.name_id >= model.names.len() {
                failure == Some(ExportError::UnresolvedName)
            } else if !rooted && !held {
                failure == Some(ExportError::OrphanNode)
            } else if !model.listed(i) {
                failure is None
            } else if node.size > 0x7FFF_FFFF_FFFF_FFFF {
                failure == Some(ExportError::SizeOutOfRange)
            } else if model.allocated(i) is Some && model.allocated(i)->0 > 0x7FFF_FFFF_FFFF_FFFF {
                failure == Some(ExportError::AllocationOutOfRange)
            } else {
                failure is None
            }
        }),
{
    lemma_hidden_is_left_out(model, i);
    lemma_hidden_is_left_out(model, model.parent(i));
}

/// A node has its own metadata and the allocation of its subtree where there is
/// metadata for it, and unknown ones where there is none.
pub proof fn nodes_have_their_own_metadata(model: SnapshotModel, i: nat)
    requires
        i < model.nodes.len(),
    ensures
        i < model.metas.len() ==> model.meta(i) == model.metas[i as int],
        i < model.metas.len() ==> model.allocated(i) == capped(
            subtree_total(model.nodes, model.metas, i),
        ),
        i >= model.metas.len() ==> model.meta(i) == unknown_meta(),
        i >= model.metas.len() ==> model.allocated(i) is None,
{
}

/// The row of a node is made of that node, its name, its metadata and its allocation;
/// the first node alone bears the scan root in place of its name. Directories, and
/// they alone, have their path beside it.
pub proof fn rows_are_made_of_their_node(model: SnapshotModel, i: nat)
    requires
        model.nodes[i as int].name_id < model.names.len(),
    ensures
        model.row(i).node == row_of(
            i,
            model.nodes[i as int],
            if i == 0 {
                model.root_text
            } else {
                model.names[model.nodes[i as int].name_id as int]
            },
            model.meta(i),
            model.allocated(i),
        ),
        model.row(i).node.id == i,
        model.row(i).node.size == model.nodes[i as int].size,
        model.row(i).directory is Some <==> model.nodes[i as int].directory,
        model.row(i).directory is Some ==> model.row(i).directory->0 == model.path(i),
{
}

/// Each node adds to the sums what it is: a listed directory one directory; a listed
/// file one file, its size, and its allocation where known, one unknown where not; a
/// node left out nothing.
pub proof fn sums_grow_by_each_listed_node(model: SnapshotModel, i: nat)
    ensures
        ({
            let before = model.tally(i);
            let after = model.tally(i + 1);
            let file = model.listed(i) && !model.nodes[i as int].directory;
            let dir = model.listed(i) && model.nodes[i as int].directory;
            let known = file && model.allocated(i) is Some;
            &&& after.files - before.files == if file { 1int } else { 0 }
            &&& after.dirs - before.dirs == if dir { 1int } else { 0 }
            &&& after.bytes - before.bytes == if file {
                model.nodes[i as int].size as int
            } else {
                0
            }
            &&& after.allocated_bytes - before.allocated_bytes == if known {
                model.allocated(i)->0 as int
            } else {
                0
            }
            &&& after.unknown_allocations - before.unknown_allocations == if file && !known {
                1int
            } else {
                0
            }
        }),
        model.tally(0).files == 0,
        model.tally(0).dirs == 0,
        model.tally(0).bytes == 0,
        model.tally(0).allocated_bytes == 0,
        model.tally(0).unknown_allocations == 0,
{
}

/// The export stops at the first node that fails, and at the end of the batch where
/// none does.
pub proof fn exports_stop_at_the_first_failure(model: SnapshotModel, from: nat, to: nat)
    requires
        from <= to,
    ensures
        from <= model.stop(from, to) <= to,
        forall|i: nat| from <= i < model.stop(from, to) ==> (#[trigger] model.failure(i)) is None,
        model.stop(from, to) < to ==> model.failure(model.stop(from, to)) is Some,
{
    lemma_stop_bounds(model, from, to);
}

/// While nodes are left and no cancellation is seen, the export takes up to 4096 nodes
/// at a time: it inserts the rows of those before the first that fails, hands its
/// failure out, if one fails, and is then given up.
pub proof fn batches_are_of_4096_nodes(state: WriterState)
    requires
        state.stage is Rows,
        state.next < state.model.nodes.len(),
    ensures
        ({
            let count = state.model.nodes.len();
            let end = if state.next + 4096 <= count { state.next + 4096 } else { count };
            let stop = state.after(false).next;
            &&& state.next <= stop <= end
            &&& forall|i: nat|
                state.next <= i < stop ==> (#[trigger] state.model.failure(i)) is None
            &&& stop < end ==> state.model.failure(stop) is Some
            &&& state.after(false).stage == if stop < end { Stage::Failed } else { Stage::Rows }
            &&& state.after(false).model == state.model
            &&& state.after(false).backend == state.backend
            &&& state.action(false) is Insert
            &&& state.action(false)->rows == state.model.rows(state.next, stop)
            &&& state.action(false)->failure is None <==> stop == end
            &&& stop < end ==> state.action(false)->failure == state.model.failure(stop)
        }),
{
    lemma_stop_bounds(state.model, state.next, state.batch_end());
}

/// After the last node come the metadata, then the indexes, then the publication, each
/// with the sums over the nodes dealt with; a cancellation is seen while nodes are left
/// and right before the publication only, and after that nothing is left to do.
pub proof fn actions_follow_the_rows(state: WriterState, cancelled: bool)
    ensures
        ({
            let tally = state.model.tally(state.next);
            let after = state.after(cancelled);
            let action = state.action(cancelled);
            match state.stage {
                Stage::Rows => if state.next == state.model.nodes.len() {
                    &&& action is WriteMetadata
                    &&& action->entries == state.metadata()
                    &&& after == (WriterState { stage: Stage::Metadata, ..state })
                } else {
                    cancelled ==> action == (ExportActionView::Abort {
                        error: ExportError::Cancelled,
                    }) && after == (WriterState { stage: Stage::Failed, ..state })
                },
                Stage::Metadata => {
                    &&& action == (ExportActionView::BuildIndexes {
                        files: tally.files,
                        dirs: tally.dirs,
                    })
                    &&& after == (WriterState { stage: Stage::Indexes, ..state })
                },
                Stage::Indexes => if cancelled {
                    &&& action == (ExportActionView::Abort { error: ExportError::Cancelled })
                    &&& after == (WriterState { stage: Stage::Failed, ..state })
                } else {
                    &&& action is Publish
                    &&& action->Publish_files == tally.files
                    &&& action->Publish_dirs == tally.dirs
                    &&& tally.bytes <= 0xFFFF_FFFF_FFFF_FFFF ==> action->bytes == tally.bytes
                    &&& tally.bytes > 0xFFFF_FFFF_FFFF_FFFF ==> action->bytes
                        == 0xFFFF_FFFF_FFFF_FFFF
                    &&& after == (WriterState { stage: Stage::Published, ..state })
                },
                Stage::Published | Stage::Failed => action is Done && after == state,
            }
        }),
{
}

/// The metadata are the version, the root, the backend and the five sums, in this
/// order; byte sums beyond 64 bits as the largest value.
pub proof fn metadata_say_the_sums(state: WriterState)
    ensures
        ({
            let tally = state.model.tally(state.next);
            let rows = state.metadata();
            let largest = 0xFFFF_FFFF_FFFF_FFFFnat;
            &&& rows.len() == 8
            &&& rows[0].key == "format_version"@ && rows[0].value == "2"@
            &&& rows[1].key == "root"@ && rows[1].value == state.model.root_text
            &&& rows[2].key == "backend"@ && rows[2].value == match state.backend {
                Backend::Mft => "mft"@,
                Backend::Walk => "walk"@,
                Backend::Unknown => "unknown"@,
            }
            &&& rows[3].key == "file_count"@ && rows[3].value == decimal(tally.files)
            &&& rows[4].key == "directory_count"@ && rows[4].value == decimal(tally.dirs)
            &&& rows[5].key == "logical_bytes"@ && rows[5].value == decimal(
                if tally.bytes <= largest { tally.bytes } else { largest },
            )
            &&& rows[6].key == "allocated_bytes"@ && rows[6].value == decimal(
                if tally.allocated_bytes <= largest { tally.allocated_bytes } else { largest },
            )
            &&& rows[7].key == "unknown_allocation_files"@ && rows[7].value == decimal(
                tally.unknown_allocations,
            )
        }),
{
}

/// An export is of its arena, its metadata, its root and all of its excludes, and starts
/// at the first node.
pub proof fn exports_start_with_their_inputs(export: SnapshotExport)
    ensures
        export@.nodes == export.snapshot.nodes@,
        export@.names.len() == export.snapshot.string_pool.names@.len(),
        forall|i: int|
            0 <= i < export@.names.len() ==> #[trigger] export@.names[i]
                == export.snapshot.string_pool.names@[i]@,
        export@.metas == export.metas@,
        export@.root_text == path_text(export.root),
        export@.separator == path_separator(export.root),
        export@.root == path_bytes(export.root),
        export@.excludes.len() == export.excludes@.len(),
        forall|e: int|
            0 <= e < export.excludes@.len() ==> #[trigger] export@.excludes[e] == components_of(
                path_separator(export.excludes@[e]),
                path_bytes(export.excludes@[e]),
            ),
        ({
            let start = WriterState::start(export@, export.backend);
            &&& start.model == export@
            &&& start.backend == export.backend
            &&& start.next == 0
            &&& start.stage is Rows
        }),
{
}

/// A row says what its columns hold.
pub proof fn rows_say_what_they_hold(row: ExportRow)
    ensures
        row@.node == row.node@,
        row@.directory is Some <==> row.directory is Some,
        row.directory is Some ==> row@.directory->0 == row.directory->0@,
{
}

/// An action says what it bears.
pub proof fn actions_say_what_they_bear(action: ExportAction)
    ensures
        match action {
            ExportAction::Insert { rows, failure } => {
                &&& action@ is Insert
                &&& action@->failure == failure
                &&& action@->rows.len() == rows@.len()
                &&& forall|k: int|
                    0 <= k < rows@.len() ==> #[trigger] action@->rows[k] == rows@[k]@
            },
            ExportAction::WriteMetadata { entries } => {
                &&& action@ is WriteMetadata
                &&& action@->entries.len() == entries@.len()
                &&& forall|k: int|
                    0 <= k < entries@.len() ==> (#[trigger] action@->entries[k]).key
                        == entries@[k].key@ && action@->entries[k].value == entries@[k].value@
            },
            ExportAction::BuildIndexes { files, dirs } => action@ == (
            ExportActionView::BuildIndexes { files: files as nat, dirs: dirs as nat }),
            ExportAction::Publish { files, dirs, bytes } => action@ == (ExportActionView::Publish {
                files: files as nat,
                dirs: dirs as nat,
                bytes: bytes as nat,
            }),
            ExportAction::Abort { error } => action@ == (ExportActionView::Abort { error }),
            ExportAction::Done => action@ is Done,
        },
{
}

} // verus!
