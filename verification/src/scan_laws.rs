//! Laws of the scanner: what a plan does to the names of one destination
//! directory.
//!
//! The laws speak of the plan alone. A destination name is said to stand
//! after the plan where the plan, carried out without a failure, leaves an
//! entry of that name: it stood before and no operation deletes it, or a copy
//! writes it, or a scan of it as a subdirectory was asked for.

use vstd::prelude::*;
use crate::entry::{EntryKind, EntryModel, StatModel};
use crate::path::{child_of, PathModel};
use crate::config::ConfigModel;
use crate::scan::{
    claimed, claims, leftover_emit, listed_entries, listed_errors, lookup, passes, plan_follows,
    plan_of, scan_emits, scan_outcome, source_emit, unreadable_emit, Emit, ItemModel,
    ListingModel, PlanModel,
};
use crate::task::{CopyTaskModel, DirTaskModel, OpModel};

verus! {

/// Whether an operation of the plan deletes what stands at `path`.
pub open spec fn deletes(plan: PlanModel, path: PathModel) -> bool {
    plan.ops.contains(OpModel::DeleteTree(path)) || plan.ops.contains(OpModel::DeleteFile(path))
}

/// Whether a copy of the plan writes the file at `path`.
pub open spec fn writes(plan: PlanModel, path: PathModel) -> bool {
    exists|task: CopyTaskModel|
        task.dest == path && #[trigger] plan.ops.contains(OpModel::CopyIfNeeded(task))
}

/// Whether the plan asks for a scan that makes `path` a directory.
pub open spec fn descends(plan: PlanModel, path: PathModel) -> bool {
    exists|task: DirTaskModel| task.dest == path && #[trigger] plan.dirs.contains(task)
}

/// Whether the destination directory holds an entry called `name` once the
/// plan was carried out.
pub open spec fn stands_after(
    dest_dir: PathModel,
    dests: Seq<EntryModel>,
    plan: PlanModel,
    name: Seq<char>,
) -> bool {
    let path = child_of(dest_dir, name);
    (lookup(dests, name) is Some && !deletes(plan, path)) || writes(plan, path) || descends(
        plan,
        path,
    )
}

/// Whether asking about an entry gave a file or a directory.
pub open spec fn supported(stat: StatModel) -> bool {
    stat matches StatModel::Found(meta) && meta.kind != EntryKind::Other
}

/// Whether a source item is an entry called `name` that the filter let
/// through and that is a file or a directory.
pub open spec fn wants(item: ItemModel, pass: bool, name: Seq<char>) -> bool {
    pass && (item matches Ok(entry) && entry.name == name && supported(entry.stat))
}

/// Whether the source has an entry called `name` that is to be mirrored.
pub open spec fn wanted(sources: Seq<ItemModel>, verdicts: Seq<bool>, name: Seq<char>) -> bool {
    exists|i: int| 0 <= i < sources.len() && #[trigger] wants(sources[i], passes(verdicts, i), name)
}

proof fn lemma_ops_of(emits: Seq<Emit>, op: OpModel)
    ensures
        plan_of(emits).ops.contains(op) <==> emits.contains(Emit::Op(op)),
    decreases emits.len(),
{
    if emits.len() > 0 {
        let front = emits.drop_last();
        lemma_ops_of(front, op);
        let before = plan_of(front).ops;
        let after = plan_of(emits).ops;
        if emits.contains(Emit::Op(op)) {
            let k = choose|k: int| 0 <= k < emits.len() && emits[k] == Emit::Op(op);
            if k < emits.len() - 1 {
                assert(front[k] == Emit::Op(op));
                let m = choose|m: int| 0 <= m < before.len() && before[m] == op;
                assert(after[m] == op);
            } else {
                assert(after[after.len() - 1] == op);
            }
        }
        if after.contains(op) {
            let m = choose|m: int| 0 <= m < after.len() && after[m] == op;
            if m < before.len() {
                assert(before[m] == op);
                let k = choose|k: int| 0 <= k < front.len() && front[k] == Emit::Op(op);
                assert(emits[k] == Emit::Op(op));
            } else {
                assert(emits[emits.len() - 1] == Emit::Op(op));
            }
        }
    }
}

proof fn lemma_dirs_of(emits: Seq<Emit>, task: DirTaskModel)
    ensures
        plan_of(emits).dirs.contains(task) <==> emits.contains(Emit::Dir(task)),
    decreases emits.len(),
{
    if emits.len() > 0 {
        let front = emits.drop_last();
        lemma_dirs_of(front, task);
        let before = plan_of(front).dirs;
        let after = plan_of(emits).dirs;
        if emits.contains(Emit::Dir(task)) {
            let k = choose|k: int| 0 <= k < emits.len() && emits[k] == Emit::Dir(task);
            if k < emits.len() - 1 {
                assert(front[k] == Emit::Dir(task));
                let m = choose|m: int| 0 <= m < before.len() && before[m] == task;
                assert(after[m] == task);
            } else {
                assert(after[after.len() - 1] == task);
            }
        }
        if after.contains(task) {
            let m = choose|m: int| 0 <= m < after.len() && after[m] == task;
            if m < before.len() {
                assert(before[m] == task);
                let k = choose|k: int| 0 <= k < front.len() && front[k] == Emit::Dir(task);
                assert(emits[k] == Emit::Dir(task));
            } else {
                assert(emits[emits.len() - 1] == Emit::Dir(task));
            }
        }
    }
}

/// Where the listing holds a name, it holds it at an entry of that name, and
/// no later entry has it.
pub proof fn lemma_lookup(dests: Seq<EntryModel>, name: Seq<char>)
    ensures
        lookup(dests, name) matches Some(j) ==> 0 <= j < dests.len() && dests[j].name == name,
        lookup(dests, name) is None <==> forall|j: int|
            0 <= j < dests.len() ==> (#[trigger] dests[j]).name != name,
    decreases dests.len(),
{
    if dests.len() > 0 {
        lemma_lookup(dests.drop_last(), name);
        if dests.last().name != name {
            assert forall|j: int| 0 <= j < dests.len() - 1 implies dests.drop_last()[j]
                == dests[j] by {}
            if lookup(dests, name) is None {
                assert forall|j: int| 0 <= j < dests.len() implies (#[trigger] dests[j]).name
                    != name by {
                    if j < dests.len() - 1 {
                        assert(dests.drop_last()[j].name != name);
                    }
                }
            } else {
                let j = lookup(dests.drop_last(), name)->0;
                assert(dests.drop_last()[j] == dests[j]);
            }
        }
    }
}

/// The decisions of a scan, by their place: the unreadable items of the
/// destination, the items of the source, the entries of the destination.
proof fn lemma_emits_by_place(
    src_dir: PathModel,
    dest_dir: PathModel,
    sources: Seq<ItemModel>,
    verdicts: Seq<bool>,
    dest_items: Seq<ItemModel>,
)
    ensures
        ({
            let emits = scan_emits(src_dir, dest_dir, sources, verdicts, dest_items);
            let dests = listed_entries(dest_items);
            let errors = listed_errors(dest_items);
            &&& emits.len() == errors.len() + sources.len() + dests.len()
            &&& forall|k: int|
                0 <= k < errors.len() ==> #[trigger] emits[k] == unreadable_emit(
                    dest_dir,
                    errors[k],
                )
            &&& forall|i: int|
                0 <= i < sources.len() ==> #[trigger] emits[errors.len() + i] == source_emit(
                    src_dir,
                    dest_dir,
                    sources[i],
                    passes(verdicts, i),
                    dests,
                )
            &&& forall|j: int|
                0 <= j < dests.len() ==> #[trigger] emits[errors.len() + sources.len() + j]
                    == leftover_emit(dest_dir, dests, j, sources, verdicts)
        }),
{
}

/// A name that no source item stands for is respected as absent: the plan
/// neither writes it nor descends into it, and deletes the file or the
/// directory that the destination holds under it. This is the case of every
/// name whose source entries the filter refused.
pub proof fn lemma_filter_respected(
    src_dir: PathModel,
    dest_dir: PathModel,
    sources: Seq<ItemModel>,
    verdicts: Seq<bool>,
    dest_items: Seq<ItemModel>,
    name: Seq<char>,
)
    requires
        !claimed(sources, verdicts, name),
    ensures
        ({
            let plan = plan_of(scan_emits(src_dir, dest_dir, sources, verdicts, dest_items));
            let dests = listed_entries(dest_items);
            let path = child_of(dest_dir, name);
            &&& !writes(plan, path)
            &&& !descends(plan, path)
            &&& lookup(dests, name) matches Some(j) ==> (dests[j].stat matches StatModel::Found(
                meta,
            ) ==> {
                &&& meta.kind == EntryKind::Dir ==> plan.ops.contains(OpModel::DeleteTree(path))
                &&& meta.kind == EntryKind::File ==> plan.ops.contains(OpModel::DeleteFile(path))
            })
        }),
{
    let emits = scan_emits(src_dir, dest_dir, sources, verdicts, dest_items);
    let plan = plan_of(emits);
    let dests = listed_entries(dest_items);
    let errors = listed_errors(dest_items);
    let path = child_of(dest_dir, name);
    lemma_emits_by_place(src_dir, dest_dir, sources, verdicts, dest_items);
    assert forall|i: int| 0 <= i < sources.len() implies !#[trigger] claims(
        sources[i],
        passes(verdicts, i),
        name,
    ) by {}
    if writes(plan, path) {
        let task = choose|task: CopyTaskModel|
            task.dest == path && #[trigger] plan.ops.contains(OpModel::CopyIfNeeded(task));
        lemma_ops_of(emits, OpModel::CopyIfNeeded(task));
        let k = choose|k: int|
            0 <= k < emits.len() && emits[k] == Emit::Op(OpModel::CopyIfNeeded(task));
        lemma_written_by_source(src_dir, dest_dir, sources, verdicts, dest_items, k, task);
        let i = k - errors.len();
        assert(claims(sources[i], passes(verdicts, i), name));
    }
    if descends(plan, path) {
        let task = choose|task: DirTaskModel|
            task.dest == path && #[trigger] plan.dirs.contains(task);
        lemma_dirs_of(emits, task);
        let k = choose|k: int| 0 <= k < emits.len() && emits[k] == Emit::Dir(task);
        lemma_descended_by_source(src_dir, dest_dir, sources, verdicts, dest_items, k, task);
        let i = k - errors.len();
        assert(claims(sources[i], passes(verdicts, i), name));
    }
    if let Some(j) = lookup(dests, name) {
        lemma_lookup(dests, name);
        let at = errors.len() + sources.len() + j;
        assert(emits[at] == leftover_emit(dest_dir, dests, j, sources, verdicts));
        if let StatModel::Found(meta) = dests[j].stat {
            if meta.kind == EntryKind::Dir {
                lemma_ops_of(emits, OpModel::DeleteTree(path));
                assert(emits[at] == Emit::Op(OpModel::DeleteTree(path)));
            }
            if meta.kind == EntryKind::File {
                lemma_ops_of(emits, OpModel::DeleteFile(path));
                assert(emits[at] == Emit::Op(OpModel::DeleteFile(path)));
            }
        }
    }
}

/// The name that a child path ends in.
proof fn lemma_child_name(dir: PathModel, a: Seq<char>, b: Seq<char>)
    requires
        child_of(dir, a) == child_of(dir, b),
    ensures
        a == b,
{
    assert(child_of(dir, a).parts.last() == a);
    assert(child_of(dir, b).parts.last() == b);
}

/// A copy in the plan was decided for a source file of the name that it
/// writes, which the filter let through.
proof fn lemma_written_by_source(
    src_dir: PathModel,
    dest_dir: PathModel,
    sources: Seq<ItemModel>,
    verdicts: Seq<bool>,
    dest_items: Seq<ItemModel>,
    k: int,
    task: CopyTaskModel,
)
    requires
        0 <= k < scan_emits(src_dir, dest_dir, sources, verdicts, dest_items).len(),
        scan_emits(src_dir, dest_dir, sources, verdicts, dest_items)[k] == Emit::Op(
            OpModel::CopyIfNeeded(task),
        ),
    ensures
        ({
            let i = k - listed_errors(dest_items).len();
            &&& 0 <= i < sources.len()
            &&& sources[i] matches Ok(entry)
            &&& passes(verdicts, i)
            &&& task.dest == child_of(dest_dir, entry.name)
            &&& entry.stat matches StatModel::Found(meta)
            &&& meta.kind == EntryKind::File
        }),
{
    let emits = scan_emits(src_dir, dest_dir, sources, verdicts, dest_items);
    let dests = listed_entries(dest_items);
    let errors = listed_errors(dest_items);
    lemma_emits_by_place(src_dir, dest_dir, sources, verdicts, dest_items);
    if k < errors.len() {
        assert(emits[k] == unreadable_emit(dest_dir, errors[k]));
    } else if k < errors.len() + sources.len() {
        let i = k - errors.len();
        assert(emits[errors.len() + i] == source_emit(
            src_dir,
            dest_dir,
            sources[i],
            passes(verdicts, i),
            dests,
        ));
    } else {
        let j = k - errors.len() - sources.len();
        assert(emits[errors.len() + sources.len() + j] == leftover_emit(
            dest_dir,
            dests,
            j,
            sources,
            verdicts,
        ));
    }
}

/// A scan asked for by the plan was decided for a source directory of the
/// name that it descends into, which the filter let through.
proof fn lemma_descended_by_source(
    src_dir: PathModel,
    dest_dir: PathModel,
    sources: Seq<ItemModel>,
    verdicts: Seq<bool>,
    dest_items: Seq<ItemModel>,
    k: int,
    task: DirTaskModel,
)
    requires
        0 <= k < scan_emits(src_dir, dest_dir, sources, verdicts, dest_items).len(),
        scan_emits(src_dir, dest_dir, sources, verdicts, dest_items)[k] == Emit::Dir(task),
    ensures
        ({
            let i = k - listed_errors(dest_items).len();
            &&& 0 <= i < sources.len()
            &&& sources[i] matches Ok(entry)
            &&& passes(verdicts, i)
            &&& task.dest == child_of(dest_dir, entry.name)
            &&& entry.stat matches StatModel::Found(meta)
            &&& meta.kind == EntryKind::Dir
        }),
{
    let emits = scan_emits(src_dir, dest_dir, sources, verdicts, dest_items);
    let dests = listed_entries(dest_items);
    let errors = listed_errors(dest_items);
    lemma_emits_by_place(src_dir, dest_dir, sources, verdicts, dest_items);
    if k < errors.len() {
        assert(emits[k] == unreadable_emit(dest_dir, errors[k]));
    } else if k < errors.len() + sources.len() {
        let i = k - errors.len();
        assert(emits[errors.len() + i] == source_emit(
            src_dir,
            dest_dir,
            sources[i],
            passes(verdicts, i),
            dests,
        ));
    } else {
        let j = k - errors.len() - sources.len();
        assert(emits[errors.len() + sources.len() + j] == leftover_emit(
            dest_dir,
            dests,
            j,
            sources,
            verdicts,
        ));
    }
}

/// One scan makes the names of the destination directory those of the
/// source. Let every source entry that the filter let through, and every
/// destination entry, be a file or a directory whose metadata could be read.
/// Then a name stands in the destination after the plan exactly if the source
/// has an entry of that name that the filter let through.
pub proof fn lemma_scan_converges(
    src_dir: PathModel,
    dest_dir: PathModel,
    sources: Seq<ItemModel>,
    verdicts: Seq<bool>,
    dest_items: Seq<ItemModel>,
    name: Seq<char>,
)
    requires
        forall|i: int|
            0 <= i < sources.len() && passes(verdicts, i) ==> (#[trigger] sources[i] matches Ok(
                entry,
            ) ==> supported(entry.stat)),
        forall|j: int|
            0 <= j < listed_entries(dest_items).len() ==> supported(
                (#[trigger] listed_entries(dest_items)[j]).stat,
            ),
    ensures
        stands_after(
            dest_dir,
            listed_entries(dest_items),
            plan_of(scan_emits(src_dir, dest_dir, sources, verdicts, dest_items)),
            name,
        ) <==> wanted(sources, verdicts, name),
{
    let emits = scan_emits(src_dir, dest_dir, sources, verdicts, dest_items);
    let plan = plan_of(emits);
    let dests = listed_entries(dest_items);
    let errors = listed_errors(dest_items);
    let path = child_of(dest_dir, name);
    lemma_emits_by_place(src_dir, dest_dir, sources, verdicts, dest_items);
    lemma_lookup(dests, name);
    if wanted(sources, verdicts, name) {
        let i = choose|i: int|
            0 <= i < sources.len() && #[trigger] wants(sources[i], passes(verdicts, i), name);
        let at = errors.len() + i;
        assert(emits[at] == source_emit(src_dir, dest_dir, sources[i], passes(verdicts, i), dests));
        let entry = sources[i]->Ok_0;
        let meta = entry.stat->Found_0;
        if meta.kind == EntryKind::Dir {
            let task = DirTaskModel { src: child_of(src_dir, name), dest: path };
            assert(emits[at] == Emit::Dir(task));
            lemma_dirs_of(emits, task);
            assert(plan.dirs.contains(task));
        } else {
            if let Some(j) = lookup(dests, name) {
                assert(supported(dests[j].stat));
            }
            let task = emits[at]->Op_0->CopyIfNeeded_0;
            assert(emits[at] == Emit::Op(OpModel::CopyIfNeeded(task)));
            lemma_ops_of(emits, OpModel::CopyIfNeeded(task));
            assert(plan.ops.contains(OpModel::CopyIfNeeded(task)));
        }
        assert(stands_after(dest_dir, dests, plan, name));
    }
    if stands_after(dest_dir, dests, plan, name) {
        if writes(plan, path) {
            let task = choose|task: CopyTaskModel|
                task.dest == path && #[trigger] plan.ops.contains(OpModel::CopyIfNeeded(task));
            lemma_ops_of(emits, OpModel::CopyIfNeeded(task));
            let k = choose|k: int|
                0 <= k < emits.len() && emits[k] == Emit::Op(OpModel::CopyIfNeeded(task));
            lemma_written_by_source(src_dir, dest_dir, sources, verdicts, dest_items, k, task);
            let i = k - errors.len();
            lemma_child_name(dest_dir, sources[i]->Ok_0.name, name);
            assert(wants(sources[i], passes(verdicts, i), name));
        } else if descends(plan, path) {
            let task = choose|task: DirTaskModel|
                task.dest == path && #[trigger] plan.dirs.contains(task);
            lemma_dirs_of(emits, task);
            let k = choose|k: int| 0 <= k < emits.len() && emits[k] == Emit::Dir(task);
            lemma_descended_by_source(src_dir, dest_dir, sources, verdicts, dest_items, k, task);
            let i = k - errors.len();
            lemma_child_name(dest_dir, sources[i]->Ok_0.name, name);
            assert(wants(sources[i], passes(verdicts, i), name));
        } else {
            let j = lookup(dests, name)->0;
            assert(supported(dests[j].stat));
            if !claimed(sources, verdicts, name) {
                lemma_filter_respected(src_dir, dest_dir, sources, verdicts, dest_items, name);
                assert(deletes(plan, path));
            }
            let i = choose|i: int|
                0 <= i < sources.len() && #[trigger] claims(sources[i], passes(verdicts, i), name);
            assert(wants(sources[i], passes(verdicts, i), name));
        }
    }
}

/// Without a filter the plan of a scan is fixed by the two listings: it is
/// the plan on which every source item passes.
pub proof fn lemma_unfiltered_scan_is_exact(
    plan: PlanModel,
    config: ConfigModel,
    task: DirTaskModel,
    sources: ListingModel,
    verdicts: Seq<bool>,
    dests: ListingModel,
)
    requires
        config.filter is None,
        plan_follows(plan, config, task, sources, verdicts, dests),
    ensures
        plan == plan_of(scan_outcome(task.src, task.dest, sources, Seq::empty(), dests)),
{
    let none = Seq::<bool>::empty();
    assert forall|i: int| passes(verdicts, i) == passes(none, i) by {}
    if let Ok(dest_items) = dests {
        if let Ok(items) = sources {
            let ds = listed_entries(dest_items);
            assert forall|name: Seq<char>| claimed(items, verdicts, name) == claimed(
                items,
                none,
                name,
            ) by {
                if claimed(items, verdicts, name) {
                    let i = choose|i: int|
                        0 <= i < items.len() && #[trigger] claims(
                            items[i],
                            passes(verdicts, i),
                            name,
                        );
                    assert(claims(items[i], passes(none, i), name));
                }
                if claimed(items, none, name) {
                    let i = choose|i: int|
                        0 <= i < items.len() && #[trigger] claims(items[i], passes(none, i), name);
                    assert(claims(items[i], passes(verdicts, i), name));
                }
            }
            assert forall|j: int| 0 <= j < ds.len() implies leftover_emit(
                task.dest,
                ds,
                j,
                items,
                verdicts,
            ) == leftover_emit(task.dest, ds, j, items, none) by {}
            assert(scan_emits(task.src, task.dest, items, verdicts, dest_items) =~= scan_emits(
                task.src,
                task.dest,
                items,
                none,
                dest_items,
            ));
        }
    }
}

} // verus!
