//! The scanner: how one destination directory is reconciled against its
//! source.
//!
//! The caller lists both directories and hands the listings over. The plan
//! that comes back names the subdirectories to scan next, the file operations
//! to queue, and what to tell the log. Nothing here touches the file system.

use vstd::prelude::*;
use itertools::Itertools;
use crate::config::{ConfigModel, SyncBuilder};
use crate::entry::{DirEntry, EntryKind, EntryModel, FileMeta, Stat, StatModel};
use crate::log::{
    failure_note, note_about, note_view, report_view, LogNote, NoteModel, SyncLogLevel,
};
use crate::path::{child_of, views, PathModel, SyncPath};
use crate::task::{CopyTask, CopyTaskModel, DirTask, DirTaskModel, IoOperation, OpModel};

verus! {

/// One item of a listing as a mathematical value: an entry, or the message of
/// the error that stood in its place.
pub type ItemModel = Result<EntryModel, Seq<char>>;

/// The mathematical value of one item of a listing.
pub open spec fn item_view(item: Result<DirEntry, String>) -> ItemModel {
    match item {
        Ok(entry) => Ok(entry@),
        Err(text) => Err(text@),
    }
}

/// The mathematical value of a listing.
pub open spec fn listing_view(items: Seq<Result<DirEntry, String>>) -> Seq<ItemModel> {
    Seq::new(items.len(), |i: int| item_view(items[i]))
}

/// The entries among the items of a listing, in listing order.
pub open spec fn listed_entries(items: Seq<ItemModel>) -> Seq<EntryModel>
    decreases items.len(),
{
    if items.len() == 0 {
        Seq::empty()
    } else {
        let rest = listed_entries(items.drop_last());
        match items.last() {
            Ok(entry) => rest.push(entry),
            Err(_) => rest,
        }
    }
}

/// The error messages among the items of a listing, in listing order.
pub open spec fn listed_errors(items: Seq<ItemModel>) -> Seq<Seq<char>>
    decreases items.len(),
{
    if items.len() == 0 {
        Seq::empty()
    } else {
        let rest = listed_errors(items.drop_last());
        match items.last() {
            Ok(_) => rest,
            Err(text) => rest.push(text),
        }
    }
}

/// What the scanner decides for one item that it looks at.
pub enum Emit {
    /// Scan this pair of directories next.
    Dir(DirTaskModel),
    /// Queue this file operation.
    Op(OpModel),
    /// Tell the log.
    Note(NoteModel),
    /// Leave it alone.
    Nothing,
}

/// The mathematical value of a [`ScanPlan`].
pub struct PlanModel {
    pub dirs: Seq<DirTaskModel>,
    pub ops: Seq<OpModel>,
    pub notes: Seq<NoteModel>,
}

/// The plan with nothing in it.
pub open spec fn empty_plan() -> PlanModel {
    PlanModel { dirs: Seq::empty(), ops: Seq::empty(), notes: Seq::empty() }
}

/// The plan after one more decision.
pub open spec fn plan_push(plan: PlanModel, emit: Emit) -> PlanModel {
    match emit {
        Emit::Dir(task) => PlanModel { dirs: plan.dirs.push(task), ..plan },
        Emit::Op(op) => PlanModel { ops: plan.ops.push(op), ..plan },
        Emit::Note(note) => PlanModel { notes: plan.notes.push(note), ..plan },
        Emit::Nothing => plan,
    }
}

/// The plan that a sequence of decisions adds up to.
pub open spec fn plan_of(emits: Seq<Emit>) -> PlanModel
    decreases emits.len(),
{
    if emits.len() == 0 {
        empty_plan()
    } else {
        plan_push(plan_of(emits.drop_last()), emits.last())
    }
}

/// Where the destination listing holds the entry called `name`: the index of
/// the last entry of that name, as in a mapping filled in listing order.
pub open spec fn lookup(dests: Seq<EntryModel>, name: Seq<char>) -> Option<int>
    decreases dests.len(),
{
    if dests.len() == 0 {
        None
    } else if dests.last().name == name {
        Some(dests.len() - 1)
    } else {
        lookup(dests.drop_last(), name)
    }
}

/// Whether the filter lets the source item at `i` through. An item without a
/// verdict passes.
pub open spec fn passes(verdicts: Seq<bool>, i: int) -> bool {
    0 <= i < verdicts.len() ==> verdicts[i]
}

/// Whether a source item stands for the destination name `name`: it is an
/// entry of that name and the filter let it through.
pub open spec fn claims(item: ItemModel, pass: bool, name: Seq<char>) -> bool {
    pass && (item matches Ok(entry) && entry.name == name)
}

/// Whether some source item stands for the destination name `name`.
pub open spec fn claimed(sources: Seq<ItemModel>, verdicts: Seq<bool>, name: Seq<char>) -> bool {
    exists|i: int|
        0 <= i < sources.len() && #[trigger] claims(sources[i], passes(verdicts, i), name)
}

/// The copy of the source file `name` over whatever the scan saw at the
/// destination.
pub open spec fn copy_op(
    src_dir: PathModel,
    dest_dir: PathModel,
    name: Seq<char>,
    src_meta: FileMeta,
    dest_meta: Option<FileMeta>,
    replaces_dir: bool,
) -> Emit {
    Emit::Op(
        OpModel::CopyIfNeeded(
            CopyTaskModel {
                src: child_of(src_dir, name),
                dest: child_of(dest_dir, name),
                src_meta,
                dest_meta,
                replaces_dir,
            },
        ),
    )
}

/// What the scanner decides for a source file, given what the destination
/// listing holds under its name.
pub open spec fn file_emit(
    src_dir: PathModel,
    dest_dir: PathModel,
    name: Seq<char>,
    src_meta: FileMeta,
    dests: Seq<EntryModel>,
) -> Emit {
    match lookup(dests, name) {
        None => copy_op(src_dir, dest_dir, name, src_meta, None, false),
        Some(j) => match dests[j].stat {
            StatModel::Missing => copy_op(src_dir, dest_dir, name, src_meta, None, false),
            StatModel::Failed(text) => Emit::Note(
                failure_note("Failed to read information about "@, child_of(dest_dir, name), text),
            ),
            StatModel::Found(dest_meta) => match dest_meta.kind {
                EntryKind::Dir => copy_op(src_dir, dest_dir, name, src_meta, None, true),
                EntryKind::File => copy_op(src_dir, dest_dir, name, src_meta, Some(dest_meta), false),
                EntryKind::Other => Emit::Note(
                    note_about(
                        SyncLogLevel::Info,
                        "Skipping file due to symlink at destination: "@,
                        child_of(src_dir, name),
                    ),
                ),
            },
        },
    }
}

/// What the scanner decides for one item of the source listing.
pub open spec fn source_emit(
    src_dir: PathModel,
    dest_dir: PathModel,
    item: ItemModel,
    pass: bool,
    dests: Seq<EntryModel>,
) -> Emit {
    match item {
        Err(text) => Emit::Note(
            failure_note("Failed to read the name of a file in "@, src_dir, text),
        ),
        Ok(entry) => if !pass {
            Emit::Note(
                note_about(SyncLogLevel::Info, "Skipping file "@, child_of(src_dir, entry.name)),
            )
        } else {
            match entry.stat {
                StatModel::Failed(text) => Emit::Note(
                    failure_note(
                        "Failed to read information about "@,
                        child_of(src_dir, entry.name),
                        text,
                    ),
                ),
                StatModel::Missing => Emit::Note(
                    failure_note(
                        "Failed to read information about "@,
                        child_of(src_dir, entry.name),
                        "not found"@,
                    ),
                ),
                StatModel::Found(meta) => match meta.kind {
                    EntryKind::Dir => Emit::Dir(
                        DirTaskModel {
                            src: child_of(src_dir, entry.name),
                            dest: child_of(dest_dir, entry.name),
                        },
                    ),
                    EntryKind::File => file_emit(src_dir, dest_dir, entry.name, meta, dests),
                    EntryKind::Other => Emit::Nothing,
                },
            }
        },
    }
}

/// Whether the destination entry at `j` is left over: it is the entry that
/// the listing holds under its name, and no source item stands for that name.
pub open spec fn left_over(
    dests: Seq<EntryModel>,
    j: int,
    sources: Seq<ItemModel>,
    verdicts: Seq<bool>,
) -> bool {
    lookup(dests, dests[j].name) == Some(j) && !claimed(sources, verdicts, dests[j].name)
}

/// What the scanner decides for the destination entry at `j`, once the source
/// has been walked.
pub open spec fn leftover_emit(
    dest_dir: PathModel,
    dests: Seq<EntryModel>,
    j: int,
    sources: Seq<ItemModel>,
    verdicts: Seq<bool>,
) -> Emit {
    let path = child_of(dest_dir, dests[j].name);
    if !left_over(dests, j, sources, verdicts) {
        Emit::Nothing
    } else {
        match dests[j].stat {
            StatModel::Failed(text) => Emit::Note(
                failure_note("Failed to read information about "@, path, text),
            ),
            StatModel::Missing => Emit::Note(
                failure_note("Failed to read information about "@, path, "not found"@),
            ),
            StatModel::Found(meta) => match meta.kind {
                EntryKind::Dir => Emit::Op(OpModel::DeleteTree(path)),
                EntryKind::File => Emit::Op(OpModel::DeleteFile(path)),
                EntryKind::Other => Emit::Note(
                    note_about(
                        SyncLogLevel::Info,
                        "Skipping special file at destination: "@,
                        path,
                    ),
                ),
            },
        }
    }
}

/// The note for one item of the destination listing that could not be read.
pub open spec fn unreadable_emit(dest_dir: PathModel, text: Seq<char>) -> Emit {
    Emit::Note(failure_note("Failed to read the name of a file in "@, dest_dir, text))
}

/// Every decision of one scan, in the order in which the scanner takes them:
/// first the items of the destination listing that could not be read, then
/// the items of the source listing, then the entries of the destination.
pub open spec fn scan_emits(
    src_dir: PathModel,
    dest_dir: PathModel,
    sources: Seq<ItemModel>,
    verdicts: Seq<bool>,
    dest_items: Seq<ItemModel>,
) -> Seq<Emit> {
    let dests = listed_entries(dest_items);
    let errors = listed_errors(dest_items);
    Seq::new(errors.len(), |k: int| unreadable_emit(dest_dir, errors[k])) + Seq::new(
        sources.len(),
        |i: int| source_emit(src_dir, dest_dir, sources[i], passes(verdicts, i), dests),
    ) + Seq::new(dests.len(), |j: int| leftover_emit(dest_dir, dests, j, sources, verdicts))
}

/// What one scan asks for.
#[derive(Debug, PartialEq, Eq)]
pub struct ScanPlan {
    /// The pairs of subdirectories to scan next, in source order.
    pub dirs: Vec<DirTask>,
    /// The file operations to queue, in the order in which they were decided.
    pub ops: Vec<IoOperation>,
    /// What to tell the log.
    pub notes: Vec<LogNote>,
}

impl View for ScanPlan {
    type V = PlanModel;

    open spec fn view(&self) -> PlanModel {
        PlanModel { dirs: views(self.dirs@), ops: views(self.ops@), notes: views(self.notes@) }
    }
}

/// `Itertools::partition_result` of itertools, collected into two vectors:
/// the first holds the values of the `Ok` items and the second those of the
/// `Err` items, each in the order of the input.
#[verifier::external_body]
fn split_listing(items: Vec<Result<DirEntry, String>>) -> (r: (Vec<DirEntry>, Vec<String>))
    ensures
        views(r.0@) == listed_entries(listing_view(items@)),
        views(r.1@) == listed_errors(listing_view(items@)),
{
    items.into_iter().partition_result()
}

proof fn lemma_plan_of_push(emits: Seq<Emit>, emit: Emit)
    ensures
        plan_of(emits.push(emit)) == plan_push(plan_of(emits), emit),
{
    assert(emits.push(emit).drop_last() =~= emits);
}

/// The index of the last entry called `name`, if there is one.
fn find_entry(dests: &Vec<DirEntry>, name: &String) -> (r: Option<usize>)
    ensures
        match r {
            Some(j) => lookup(views(dests@), name@) == Some(j as int) && j < dests.len(),
            None => lookup(views(dests@), name@) is None,
        },
{
    let ghost all = views(dests@);
    let mut i: usize = dests.len();
    proof {
        assert(all.take(i as int) =~= all);
    }
    while i > 0
        invariant
            i <= dests.len(),
            all == views(dests@),
            lookup(all, name@) == lookup(all.take(i as int), name@),
        decreases i,
    {
        proof {
            assert(all.take(i as int).drop_last() =~= all.take(i - 1));
        }
        if dests[i - 1].name == *name {
            return Some(i - 1);
        }
        i = i - 1;
    }
    proof {
        assert(all.take(0).len() == 0);
    }
    None
}

/// The verdict of the filter on the item at `i`; an item without one passes.
fn verdict_at(verdicts: &Vec<bool>, i: usize) -> (r: bool)
    ensures
        r == passes(verdicts@, i as int),
{
    if i < verdicts.len() {
        verdicts[i]
    } else {
        true
    }
}

/// Whether some source item stands for the destination name `name`.
fn is_claimed(sources: &Vec<Result<DirEntry, String>>, verdicts: &Vec<bool>, name: &String) -> (r:
    bool)
    ensures
        r == claimed(listing_view(sources@), verdicts@, name@),
{
    let ghost items = listing_view(sources@);
    let mut i: usize = 0;
    while i < sources.len()
        invariant
            i <= sources.len(),
            items == listing_view(sources@),
            forall|k: int| 0 <= k < i ==> !#[trigger] claims(items[k], passes(verdicts@, k), name@),
        decreases sources.len() - i,
    {
        if verdict_at(verdicts, i) {
            match &sources[i] {
                Ok(entry) => {
                    if entry.name == *name {
                        assert(claims(items[i as int], passes(verdicts@, i as int), name@));
                        return true;
                    }
                },
                Err(_) => {},
            }
        }
        i = i + 1;
    }
    false
}

impl ScanPlan {
    /// The plan with nothing in it.
    pub fn new() -> (plan: ScanPlan)
        ensures
            plan@ == empty_plan(),
    {
        let plan = ScanPlan { dirs: Vec::new(), ops: Vec::new(), notes: Vec::new() };
        assert(views(plan.dirs@) =~= Seq::empty());
        assert(views(plan.ops@) =~= Seq::empty());
        assert(views(plan.notes@) =~= Seq::empty());
        plan
    }

    fn add_dir(&mut self, task: DirTask)
        ensures
            final(self)@ == plan_push(old(self)@, Emit::Dir(task@)),
    {
        self.dirs.push(task);
        assert(views(self.dirs@) =~= views(old(self).dirs@).push(task@));
    }

    fn add_op(&mut self, op: IoOperation)
        ensures
            final(self)@ == plan_push(old(self)@, Emit::Op(op@)),
    {
        self.ops.push(op);
        assert(views(self.ops@) =~= views(old(self).ops@).push(op@));
    }

    fn add_note(&mut self, note: LogNote)
        ensures
            final(self)@ == plan_push(old(self)@, Emit::Note(note@)),
    {
        self.notes.push(note);
        assert(views(self.notes@) =~= views(old(self).notes@).push(note@));
    }

    fn add_copy(
        &mut self,
        src_dir: &SyncPath,
        dest_dir: &SyncPath,
        name: &String,
        src_meta: FileMeta,
        dest_meta: Option<FileMeta>,
        replaces_dir: bool,
    )
        ensures
            final(self)@ == plan_push(
                old(self)@,
                copy_op(src_dir@, dest_dir@, name@, src_meta, dest_meta, replaces_dir),
            ),
    {
        self.add_op(
            IoOperation::CopyIfNeeded(
                CopyTask {
                    src: src_dir.child(name),
                    dest: dest_dir.child(name),
                    src_meta,
                    dest_meta,
                    replaces_dir,
                },
            ),
        );
    }

    /// Takes the decision for a source file.
    fn add_file(
        &mut self,
        src_dir: &SyncPath,
        dest_dir: &SyncPath,
        name: &String,
        src_meta: FileMeta,
        dests: &Vec<DirEntry>,
    )
        ensures
            final(self)@ == plan_push(
                old(self)@,
                file_emit(src_dir@, dest_dir@, name@, src_meta, views(dests@)),
            ),
    {
        match find_entry(dests, name) {
            None => self.add_copy(src_dir, dest_dir, name, src_meta, None, false),
            Some(j) => match &dests[j].stat {
                Stat::Missing => self.add_copy(src_dir, dest_dir, name, src_meta, None, false),
                Stat::Failed(text) => {
                    let path = dest_dir.child(name);
                    self.add_note(
                        LogNote::failure("Failed to read information about ", &path, text.as_str()),
                    );
                },
                Stat::Found(dest_meta) => match dest_meta.kind {
                    EntryKind::Dir => self.add_copy(src_dir, dest_dir, name, src_meta, None, true),
                    EntryKind::File => self.add_copy(
                        src_dir,
                        dest_dir,
                        name,
                        src_meta,
                        Some(*dest_meta),
                        false,
                    ),
                    EntryKind::Other => {
                        let path = src_dir.child(name);
                        self.add_note(
                            LogNote::about(
                                SyncLogLevel::Info,
                                "Skipping file due to symlink at destination: ",
                                &path,
                            ),
                        );
                    },
                },
            },
        }
    }

    /// Takes the decision for one item of the source listing.
    fn add_source(
        &mut self,
        src_dir: &SyncPath,
        dest_dir: &SyncPath,
        item: &Result<DirEntry, String>,
        pass: bool,
        dests: &Vec<DirEntry>,
    )
        ensures
            final(self)@ == plan_push(
                old(self)@,
                source_emit(src_dir@, dest_dir@, item_view(*item), pass, views(dests@)),
            ),
    {
        match item {
            Err(text) => {
                self.add_note(
                    LogNote::failure("Failed to read the name of a file in ", src_dir, text.as_str()),
                );
            },
            Ok(entry) => {
                if !pass {
                    let path = src_dir.child(&entry.name);
                    self.add_note(LogNote::about(SyncLogLevel::Info, "Skipping file ", &path));
                } else {
                    match &entry.stat {
                        Stat::Failed(text) => {
                            let path = src_dir.child(&entry.name);
                            self.add_note(
                                LogNote::failure(
                                    "Failed to read information about ",
                                    &path,
                                    text.as_str(),
                                ),
                            );
                        },
                        Stat::Missing => {
                            let path = src_dir.child(&entry.name);
                            self.add_note(
                                LogNote::failure(
                                    "Failed to read information about ",
                                    &path,
                                    "not found",
                                ),
                            );
                        },
                        Stat::Found(meta) => match meta.kind {
                            EntryKind::Dir => {
                                self.add_dir(
                                    DirTask {
                                        src: src_dir.child(&entry.name),
                                        dest: dest_dir.child(&entry.name),
                                    },
                                );
                            },
                            EntryKind::File => {
                                self.add_file(src_dir, dest_dir, &entry.name, *meta, dests);
                            },
                            EntryKind::Other => {},
                        },
                    }
                }
            },
        }
    }

    /// Takes the decision for the destination entry at `j`.
    fn add_leftover(
        &mut self,
        dest_dir: &SyncPath,
        dests: &Vec<DirEntry>,
        j: usize,
        sources: &Vec<Result<DirEntry, String>>,
        verdicts: &Vec<bool>,
    )
        requires
            j < dests.len(),
        ensures
            final(self)@ == plan_push(
                old(self)@,
                leftover_emit(
                    dest_dir@,
                    views(dests@),
                    j as int,
                    listing_view(sources@),
                    verdicts@,
                ),
            ),
    {
        let entry = &dests[j];
        let held = find_entry(dests, &entry.name);
        if held == Some(j) && !is_claimed(sources, verdicts, &entry.name) {
            let path = dest_dir.child(&entry.name);
            match &entry.stat {
                Stat::Failed(text) => {
                    self.add_note(
                        LogNote::failure("Failed to read information about ", &path, text.as_str()),
                    );
                },
                Stat::Missing => {
                    self.add_note(
                        LogNote::failure("Failed to read information about ", &path, "not found"),
                    );
                },
                Stat::Found(meta) => match meta.kind {
                    EntryKind::Dir => self.add_op(IoOperation::DeleteTree(path)),
                    EntryKind::File => self.add_op(IoOperation::DeleteFile(path)),
                    EntryKind::Other => {
                        self.add_note(
                            LogNote::about(
                                SyncLogLevel::Info,
                                "Skipping special file at destination: ",
                                &path,
                            ),
                        );
                    },
                },
            }
        }
    }
}

/// The plan that only reports the items of the destination listing that
/// could not be read.
fn report_unreadable(dest_dir: &SyncPath, errors: &Vec<String>) -> (plan: ScanPlan)
    ensures
        plan@ == plan_of(
            Seq::new(views(errors@).len(), |k: int| unreadable_emit(dest_dir@, views(errors@)[k])),
        ),
{
    let ghost es = views(errors@);
    let ghost first = Seq::new(es.len(), |k: int| unreadable_emit(dest_dir@, es[k]));
    let mut plan = ScanPlan::new();
    let mut k: usize = 0;
    while k < errors.len()
        invariant
            k <= errors.len(),
            views(errors@) == es,
            first == Seq::new(es.len(), |k: int| unreadable_emit(dest_dir@, es[k])),
            plan@ == plan_of(first.take(k as int)),
        decreases errors.len() - k,
    {
        proof {
            lemma_plan_of_push(first.take(k as int), first[k as int]);
            assert(first.take(k + 1) =~= first.take(k as int).push(first[k as int]));
        }
        plan.add_note(
            LogNote::failure("Failed to read the name of a file in ", dest_dir, errors[k].as_str()),
        );
        k = k + 1;
    }
    proof {
        assert(first.take(es.len() as int) =~= first);
    }
    plan
}

/// Reconciles one destination directory against its source.
///
/// `sources` and `dest_items` are the two listings as they were read, and
/// `verdicts` holds what the filter said of each source item, by position.
/// The plan holds every decision of the scan, in order.
pub fn reconcile(
    src_dir: &SyncPath,
    dest_dir: &SyncPath,
    sources: &Vec<Result<DirEntry, String>>,
    verdicts: &Vec<bool>,
    dest_items: Vec<Result<DirEntry, String>>,
) -> (plan: ScanPlan)
    ensures
        plan@ == plan_of(
            scan_emits(
                src_dir@,
                dest_dir@,
                listing_view(sources@),
                verdicts@,
                listing_view(dest_items@),
            ),
        ),
{
    let ghost items = listing_view(sources@);
    let ghost dest_models = listing_view(dest_items@);
    let (dests, errors) = split_listing(dest_items);
    let ghost ds = listed_entries(dest_models);
    let ghost es = listed_errors(dest_models);
    let ghost first = Seq::new(es.len(), |k: int| unreadable_emit(dest_dir@, es[k]));
    let ghost second = Seq::new(
        items.len(),
        |i: int| source_emit(src_dir@, dest_dir@, items[i], passes(verdicts@, i), ds),
    );
    let ghost third = Seq::new(
        ds.len(),
        |j: int| leftover_emit(dest_dir@, ds, j, items, verdicts@),
    );
    let mut plan = report_unreadable(dest_dir, &errors);
    let ghost mut done: Seq<Emit> = first;
    proof {
        assert(first + second.take(0) =~= first);
    }

    let mut i: usize = 0;
    while i < sources.len()
        invariant
            i <= sources.len(),
            items == listing_view(sources@),
            views(dests@) == ds,
            second == Seq::new(
                items.len(),
                |i: int| source_emit(src_dir@, dest_dir@, items[i], passes(verdicts@, i), ds),
            ),
            done == first + second.take(i as int),
            plan@ == plan_of(done),
        decreases sources.len() - i,
    {
        proof {
            lemma_plan_of_push(done, second[i as int]);
            assert(first + second.take(i + 1) =~= (first + second.take(i as int)).push(
                second[i as int],
            ));
            done = done.push(second[i as int]);
        }
        let pass = verdict_at(verdicts, i);
        plan.add_source(src_dir, dest_dir, &sources[i], pass, &dests);
        i = i + 1;
    }
    proof {
        assert(second.take(items.len() as int) =~= second);
    }

    let mut j: usize = 0;
    while j < dests.len()
        invariant
            j <= dests.len(),
            items == listing_view(sources@),
            views(dests@) == ds,
            third == Seq::new(
                ds.len(),
                |j: int| leftover_emit(dest_dir@, ds, j, items, verdicts@),
            ),
            done == first + second + third.take(j as int),
            plan@ == plan_of(done),
        decreases dests.len() - j,
    {
        proof {
            lemma_plan_of_push(done, third[j as int]);
            assert(first + second + third.take(j + 1) =~= (first + second + third.take(
                j as int,
            )).push(third[j as int]));
            done = done.push(third[j as int]);
        }
        plan.add_leftover(dest_dir, &dests, j, sources, verdicts);
        j = j + 1;
    }
    proof {
        assert(third.take(ds.len() as int) =~= third);
    }
    plan
}

/// What reading a whole directory gave, as a mathematical value: its items,
/// or the message of the error that kept it from being read.
pub type ListingModel = Result<Seq<ItemModel>, Seq<char>>;

/// The mathematical value of what reading a whole directory gave.
pub open spec fn listing_result_view(listing: Result<Vec<Result<DirEntry, String>>, String>)
    -> ListingModel {
    match listing {
        Ok(items) => Ok(listing_view(items@)),
        Err(text) => Err(text@),
    }
}

/// Every decision of one scan, where reading a directory may have failed. A
/// destination that cannot be listed ends the scan with an error. So does a
/// source that cannot be listed, after the unreadable items of the destination
/// were reported: nothing is deleted on the word of a source that was not read.
pub open spec fn scan_outcome(
    src_dir: PathModel,
    dest_dir: PathModel,
    sources: ListingModel,
    verdicts: Seq<bool>,
    dests: ListingModel,
) -> Seq<Emit> {
    match dests {
        Err(text) => seq![
            Emit::Note(failure_note("Failed to get the list of files in "@, dest_dir, text)),
        ],
        Ok(dest_items) => match sources {
            Err(text) => {
                let errors = listed_errors(dest_items);
                Seq::new(errors.len(), |k: int| unreadable_emit(dest_dir, errors[k])).push(
                    Emit::Note(
                        failure_note("Failed to get the list of files in "@, src_dir, text),
                    ),
                )
            },
            Ok(items) => scan_emits(src_dir, dest_dir, items, verdicts, dest_items),
        },
    }
}

/// Whether `verdicts` can be what the filter of `config` said of the items
/// of a source listing: there is one for each item, and without a filter all
/// of them are `true`.
pub open spec fn filter_verdicts(config: ConfigModel, verdicts: Seq<bool>, sources: ListingModel)
    -> bool {
    &&& sources matches Ok(items) ==> verdicts.len() == items.len()
    &&& config.filter is None ==> forall|i: int| 0 <= i < verdicts.len() ==> verdicts[i]
}

/// Whether `plan` is the plan of the scan of `task` on which the filter gave
/// `verdicts`.
pub open spec fn plan_follows(
    plan: PlanModel,
    config: ConfigModel,
    task: DirTaskModel,
    sources: ListingModel,
    verdicts: Seq<bool>,
    dests: ListingModel,
) -> bool {
    filter_verdicts(config, verdicts, sources) && plan == plan_of(
        scan_outcome(task.src, task.dest, sources, verdicts, dests),
    )
}

/// What is to be done about the destination directory before it is listed.
#[derive(Clone, Copy, Debug, PartialEq, Eq, Structural)]
pub enum Preparation {
    /// It is a directory, or nothing could be found out: leave it.
    Keep,
    /// Nothing is there: create the directory.
    Create,
    /// Something else is there: remove it, then create the directory.
    Replace,
}

/// What is to be done about a destination directory of which asking the
/// file system, without following a symbolic link, gave `stat`.
pub open spec fn preparation_of(stat: StatModel) -> Preparation {
    match stat {
        StatModel::Found(meta) => if meta.kind == EntryKind::Dir {
            Preparation::Keep
        } else {
            Preparation::Replace
        },
        StatModel::Missing => Preparation::Create,
        StatModel::Failed(_) => Preparation::Keep,
    }
}

/// What the log is told about asking for the destination directory.
pub open spec fn preparation_note(dest_dir: PathModel, stat: StatModel) -> Option<NoteModel> {
    match stat {
        StatModel::Failed(text) => Some(
            failure_note("Failed to read information about "@, dest_dir, text),
        ),
        _ => None,
    }
}

/// What the log is told about a step of the preparation: a failed removal
/// (`removal` set) or a failed creation (`removal` unset).
pub open spec fn preparation_failure(
    removal: bool,
    dest_dir: PathModel,
    report: Result<(), Seq<char>>,
) -> Option<NoteModel> {
    match report {
        Ok(_) => None,
        Err(text) => Some(
            failure_note(
                if removal {
                    "Failed to delete file "@
                } else {
                    "Failed to create directory "@
                },
                dest_dir,
                text,
            ),
        ),
    }
}

/// Decides what is to be done about the destination directory before it is
/// listed, from what asking the file system about it gave.
pub fn prepare_dest(dest_dir: &SyncPath, stat: &Stat) -> (r: (Preparation, Option<LogNote>))
    ensures
        r.0 == preparation_of(stat@),
        note_view(r.1) == preparation_note(dest_dir@, stat@),
{
    match stat {
        Stat::Found(meta) => match meta.kind {
            EntryKind::Dir => (Preparation::Keep, None),
            _ => (Preparation::Replace, None),
        },
        Stat::Missing => (Preparation::Create, None),
        Stat::Failed(text) => (
            Preparation::Keep,
            Some(LogNote::failure("Failed to read information about ", dest_dir, text.as_str())),
        ),
    }
}

/// Tells the log of a step of the preparation that failed: the removal of
/// what stood in the way (`removal` set) or the creation of the directory
/// (`removal` unset). The scan goes on either way.
pub fn note_preparation(removal: bool, dest_dir: &SyncPath, report: &Result<(), String>) -> (note:
    Option<LogNote>)
    ensures
        note_view(note) == preparation_failure(removal, dest_dir@, report_view(*report)),
{
    match report {
        Ok(_) => None,
        Err(text) => Some(
            LogNote::failure(
                if removal {
                    "Failed to delete file "
                } else {
                    "Failed to create directory "
                },
                dest_dir,
                text.as_str(),
            ),
        ),
    }
}

/// Asks the filter of `config` about each entry of a source listing. An item
/// that is no entry gets `true`.
pub fn ask_filter(
    config: &SyncBuilder,
    src_dir: &SyncPath,
    sources: &Vec<Result<DirEntry, String>>,
) -> (verdicts: Vec<bool>)
    ensures
        verdicts@.len() == sources@.len(),
        config@.filter is None ==> forall|i: int| 0 <= i < verdicts@.len() ==> verdicts@[i],
{
    let mut verdicts: Vec<bool> = Vec::new();
    let mut i: usize = 0;
    while i < sources.len()
        invariant
            i <= sources.len(),
            verdicts@.len() == i,
            config@.filter is None ==> forall|k: int| 0 <= k < i ==> verdicts@[k],
        decreases sources.len() - i,
    {
        let verdict = match &sources[i] {
            Ok(entry) => {
                let path = src_dir.child(&entry.name);
                config.passes(&path)
            },
            Err(_) => true,
        };
        verdicts.push(verdict);
        i = i + 1;
    }
    verdicts
}

/// Plans the scan of `task` from what reading its two directories gave and
/// from what the filter said of each source item.
pub fn plan_scan(
    task: &DirTask,
    sources: Result<Vec<Result<DirEntry, String>>, String>,
    verdicts: &Vec<bool>,
    dests: Result<Vec<Result<DirEntry, String>>, String>,
) -> (plan: ScanPlan)
    ensures
        plan@ == plan_of(
            scan_outcome(
                task@.src,
                task@.dest,
                listing_result_view(sources),
                verdicts@,
                listing_result_view(dests),
            ),
        ),
{
    let dest_items = match dests {
        Err(text) => {
            let mut plan = ScanPlan::new();
            let ghost emit = Emit::Note(
                failure_note("Failed to get the list of files in "@, task@.dest, text@),
            );
            proof {
                lemma_plan_of_push(Seq::empty(), emit);
                assert(Seq::<Emit>::empty().push(emit) =~= seq![emit]);
            }
            plan.add_note(
                LogNote::failure("Failed to get the list of files in ", &task.dest, text.as_str()),
            );
            return plan;
        },
        Ok(dest_items) => dest_items,
    };
    match sources {
        Ok(items) => reconcile(&task.src, &task.dest, &items, verdicts, dest_items),
        Err(text) => {
            let ghost es = listed_errors(listing_view(dest_items@));
            let ghost first = Seq::new(es.len(), |k: int| unreadable_emit(task@.dest, es[k]));
            let ghost last = Emit::Note(
                failure_note("Failed to get the list of files in "@, task@.src, text@),
            );
            let (_, errors) = split_listing(dest_items);
            let mut plan = report_unreadable(&task.dest, &errors);
            proof {
                lemma_plan_of_push(first, last);
            }
            plan.add_note(
                LogNote::failure("Failed to get the list of files in ", &task.src, text.as_str()),
            );
            plan
        },
    }
}

/// Scans one pair of directories: asks the filter about each source entry
/// and plans what is to be done.
///
/// The filter is the caller's code, so the plan is stated for whatever it
/// answered: it is the plan that [`plan_scan`] gives for some verdicts that
/// the filter can have given.
pub fn scan_directory(
    config: &SyncBuilder,
    task: &DirTask,
    sources: Result<Vec<Result<DirEntry, String>>, String>,
    dests: Result<Vec<Result<DirEntry, String>>, String>,
) -> (plan: ScanPlan)
    ensures
        exists|verdicts: Seq<bool>| #[trigger]
            plan_follows(
                plan@,
                config@,
                task@,
                listing_result_view(sources),
                verdicts,
                listing_result_view(dests),
            ),
{
    let verdicts = match &sources {
        Ok(items) => ask_filter(config, &task.src, items),
        Err(_) => Vec::new(),
    };
    let ghost sources_model = listing_result_view(sources);
    let ghost dests_model = listing_result_view(dests);
    let plan = plan_scan(task, sources, &verdicts, dests);
    assert(plan_follows(plan@, config@, task@, sources_model, verdicts@, dests_model));
    plan
}

} // verus!
