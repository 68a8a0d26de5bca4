//! Errors, directory listings, and the file operations that a backup is
//! made of. Nothing here touches the disk: a listing is handed in, and what
//! is to be done with the disk is handed back.

use crate::path::{lemma_paths_push, paths, PathView, SyncPath};
use crate::scanner::stats::{Command, Info, InfoView, Transport, TransportView};
use crate::text::{ends_with, is_suffix, texts};
use crate::{ARGS_FILE, LOG_FILE};
use vstd::prelude::*;

verus! {

/// `std::io::Error`: an error of the file system or of a subprocess. It is
/// carried through, and nothing is claimed of what it holds.
#[verifier::external_type_specification]
#[verifier::external_body]
pub struct ExIoError(std::io::Error);

/// What can go wrong with a directory.
#[derive(Debug)]
pub enum SyncError {
    /// An operation of the engine failed, for the reason given.
    Failed(String),
    /// The file system or a subprocess failed.
    Io(std::io::Error),
}

/// `Display` of `std::io::Error`: the text of the error. Nothing is claimed
/// of the text.
#[verifier::external_body]
fn io_error_text(e: &std::io::Error) -> (s: String) {
    format!("{}", e)
}

impl SyncError {
    /// The error as text. A failed operation reads `Operation failed
    /// because: ` and the reason; an error of the file system reads as the
    /// system words it.
    pub fn to_string(&self) -> (s: String)
        ensures
            self matches SyncError::Failed(reason) ==> s@ == "Operation failed because: "@
                + reason@,
    {
        match self {
            SyncError::Failed(reason) => {
                let mut s = "Operation failed because: ".to_string();
                s.append(reason.as_str());
                s
            },
            SyncError::Io(e) => io_error_text(e),
        }
    }

    /// The error for an operation that failed for `reason`.
    pub fn failed(reason: &str) -> (e: SyncError)
        ensures
            e matches SyncError::Failed(r) && r@ == reason@,
    {
        SyncError::Failed(reason.to_string())
    }
}

impl From<std::io::Error> for SyncError {
    fn from(err: std::io::Error) -> (e: SyncError) {
        SyncError::Io(err)
    }
}

impl vstd::std_specs::convert::FromSpecImpl<std::io::Error> for SyncError {
    open spec fn obeys_from_spec() -> bool {
        true
    }

    open spec fn from_spec(err: std::io::Error) -> SyncError {
        SyncError::Io(err)
    }
}

/// What kind of thing a directory entry is.
#[derive(PartialEq, Eq, Clone, Copy, Debug, Structural)]
pub enum EntryKind {
    /// A regular file.
    File,
    /// A directory.
    Dir,
    /// Anything else.
    Other,
}

/// One entry of a directory, as it was read from the disk.
#[derive(Debug, Clone, PartialEq, Eq)]
pub struct RawEntry {
    /// The full path of the entry.
    pub path: SyncPath,
    /// What the entry is.
    pub kind: EntryKind,
    /// Whether the entry is known to belong to another user.
    pub foreign: bool,
}

/// What a `RawEntry` says.
pub struct EntryView {
    pub path: PathView,
    pub kind: EntryKind,
    pub foreign: bool,
}

impl View for RawEntry {
    type V = EntryView;

    open spec fn view(&self) -> EntryView {
        EntryView { path: self.path@, kind: self.kind, foreign: self.foreign }
    }
}

/// The views of a listing.
pub open spec fn entries(v: Seq<RawEntry>) -> Seq<EntryView> {
    v.map_values(|e: RawEntry| e@)
}

/// When a file was last modified and who may do what with it.
#[derive(PartialEq, Eq, Clone, Copy, Debug, Structural)]
pub struct FileStat {
    /// Seconds of the modification time.
    pub secs: i64,
    /// Nanoseconds of the modification time, below a second.
    pub nanos: u32,
    /// The permission bits.
    pub mode: u32,
}

impl FileStat {
    /// Whether this file was modified before `other`.
    pub open spec fn older_than(self, other: FileStat) -> bool {
        self.secs < other.secs || (self.secs == other.secs && self.nanos < other.nanos)
    }
}

/// Whether the file in the target is out of date: it is missing, or older
/// than the source, or its permissions differ.
pub open spec fn changed(source: FileStat, target: Option<FileStat>) -> bool {
    match target {
        None => true,
        Some(t) => t.older_than(source) || t.mode != source.mode,
    }
}

/// Checks if a file has changed, by the last-modified timestamps and the
/// permissions of the source and of its copy in the target.
pub fn diff(source: &FileStat, target: &Option<FileStat>) -> (r: bool)
    ensures
        r == changed(*source, *target),
{
    match target {
        None => true,
        Some(t) => t.secs < source.secs || (t.secs == source.secs && t.nanos < source.nanos)
            || t.mode != source.mode,
    }
}

/// A copy that carries the time stamp and the permissions of its source is
/// not out of date.
pub proof fn lemma_archived_copy_is_current(source: FileStat)
    ensures
        !changed(source, Some(source)),
{
}

/// One thing to do with the disk.
#[derive(Debug, Clone, PartialEq, Eq)]
pub enum FsOp {
    /// Remove a file.
    RemoveFile(SyncPath),
    /// Remove a directory with all that is in it.
    RemoveDirAll(SyncPath),
    /// Remove a directory with all that is in it, if it is there.
    ClearDir(SyncPath),
    /// Create a directory; its parent is there.
    CreateDir(SyncPath),
    /// Create a directory and its missing parents, unless something is
    /// there already.
    CreateDirAll(SyncPath),
    /// Create an empty file.
    CreateFile(SyncPath),
    /// Copy a file. In archive mode the copy also gets the access and
    /// modification times and the permissions of the source. With
    /// `parents`, the directory of the copy is created first.
    Copy { from: SyncPath, to: SyncPath, archive: bool, parents: bool },
    /// Write the stash `oid` of the repository at `repo` to a file, as a
    /// mail-formatted diff against its first parent.
    WriteStash { repo: SyncPath, oid: String, summary: String, to: SyncPath },
    /// Clone the repository at `from` into `to`, bare and local.
    CloneBare { from: SyncPath, to: SyncPath },
    /// Nothing is done, and the operation counts as failed for the reason
    /// given: what the work needed could not be had.
    Fail(String),
}

/// What an `FsOp` says.
pub enum FsOpView {
    RemoveFile(PathView),
    RemoveDirAll(PathView),
    ClearDir(PathView),
    CreateDir(PathView),
    CreateDirAll(PathView),
    CreateFile(PathView),
    Copy { from: PathView, to: PathView, archive: bool, parents: bool },
    WriteStash { repo: PathView, oid: Seq<char>, summary: Seq<char>, to: PathView },
    CloneBare { from: PathView, to: PathView },
    Fail(Seq<char>),
}

impl View for FsOp {
    type V = FsOpView;

    open spec fn view(&self) -> FsOpView {
        match self {
            FsOp::RemoveFile(p) => FsOpView::RemoveFile(p@),
            FsOp::RemoveDirAll(p) => FsOpView::RemoveDirAll(p@),
            FsOp::ClearDir(p) => FsOpView::ClearDir(p@),
            FsOp::CreateDir(p) => FsOpView::CreateDir(p@),
            FsOp::CreateDirAll(p) => FsOpView::CreateDirAll(p@),
            FsOp::CreateFile(p) => FsOpView::CreateFile(p@),
            FsOp::Copy { from, to, archive, parents } => FsOpView::Copy {
                from: from@,
                to: to@,
                archive: *archive,
                parents: *parents,
            },
            FsOp::WriteStash { repo, oid, summary, to } => FsOpView::WriteStash {
                repo: repo@,
                oid: oid@,
                summary: summary@,
                to: to@,
            },
            FsOp::CloneBare { from, to } => FsOpView::CloneBare { from: from@, to: to@ },
            FsOp::Fail(reason) => FsOpView::Fail(reason@),
        }
    }
}

/// What follows when an operation fails.
#[derive(Debug, Clone, PartialEq, Eq)]
pub enum OnFail {
    /// Nothing: the work goes on.
    Ignore,
    /// The failure is reported as a runtime error, and the work goes on.
    /// The report says what is given here, then ` because ` and the error.
    Report(Info),
    /// The work that the operation belongs to ends with the error.
    Abort,
}

/// What an `OnFail` says.
pub enum OnFailView {
    Ignore,
    Report(InfoView),
    Abort,
}

impl View for OnFail {
    type V = OnFailView;

    open spec fn view(&self) -> OnFailView {
        match self {
            OnFail::Ignore => OnFailView::Ignore,
            OnFail::Report(i) => OnFailView::Report(i@),
            OnFail::Abort => OnFailView::Abort,
        }
    }
}

/// An operation and what follows when it fails.
#[derive(Debug, Clone, PartialEq, Eq)]
pub struct Task {
    pub op: FsOp,
    pub on_fail: OnFail,
}

/// What a `Task` says.
pub struct TaskView {
    pub op: FsOpView,
    pub on_fail: OnFailView,
}

impl View for Task {
    type V = TaskView;

    open spec fn view(&self) -> TaskView {
        TaskView { op: self.op@, on_fail: self.on_fail@ }
    }
}

/// The views of a sequence of tasks.
pub open spec fn tasks(v: Seq<Task>) -> Seq<TaskView> {
    v.map_values(|t: Task| t@)
}

/// `tasks` of a sequence that grew by one task.
pub proof fn lemma_tasks_push(v: Seq<Task>, t: Task)
    ensures
        tasks(v.push(t)) == tasks(v).push(t@),
{
    assert(tasks(v.push(t)) =~= tasks(v).push(t@));
}

/// A run of tasks that stand or fall together. The tasks are done in order.
/// A task that fails is handled as its own `on_fail` says; where that ends
/// the work, the rest of the stage is left undone and the stage has failed,
/// which is handled as the `on_fail` of the stage says.
#[derive(Debug, Clone, PartialEq, Eq)]
pub struct Stage {
    pub tasks: Vec<Task>,
    pub on_fail: OnFail,
    /// Whether the outcome of each task is wanted once the stage is
    /// through, to settle what follows.
    pub follow_up: bool,
}

/// What a `Stage` says.
pub struct StageView {
    pub tasks: Seq<TaskView>,
    pub on_fail: OnFailView,
    pub follow_up: bool,
}

impl View for Stage {
    type V = StageView;

    open spec fn view(&self) -> StageView {
        StageView { tasks: tasks(self.tasks@), on_fail: self.on_fail@, follow_up: self.follow_up }
    }
}

/// The views of a sequence of stages.
pub open spec fn stages(v: Seq<Stage>) -> Seq<StageView> {
    v.map_values(|s: Stage| s@)
}

/// The stage of these tasks whose failure ends the work it belongs to.
pub open spec fn strict(tasks: Seq<TaskView>) -> StageView {
    StageView { tasks, on_fail: OnFailView::Abort, follow_up: false }
}

/// The stage of these tasks whose failure is reported under `info`.
pub open spec fn reported(tasks: Seq<TaskView>, info: InfoView) -> StageView {
    StageView { tasks, on_fail: OnFailView::Report(info), follow_up: false }
}

/// The task that does `op` and ends the work when `op` fails.
pub open spec fn must(op: FsOpView) -> TaskView {
    TaskView { op, on_fail: OnFailView::Abort }
}

/// The task that does `op` and goes on whatever comes of it.
pub open spec fn may(op: FsOpView) -> TaskView {
    TaskView { op, on_fail: OnFailView::Ignore }
}

/// The task that does `op` and reports its failure under `info`.
pub open spec fn noted(op: FsOpView, info: InfoView) -> TaskView {
    TaskView { op, on_fail: OnFailView::Report(info) }
}

/// Adds the tasks of `more` to `out`, in order.
pub fn append_tasks(out: &mut Vec<Task>, more: Vec<Task>)
    ensures
        tasks(final(out)@) == tasks(old(out)@) + tasks(more@),
{
    let mut more = more;
    let ghost start = out@;
    let ghost all = more@;
    out.append(&mut more);
    assert(tasks(start + all) =~= tasks(start) + tasks(all));
}

/// Create a directory, but first remove all that is in it: with `delete`
/// whatever is at `p` is removed, and a failure to do so is passed over;
/// then `p` is created with its missing parents, unless it is there.
pub open spec fn create_dir_save_plan(p: PathView, delete: bool) -> Seq<TaskView> {
    if delete {
        seq![may(FsOpView::RemoveDirAll(p)), must(FsOpView::CreateDirAll(p))]
    } else {
        seq![must(FsOpView::CreateDirAll(p))]
    }
}

/// Create a directory, but first remove all entries recursively.
pub fn create_dir_save(p: &SyncPath, delete: bool) -> (plan: Vec<Task>)
    ensures
        tasks(plan@) == create_dir_save_plan(p@, delete),
{
    let mut plan: Vec<Task> = Vec::new();
    if delete {
        plan.push(Task { op: FsOp::RemoveDirAll(p.clone()), on_fail: OnFail::Ignore });
    }
    plan.push(Task { op: FsOp::CreateDirAll(p.clone()), on_fail: OnFail::Abort });
    assert(tasks(plan@) =~= create_dir_save_plan(p@, delete));
    plan
}

/// The copy of the file `f`, given from `s`, to the same place below `t`.
pub open spec fn copy_of(s: PathView, t: PathView, f: PathView, archive: bool, parents: bool)
    -> FsOpView {
    FsOpView::Copy { from: s.join(f), to: t.join(f), archive, parents }
}

/// Copy file with relative path.
pub fn cp_r(s: &SyncPath, t: &SyncPath, f: &SyncPath, archive: bool) -> (op: FsOp)
    ensures
        op@ == copy_of(s@, t@, f@, archive, false),
{
    FsOp::Copy { from: s.join(f), to: t.join(f), archive, parents: false }
}

/// Copy file with relative path and create directory if needed.
pub fn cp_r_d(s: &SyncPath, t: &SyncPath, f: &SyncPath, archive: bool) -> (op: FsOp)
    ensures
        op@ == copy_of(s@, t@, f@, archive, true),
{
    FsOp::Copy { from: s.join(f), to: t.join(f), archive, parents: true }
}

/// Copy file with absolute path: `f` lies below `s`, and its copy lies at
/// the same place below `t`.
pub fn cp(s: &SyncPath, t: &SyncPath, f: &SyncPath, archive: bool) -> (op: FsOp)
    requires
        f@.starts_with(s@),
    ensures
        op@ == copy_of(s@, t@, f@.strip_prefix(s@), archive, false),
        op@ == (FsOpView::Copy {
            from: f@,
            to: t@.join(f@.strip_prefix(s@)),
            archive,
            parents: false,
        }),
{
    let p = f.strip_prefix(s).unwrap();
    proof {
        crate::path::lemma_join_strip(f@, s@);
    }
    cp_r(s, t, &p, archive)
}

/// Copy file with absolute path and create directory if needed.
pub fn cp_d(s: &SyncPath, t: &SyncPath, f: &SyncPath, archive: bool) -> (op: FsOp)
    requires
        f@.starts_with(s@),
    ensures
        op@ == copy_of(s@, t@, f@.strip_prefix(s@), archive, true),
        op@ == (FsOpView::Copy {
            from: f@,
            to: t@.join(f@.strip_prefix(s@)),
            archive,
            parents: true,
        }),
{
    let p = f.strip_prefix(s).unwrap();
    proof {
        crate::path::lemma_join_strip(f@, s@);
    }
    cp_r_d(s, t, &p, archive)
}

/// Whether `name` is one of the two names that a backup keeps for itself:
/// the session file and the log file.
pub open spec fn reserved(name: Option<Seq<char>>) -> bool {
    name == Some(ARGS_FILE@) || name == Some(LOG_FILE@)
}

/// Whether the path, written as text, ends with one of the patterns.
pub open spec fn matches_any(path: PathView, patterns: Seq<Seq<char>>) -> bool {
    exists|i: int| 0 <= i < patterns.len() && is_suffix(#[trigger] patterns[i], path.rendered())
}

/// Whether the ignore list rules the path out.
pub open spec fn ignored(path: PathView, filter: Option<Seq<Seq<char>>>) -> bool {
    match filter {
        Some(f) => matches_any(path, f),
        None => false,
    }
}

/// Whether an entry passes the owner test and the ignore list.
pub open spec fn retained(e: EntryView, filter: Option<Seq<Seq<char>>>, owned: bool) -> bool {
    !(owned && e.foreign) && !ignored(e.path, filter)
}

/// Whether an entry is taken as a file: it is retained, a regular file, and
/// bears no reserved name.
pub open spec fn kept_as_file(e: EntryView, filter: Option<Seq<Seq<char>>>, owned: bool) -> bool {
    retained(e, filter, owned) && e.kind == EntryKind::File && !reserved(e.path.file_name())
}

/// Whether an entry is taken as a subdirectory of `p`: it is retained, a
/// directory, and not `p` itself.
pub open spec fn kept_as_dir(
    e: EntryView,
    p: PathView,
    filter: Option<Seq<Seq<char>>>,
    owned: bool,
) -> bool {
    retained(e, filter, owned) && e.kind == EntryKind::Dir && e.path != p
}

/// The files of a listing, in the order of the listing.
pub open spec fn listed_files(
    listing: Seq<EntryView>,
    filter: Option<Seq<Seq<char>>>,
    owned: bool,
) -> Seq<PathView>
    decreases listing.len(),
{
    if listing.len() == 0 {
        Seq::<PathView>::empty()
    } else {
        let before = listed_files(listing.drop_last(), filter, owned);
        if kept_as_file(listing.last(), filter, owned) {
            before.push(listing.last().path)
        } else {
            before
        }
    }
}

/// The subdirectories of a listing of `p`, in the order of the listing.
pub open spec fn listed_dirs(
    listing: Seq<EntryView>,
    p: PathView,
    filter: Option<Seq<Seq<char>>>,
    owned: bool,
) -> Seq<PathView>
    decreases listing.len(),
{
    if listing.len() == 0 {
        Seq::<PathView>::empty()
    } else {
        let before = listed_dirs(listing.drop_last(), p, filter, owned);
        if kept_as_dir(listing.last(), p, filter, owned) {
            before.push(listing.last().path)
        } else {
            before
        }
    }
}

/// The session file and the log file are never among the files, whatever
/// the listing holds and whatever the filters are.
pub proof fn lemma_reserved_names_stay_out(
    listing: Seq<EntryView>,
    filter: Option<Seq<Seq<char>>>,
    owned: bool,
)
    ensures
        forall|i: int|
            0 <= i < listed_files(listing, filter, owned).len() ==> !reserved(
                #[trigger] listed_files(listing, filter, owned)[i].file_name(),
            ),
    decreases listing.len(),
{
    if listing.len() > 0 {
        lemma_reserved_names_stay_out(listing.drop_last(), filter, owned);
    }
}

/// The ignore list as it is seen in contracts.
pub open spec fn filter_view(filter: Option<&Vec<String>>) -> Option<Seq<Seq<char>>> {
    match filter {
        Some(f) => Some(texts(f@)),
        None => None,
    }
}

/// Whether the path, written as text, ends with one of the patterns.
pub fn is_ignored(path: &SyncPath, patterns: &Vec<String>) -> (r: bool)
    ensures
        r == matches_any(path@, texts(patterns@)),
{
    let text = path.render();
    let mut i: usize = 0;
    while i < patterns.len()
        invariant
            i <= patterns.len(),
            text@ == path@.rendered(),
            forall|k: int| 0 <= k < i ==> !is_suffix(#[trigger] texts(patterns@)[k], text@),
        decreases patterns.len() - i,
    {
        if ends_with(text.as_str(), patterns[i].as_str()) {
            assert(is_suffix(texts(patterns@)[i as int], path@.rendered()));
            return true;
        }
        i = i + 1;
    }
    false
}

/// Whether `name` is the session file or the log file.
pub fn is_reserved(path: &SyncPath) -> (r: bool)
    ensures
        r == reserved(path@.file_name()),
{
    path.is_named(ARGS_FILE) || path.is_named(LOG_FILE)
}

/// Get all directories and files from the listing of `p`. An entry that
/// belongs to another user is dropped when `owned` is set; an entry whose
/// path ends with a pattern of `filter` is dropped; the session file and
/// the log file are dropped always. The rest goes to `files` if it is a
/// regular file and to `dirs` if it is a directory, in the order of the
/// listing.
pub fn save_dirs_and_files(
    p: &SyncPath,
    dirs: &mut Vec<SyncPath>,
    files: &mut Vec<SyncPath>,
    listing: &Vec<RawEntry>,
    filter: Option<&Vec<String>>,
    owned: bool,
)
    ensures
        paths(final(dirs)@) == paths(old(dirs)@) + listed_dirs(
            entries(listing@),
            p@,
            filter_view(filter),
            owned,
        ),
        paths(final(files)@) == paths(old(files)@) + listed_files(
            entries(listing@),
            filter_view(filter),
            owned,
        ),
{
    let ghost fv = filter_view(filter);
    let ghost all = entries(listing@);
    let mut i: usize = 0;
    assert(all.subrange(0, 0) =~= Seq::<EntryView>::empty());
    assert(paths(dirs@) + Seq::<PathView>::empty() =~= paths(dirs@));
    assert(paths(files@) + Seq::<PathView>::empty() =~= paths(files@));
    while i < listing.len()
        invariant
            i <= listing.len(),
            fv == filter_view(filter),
            all == entries(listing@),
            paths(dirs@) == paths(old(dirs)@) + listed_dirs(all.subrange(0, i as int), p@, fv, owned),
            paths(files@) == paths(old(files)@) + listed_files(all.subrange(0, i as int), fv, owned),
        decreases listing.len() - i,
    {
        let e = &listing[i];
        let ghost before = all.subrange(0, i as int);
        let ghost next = all.subrange(0, i + 1);
        proof {
            assert(next.drop_last() =~= before);
            assert(next.last() == e@);
        }
        let dropped = (owned && e.foreign) || match filter {
            Some(f) => is_ignored(&e.path, f),
            None => false,
        };
        if !dropped {
            if e.kind == EntryKind::File && !is_reserved(&e.path) {
                let path = e.path.clone();
                proof {
                    lemma_paths_push(files@, path);
                    assert((paths(old(files)@) + listed_files(before, fv, owned)).push(path@)
                        =~= paths(old(files)@) + listed_files(before, fv, owned).push(path@));
                }
                files.push(path);
            } else if e.kind == EntryKind::Dir && !e.path.same(p) {
                let path = e.path.clone();
                proof {
                    lemma_paths_push(dirs@, path);
                    assert((paths(old(dirs)@) + listed_dirs(before, p@, fv, owned)).push(path@)
                        =~= paths(old(dirs)@) + listed_dirs(before, p@, fv, owned).push(path@));
                }
                dirs.push(path);
            }
        }
        i = i + 1;
    }
    assert(all.subrange(0, i as int) =~= all);
}

/// What is done with an entry when a directory is emptied: a regular file
/// is removed unless its name is reserved, a directory is removed with all
/// that is in it, and anything else stays.
pub open spec fn removal(e: EntryView, p: PathView) -> Option<FsOpView> {
    if e.kind == EntryKind::File && !reserved(e.path.file_name()) {
        Some(FsOpView::RemoveFile(e.path))
    } else if e.kind == EntryKind::Dir && e.path != p {
        Some(FsOpView::RemoveDirAll(e.path))
    } else {
        None
    }
}

/// The removals for a listing of `p`, in the order of the listing. Each of
/// them ends the work when it fails.
pub open spec fn removals(listing: Seq<EntryView>, p: PathView) -> Seq<TaskView>
    decreases listing.len(),
{
    if listing.len() == 0 {
        Seq::<TaskView>::empty()
    } else {
        let before = removals(listing.drop_last(), p);
        match removal(listing.last(), p) {
            Some(op) => before.push(must(op)),
            None => before,
        }
    }
}

/// Remove all directories (recursively) and files from the path whose
/// listing is given.
pub fn rm_dirs_and_files(p: &SyncPath, listing: &Vec<RawEntry>) -> (plan: Vec<Task>)
    ensures
        tasks(plan@) == removals(entries(listing@), p@),
{
    let mut plan: Vec<Task> = Vec::new();
    let ghost all = entries(listing@);
    let mut i: usize = 0;
    assert(all.subrange(0, 0) =~= Seq::<EntryView>::empty());
    assert(tasks(plan@) =~= Seq::<TaskView>::empty());
    while i < listing.len()
        invariant
            i <= listing.len(),
            all == entries(listing@),
            tasks(plan@) == removals(all.subrange(0, i as int), p@),
        decreases listing.len() - i,
    {
        let e = &listing[i];
        proof {
            assert(all.subrange(0, i + 1).drop_last() =~= all.subrange(0, i as int));
            assert(all.subrange(0, i + 1).last() == e@);
        }
        if e.kind == EntryKind::File && !is_reserved(&e.path) {
            let t = Task { op: FsOp::RemoveFile(e.path.clone()), on_fail: OnFail::Abort };
            proof {
                lemma_tasks_push(plan@, t);
            }
            plan.push(t);
        } else if e.kind == EntryKind::Dir && !e.path.same(p) {
            let t = Task { op: FsOp::RemoveDirAll(e.path.clone()), on_fail: OnFail::Abort };
            proof {
                lemma_tasks_push(plan@, t);
            }
            plan.push(t);
        }
        i = i + 1;
    }
    assert(all.subrange(0, i as int) =~= all);
    plan
}

/// The index of the first path of `b` whose last name is `name`; the
/// length of `b` if there is none.
pub open spec fn first_named(b: Seq<PathView>, name: Option<Seq<char>>) -> int
    decreases b.len(),
{
    if b.len() == 0 {
        0
    } else if b[0].file_name() == name {
        0
    } else {
        1 + first_named(b.drop_first(), name)
    }
}

/// `b` without the first of its paths whose last name is `name`.
pub open spec fn without_named(b: Seq<PathView>, name: Option<Seq<char>>) -> Seq<PathView> {
    let i = first_named(b, name);
    if i < b.len() {
        b.remove(i)
    } else {
        b
    }
}

/// What is left of `b` when, for each path of `a` in turn, the first path
/// with the same last name is taken out.
pub open spec fn filtered(a: Seq<PathView>, b: Seq<PathView>) -> Seq<PathView>
    decreases a.len(),
{
    if a.len() == 0 {
        b
    } else {
        filtered(a.drop_first(), without_named(b, a[0].file_name()))
    }
}

/// `first_named` finds a path of that name, and none stands before it.
pub proof fn lemma_first_named(b: Seq<PathView>, name: Option<Seq<char>>)
    ensures
        0 <= first_named(b, name) <= b.len(),
        first_named(b, name) < b.len() ==> b[first_named(b, name)].file_name() == name,
        forall|k: int| 0 <= k < first_named(b, name) ==> (#[trigger] b[k]).file_name() != name,
    decreases b.len(),
{
    if b.len() > 0 && b[0].file_name() != name {
        let rest = b.drop_first();
        lemma_first_named(rest, name);
        assert forall|k: int| 0 <= k < first_named(b, name) implies (#[trigger] b[k]).file_name()
            != name by {
            if k > 0 {
                assert(b[k] == rest[k - 1]);
            }
        }
        if first_named(b, name) < b.len() {
            assert(b[first_named(b, name)] == rest[first_named(rest, name)]);
        }
    }
}

/// Nothing that is left after filtering bears a name of `a`, provided no
/// two paths of `b` bear the same name.
pub proof fn lemma_filtered_leaves_extraneous(a: Seq<PathView>, b: Seq<PathView>)
    requires
        forall|i: int, j: int|
            0 <= i < j < b.len() ==> (#[trigger] b[i]).file_name() != (#[trigger] b[j]).file_name(),
    ensures
        forall|k: int, i: int|
            0 <= k < filtered(a, b).len() && 0 <= i < a.len() ==> (#[trigger] filtered(
                a,
                b,
            )[k]).file_name() != (#[trigger] a[i]).file_name(),
        forall|k: int|
            0 <= k < filtered(a, b).len() ==> b.contains(#[trigger] filtered(a, b)[k]),
        forall|j: int|
            0 <= j < b.len() && (forall|i: int|
                0 <= i < a.len() ==> (#[trigger] a[i]).file_name() != b[j].file_name())
                ==> filtered(a, b).contains(#[trigger] b[j]),
    decreases a.len(),
{
    if a.len() == 0 {
        assert forall|j: int| 0 <= j < b.len() implies filtered(a, b).contains(#[trigger] b[j]) by {
            assert(filtered(a, b)[j] == b[j]);
        }
        assert forall|k: int| 0 <= k < filtered(a, b).len() implies b.contains(
            #[trigger] filtered(a, b)[k],
        ) by {
            assert(b[k] == filtered(a, b)[k]);
        }
    } else {
        let name = a[0].file_name();
        let rest = a.drop_first();
        let b2 = without_named(b, name);
        lemma_first_named(b, name);
        let at = first_named(b, name);
        // b2 keeps the order of b, so its names stay distinct
        assert forall|i: int, j: int| 0 <= i < j < b2.len() implies (#[trigger] b2[i]).file_name()
            != (#[trigger] b2[j]).file_name() by {
            if at < b.len() {
                let i0 = if i < at { i } else { i + 1 };
                let j0 = if j < at { j } else { j + 1 };
                assert(b2[i] == b[i0]);
                assert(b2[j] == b[j0]);
            }
        }
        // nothing in b2 is named like a[0]
        assert forall|k: int| 0 <= k < b2.len() implies (#[trigger] b2[k]).file_name() != name by {
            if at < b.len() {
                let k0 = if k < at { k } else { k + 1 };
                assert(b2[k] == b[k0]);
                if k0 < at {
                } else {
                    assert(b[at].file_name() != b[k0].file_name());
                }
            } else {
                assert(b2[k] == b[k]);
            }
        }
        lemma_filtered_leaves_extraneous(rest, b2);
        let f = filtered(a, b);
        assert(f == filtered(rest, b2));
        assert forall|k: int| 0 <= k < f.len() implies b.contains(#[trigger] f[k]) by {
            assert(b2.contains(f[k]));
            let m = choose|m: int| 0 <= m < b2.len() && b2[m] == f[k];
            if at < b.len() {
                let m0 = if m < at { m } else { m + 1 };
                assert(b[m0] == f[k]);
            } else {
                assert(b[m] == f[k]);
            }
        }
        assert forall|k: int, i: int| 0 <= k < f.len() && 0 <= i < a.len() implies (#[trigger] f[k]).file_name()
            != (#[trigger] a[i]).file_name() by {
            if i == 0 {
                assert(b2.contains(f[k]));
                let m = choose|m: int| 0 <= m < b2.len() && b2[m] == f[k];
                assert(b2[m].file_name() != name);
            } else {
                assert(a[i] == rest[i - 1]);
            }
        }
        assert forall|j: int|
            0 <= j < b.len() && (forall|i: int|
                0 <= i < a.len() ==> (#[trigger] a[i]).file_name() != b[j].file_name())
                implies f.contains(#[trigger] b[j]) by {
            assert(a[0].file_name() != b[j].file_name());
            assert(j != at);
            let j2 = if at < b.len() && j > at { j - 1 } else { j };
            assert(b2[j2] == b[j]);
            assert forall|i: int| 0 <= i < rest.len() implies (#[trigger] rest[i]).file_name()
                != b2[j2].file_name() by {
                assert(rest[i] == a[i + 1]);
            }
            assert(filtered(rest, b2).contains(b2[j2]));
        }
    }
}

/// Apply filter to directory entries vector: for each path of `a` in
/// turn, the first path of `b` with the same last name leaves `b`.
pub fn filter_dir_entries(a: &Vec<SyncPath>, b: &mut Vec<SyncPath>)
    ensures
        paths(final(b)@) == filtered(paths(a@), paths(old(b)@)),
{
    let mut i: usize = 0;
    assert(paths(a@).subrange(0, paths(a@).len() as int) =~= paths(a@));
    while i < a.len()
        invariant
            i <= a.len(),
            filtered(paths(a@).subrange(i as int, a.len() as int), paths(b@)) == filtered(
                paths(a@),
                paths(old(b)@),
            ),
        decreases a.len() - i,
    {
        let ghost rest = paths(a@).subrange(i as int, a.len() as int);
        let ghost name = a@[i as int]@.file_name();
        let ghost cur = paths(b@);
        proof {
            assert(rest[0] == a@[i as int]@);
            assert(rest.drop_first() =~= paths(a@).subrange(i + 1, a.len() as int));
            lemma_first_named(cur, name);
        }
        let mut j: usize = 0;
        let mut found = false;
        while j < b.len()
            invariant_except_break
                !found,
            invariant
                j <= b.len(),
                cur == paths(b@),
                name == a@[i as int]@.file_name(),
                i < a.len(),
                forall|k: int| 0 <= k < j ==> (#[trigger] cur[k]).file_name() != name,
            ensures
                cur == paths(b@),
                j <= b.len(),
                found ==> j < b.len() && cur[j as int].file_name() == name,
                !found ==> j == b.len(),
                forall|k: int| 0 <= k < j ==> (#[trigger] cur[k]).file_name() != name,
            decreases b.len() - j,
        {
            if b[j].same_name(&a[i]) {
                found = true;
                break;
            }
            j = j + 1;
        }
        proof {
            let at = first_named(cur, name);
            if found {
                if at < j {
                } else if at > j {
                    assert(cur[j as int].file_name() != name);
                }
                assert(at == j);
            } else {
                if at < cur.len() {
                    assert(cur[at].file_name() != name);
                }
            }
        }
        if found {
            b.remove(j);
            assert(paths(b@) =~= cur.remove(j as int));
        }
        i = i + 1;
    }
}

/// The line of the log that reports `i`.
pub open spec fn log_line(prefix: Seq<char>, i: InfoView) -> Seq<char> {
    prefix + " "@ + i.name + "("@ + i.category.label() + "): "@ + i.desc
}

/// Writes the line of the log that reports `i`: the prefix, the name of
/// the flavour, its category in brackets, a colon and the description.
pub fn log_stats_info(prefix: &str, i: &Info) -> (line: String)
    ensures
        line@ == log_line(prefix@, i@),
{
    let mut line = prefix.to_string();
    line.append(" ");
    line.append(i.name.as_str());
    line.append("(");
    line.append(i.category.to_string().as_str());
    line.append("): ");
    line.append(i.desc.as_str());
    line
}

/// Splits a time in nanoseconds since the epoch into whole seconds and the
/// nanoseconds below a second.
pub fn split_nanos(t: i64) -> (r: (i64, i64))
    requires
        t >= 0,
    ensures
        r.0 * 1_000_000_000 + r.1 == t,
        0 <= r.1 < 1_000_000_000,
        r.0 >= 0,
{
    (t / 1_000_000_000, t % 1_000_000_000)
}

/// What follows a failure.
#[derive(Debug, Clone, PartialEq, Eq)]
pub enum Verdict {
    /// The work goes on.
    GoOn,
    /// The event is sent, and the work goes on.
    Tell(Transport),
    /// The work ends with the failure.
    Stop,
}

/// The report of a failure: what the policy holds, with the description
/// followed by ` because ` and the words of the failure.
pub open spec fn failure_report(i: InfoView, why: Seq<char>) -> TransportView {
    Transport::note_of(
        Command::Runtime,
        0,
        Some(InfoView { desc: i.desc + " because "@ + why, ..i }),
    )
}

impl OnFail {
    /// Decides what follows a failure whose words are `why`.
    pub fn settle(&self, why: &str) -> (v: Verdict)
        ensures
            self@ is Ignore ==> v is GoOn,
            self@ is Abort ==> v is Stop,
            self@ matches OnFailView::Report(i) ==> (v matches Verdict::Tell(t) && t@
                == failure_report(i, why@)),
    {
        match self {
            OnFail::Ignore => Verdict::GoOn,
            OnFail::Abort => Verdict::Stop,
            OnFail::Report(i) => {
                let mut desc = i.desc.clone();
                desc.append(" because ");
                desc.append(why);
                Verdict::Tell(
                    Transport::runtime(Info { category: i.category, name: i.name.clone(), desc }),
                )
            },
        }
    }
}

/// The part of a copy that can fail.
#[derive(PartialEq, Eq, Clone, Copy, Debug, Structural)]
pub enum CopyStep {
    /// The directory of the copy could not be created.
    Parents,
    /// The content could not be copied.
    Content,
    /// The access and modification times could not be carried over.
    Times,
    /// The permissions could not be carried over.
    Permissions,
}

/// The reason that a failed copy is given, where it is given one: a copy
/// whose content or whose times failed says what was being copied.
pub open spec fn copy_failure_reason(from: PathView, to: PathView, step: CopyStep) -> Option<
    Seq<char>,
> {
    match step {
        CopyStep::Content => Some(
            "Failed to copy "@ + from.rendered() + " to "@ + to.rendered(),
        ),
        CopyStep::Times => Some(
            "Failed to copy atime and mtime from "@ + from.rendered() + " to "@ + to.rendered(),
        ),
        _ => None,
    }
}

/// The error of a copy that failed at `step`. Where the failure has a
/// reason of its own, the cause gives way to it; else the cause is the
/// error.
pub fn copy_failure(from: &SyncPath, to: &SyncPath, step: CopyStep, cause: SyncError) -> (e:
    SyncError)
    ensures
        match copy_failure_reason(from@, to@, step) {
            Some(why) => e matches SyncError::Failed(m) && m@ == why,
            None => e == cause,
        },
{
    match step {
        CopyStep::Content => {
            let mut m = "Failed to copy ".to_string();
            m.append(from.render().as_str());
            m.append(" to ");
            m.append(to.render().as_str());
            SyncError::Failed(m)
        },
        CopyStep::Times => {
            let mut m = "Failed to copy atime and mtime from ".to_string();
            m.append(from.render().as_str());
            m.append(" to ");
            m.append(to.render().as_str());
            SyncError::Failed(m)
        },
        _ => cause,
    }
}

/// The error of a clone that failed: it names the repository.
pub fn clone_failure(from: &SyncPath) -> (e: SyncError)
    ensures
        e matches SyncError::Failed(m) && m@ == "Cannot clone repository "@ + from@.rendered(),
{
    let mut m = "Cannot clone repository ".to_string();
    m.append(from.render().as_str());
    SyncError::Failed(m)
}

} // verus!
