//! Directories as units of work, and the flavours that decide how each one
//! is backed up.

pub mod cargo;
pub mod cmake;
pub mod flavour;
pub mod flutter;
pub mod git;
pub mod meson;
pub mod ninja;
pub mod plain;
pub mod probe;
pub mod simple;
pub mod subdir;
pub mod svn;
pub mod sysroot;
pub mod yocto;

pub use self::cargo::Cargo;
pub use self::cmake::Cmake;
pub use self::flavour::{Flavour, Found, Reads};
pub use self::flutter::Flutter;
pub use self::git::Git;
pub use self::meson::Meson;
pub use self::ninja::Ninja;
pub use self::plain::{
    bound_and_sound, check_bound, fits, plain_dup, plain_merge, plain_prepare, single,
    unbound_reason,
};
pub use self::probe::{has_named, has_prefixed, has_suffixed, named_in, prefixed_in, suffixed_in};
pub use self::simple::Simple;
pub use self::subdir::{
    marker_name, subdir_create, subdir_create_plan, subdir_empty, subdir_ignored, subdir_rename,
    subdir_rename_plan,
};
pub use self::svn::Svn;
pub use self::sysroot::Sysroot;
pub use self::yocto::Yocto;

use crate::path::{copy_paths, paths, PathView, SyncPath};
use crate::scanner::stats::{Command, Info, InfoView, Transport};
use crate::utils::{
    changed, copy_of, cp, diff, lemma_tasks_push, must, noted, tasks, FileStat, FsOp, FsOpView,
    OnFail, Task, TaskView,
};
use crate::{Config, ConfigView};
use vstd::prelude::*;

verus! {

/// Flavour categories. A flavour of a lower rank is asked first, so that a
/// directory that is several things at once is taken for the most special
/// of them.
#[derive(PartialEq, Eq, PartialOrd, Ord, Clone, Copy, Debug, Structural)]
pub enum Category {
    /// Unknown flavour.
    Unknown,
    /// Special directory which does not fit into any other category.
    Special,
    /// Build directory.
    Build,
    /// VCS repository.
    Repository,
    /// Plain directory, the default.
    Plain,
}

impl Category {
    /// The rank by which flavours are ordered.
    pub open spec fn rank_of(self) -> int {
        match self {
            Category::Unknown => 0,
            Category::Special => 1,
            Category::Build => 30,
            Category::Repository => 60,
            Category::Plain => 100,
        }
    }

    /// The name of the category.
    pub open spec fn label(self) -> Seq<char> {
        match self {
            Category::Unknown => "Unknown"@,
            Category::Special => "Special"@,
            Category::Build => "Build"@,
            Category::Repository => "Repository"@,
            Category::Plain => "Plain"@,
        }
    }

    /// The rank by which flavours are ordered.
    pub fn rank(&self) -> (r: u8)
        ensures
            r == self.rank_of(),
    {
        match self {
            Category::Unknown => 0,
            Category::Special => 1,
            Category::Build => 30,
            Category::Repository => 60,
            Category::Plain => 100,
        }
    }

    /// Whether a flavour of this category is asked no later than one of
    /// `other`.
    pub fn le(&self, other: &Category) -> (r: bool)
        ensures
            r == (self.rank_of() <= other.rank_of()),
    {
        self.rank() <= other.rank()
    }

    /// The name of the category.
    pub fn to_string(&self) -> (s: String)
        ensures
            s@ == self.label(),
    {
        match self {
            Category::Unknown => "Unknown".to_string(),
            Category::Special => "Special".to_string(),
            Category::Build => "Build".to_string(),
            Category::Repository => "Repository".to_string(),
            Category::Plain => "Plain".to_string(),
        }
    }
}

/// Method that shall be used for directory synchronization.
#[derive(PartialEq, Eq, Clone, Copy, Debug, Structural)]
pub enum SyncMethod {
    /// Merge changed data into an existing backup.
    Merge,
    /// Simply duplicate, as the backup directory did not exist.
    Duplicate,
}

/// What is found at the place of a target directory.
#[derive(PartialEq, Eq, Clone, Copy, Debug, Structural)]
pub enum TargetState {
    /// Nothing is there.
    Missing,
    /// A regular file is there.
    File,
    /// Something else is there, a directory as a rule.
    Present,
}

/// How a directory is to be synchronized, and what has to be done with the
/// target before.
#[derive(Debug, Clone, PartialEq, Eq)]
pub struct Prepared {
    pub method: SyncMethod,
    pub plan: Vec<Task>,
}

/// The source file and its copy in the target, as they were found.
#[derive(PartialEq, Eq, Clone, Copy, Debug, Structural)]
pub struct Compared {
    /// The source file.
    pub source: FileStat,
    /// Its copy in the target, if there is one.
    pub target: Option<FileStat>,
}

/// Sync job for a certain directory.
#[derive(Debug)]
pub struct Dir {
    /// Source path to be synced.
    pub src_path: SyncPath,
    /// Target path to be synced to.
    pub target_path: SyncPath,
    /// Sub-directories inside this directory.
    pub dirs: Vec<SyncPath>,
    /// Files inside this directory.
    pub files: Vec<SyncPath>,
    /// Extraneous directories.
    pub ex_dirs: Vec<SyncPath>,
    /// Extraneous files.
    pub ex_files: Vec<SyncPath>,
    /// The job id this directory is processed in.
    pub job: u8,
    /// The global configuration.
    pub config: Config,
}

/// What a `Dir` says.
pub struct DirView {
    pub src_path: PathView,
    pub target_path: PathView,
    pub dirs: Seq<PathView>,
    pub files: Seq<PathView>,
    pub ex_dirs: Seq<PathView>,
    pub ex_files: Seq<PathView>,
    pub job: u8,
    pub config: ConfigView,
}

impl View for Dir {
    type V = DirView;

    open spec fn view(&self) -> DirView {
        DirView {
            src_path: self.src_path@,
            target_path: self.target_path@,
            dirs: paths(self.dirs@),
            files: paths(self.files@),
            ex_dirs: paths(self.ex_dirs@),
            ex_files: paths(self.ex_files@),
            job: self.job,
            config: self.config@,
        }
    }
}

/// The path with no names, which is where a new directory job starts.
pub open spec fn nowhere() -> PathView {
    PathView { absolute: false, parts: Seq::<Seq<char>>::empty() }
}

/// The report of a failure with a file: no flavour, and a description made
/// of `what` and the path.
pub open spec fn file_failure(what: Seq<char>, f: PathView) -> InfoView {
    InfoView { category: Category::Unknown, name: Seq::<char>::empty(), desc: what + f.rendered() }
}

impl DirView {
    /// Every file of the directory lies below its source path.
    pub open spec fn wf(self) -> bool {
        forall|i: int| 0 <= i < self.files.len() ==> (#[trigger] self.files[i]).starts_with(
            self.src_path,
        )
    }

    /// What is done with the target before the directory is synchronized:
    /// a regular file in its place is removed, and a target that is not
    /// there is created.
    pub open spec fn target_plan(self, state: TargetState) -> Seq<TaskView> {
        match state {
            TargetState::File => seq![
                must(FsOpView::RemoveFile(self.target_path)),
                must(FsOpView::CreateDir(self.target_path)),
            ],
            TargetState::Missing => seq![must(FsOpView::CreateDir(self.target_path))],
            TargetState::Present => Seq::<TaskView>::empty(),
        }
    }

    /// The copy of the `i`-th file to its place in the target.
    pub open spec fn copy_task(self, i: int, what: Seq<char>) -> TaskView {
        noted(
            copy_of(
                self.src_path,
                self.target_path,
                self.files[i].strip_prefix(self.src_path),
                self.config.archive,
                false,
            ),
            file_failure(what, self.files[i]),
        )
    }

    /// Duplicating copies every file, in order. A copy that fails is
    /// reported, and the rest is copied all the same.
    pub open spec fn dup_plan(self) -> Seq<TaskView> {
        Seq::new(self.files.len(), |i: int| self.copy_task(i, "Failed to duplicate file "@))
    }

    /// The removal of the `i`-th extraneous file.
    pub open spec fn removal_task(self, i: int) -> TaskView {
        noted(
            FsOpView::RemoveFile(self.ex_files[i]),
            file_failure("Failed to remove extraneous file "@, self.ex_files[i]),
        )
    }

    /// The copies of those of the first `n` files that have changed.
    pub open spec fn updates(self, found: Seq<Compared>, n: int) -> Seq<TaskView>
        decreases n,
    {
        if n <= 0 {
            Seq::<TaskView>::empty()
        } else {
            let before = self.updates(found, n - 1);
            if changed(found[n - 1].source, found[n - 1].target) {
                before.push(self.copy_task(n - 1, "Failed to merge file "@))
            } else {
                before
            }
        }
    }

    /// Merging removes every extraneous file, then copies every file that
    /// has changed. A step that fails is reported, and the rest is done all
    /// the same.
    pub open spec fn merge_plan(self, found: Seq<Compared>) -> Seq<TaskView> {
        Seq::new(self.ex_files.len(), |i: int| self.removal_task(i)) + self.updates(
            found,
            self.files.len() as int,
        )
    }
}

impl Dir {
    /// Create new directory structure.
    pub fn new(j: u8, cfg: Config) -> (d: Self)
        ensures
            d@ == (DirView {
                src_path: nowhere(),
                target_path: nowhere(),
                dirs: Seq::<PathView>::empty(),
                files: Seq::<PathView>::empty(),
                ex_dirs: Seq::<PathView>::empty(),
                ex_files: Seq::<PathView>::empty(),
                job: j,
                config: cfg@,
            }),
    {
        let d = Dir {
            src_path: SyncPath::new(false, Vec::new()),
            target_path: SyncPath::new(false, Vec::new()),
            dirs: Vec::new(),
            files: Vec::new(),
            ex_dirs: Vec::new(),
            ex_files: Vec::new(),
            job: j,
            config: cfg,
        };
        assert(d@.src_path.parts =~= Seq::<Seq<char>>::empty());
        assert(d@.target_path.parts =~= Seq::<Seq<char>>::empty());
        assert(d@.dirs =~= Seq::<PathView>::empty());
        assert(d@.files =~= Seq::<PathView>::empty());
        assert(d@.ex_dirs =~= Seq::<PathView>::empty());
        assert(d@.ex_files =~= Seq::<PathView>::empty());
        d
    }

    /// Add source path.
    pub fn set_src_path(self, p: SyncPath) -> (d: Self)
        ensures
            d@ == (DirView { src_path: p@, ..self@ }),
    {
        let mut d = self;
        d.src_path = p;
        d
    }

    /// Add target path.
    pub fn set_target_path(self, p: SyncPath) -> (d: Self)
        ensures
            d@ == (DirView { target_path: p@, ..self@ }),
    {
        let mut d = self;
        d.target_path = p;
        d
    }

    /// A copy of the directory job.
    pub fn duplicate(&self) -> (d: Self)
        ensures
            d@ == self@,
    {
        Dir {
            src_path: self.src_path.clone(),
            target_path: self.target_path.clone(),
            dirs: copy_paths(&self.dirs),
            files: copy_paths(&self.files),
            ex_dirs: copy_paths(&self.ex_dirs),
            ex_files: copy_paths(&self.ex_files),
            job: self.job,
            config: self.config.clone(),
        }
    }

    /// Decides how the directory is synchronized, from what was found at
    /// the place of its target: a target that had to be created is
    /// duplicated into, any other is merged into.
    pub fn ensure_target_path(&self, state: TargetState) -> (r: Prepared)
        ensures
            r.method == (if state == TargetState::Present {
                SyncMethod::Merge
            } else {
                SyncMethod::Duplicate
            }),
            tasks(r.plan@) == self@.target_plan(state),
    {
        let mut plan: Vec<Task> = Vec::new();
        let mut m = SyncMethod::Merge;
        if state == TargetState::File {
            plan.push(
                Task { op: FsOp::RemoveFile(self.target_path.clone()), on_fail: OnFail::Abort },
            );
        }
        if state != TargetState::Present {
            m = SyncMethod::Duplicate;
            plan.push(
                Task { op: FsOp::CreateDir(self.target_path.clone()), on_fail: OnFail::Abort },
            );
        }
        assert(tasks(plan@) =~= self@.target_plan(state));
        Prepared { method: m, plan }
    }

    /// The task that copies the `i`-th file and reports a failure as
    /// `what` says.
    fn copy_task(&self, i: usize, what: &str) -> (t: Task)
        requires
            self@.wf(),
            i < self.files.len(),
        ensures
            t@ == self@.copy_task(i as int, what@),
    {
        let f = &self.files[i];
        assert(self@.files[i as int] == f@);
        let op = cp(&self.src_path, &self.target_path, f, self.config.archive);
        let mut desc = what.to_string();
        desc.append(f.render().as_str());
        Task {
            op,
            on_fail: OnFail::Report(Info { category: Category::Unknown, name: String::new(), desc }),
        }
    }

    /// Duplicates the files of the directory into the target.
    pub fn dup(&self) -> (plan: Vec<Task>)
        requires
            self@.wf(),
        ensures
            tasks(plan@) == self@.dup_plan(),
    {
        let mut plan: Vec<Task> = Vec::new();
        let mut i: usize = 0;
        while i < self.files.len()
            invariant
                self@.wf(),
                i <= self.files.len(),
                plan@.len() == i,
                forall|k: int|
                    0 <= k < i ==> (#[trigger] plan@[k])@ == self@.copy_task(
                        k,
                        "Failed to duplicate file "@,
                    ),
            decreases self.files.len() - i,
        {
            let t = self.copy_task(i, "Failed to duplicate file ");
            plan.push(t);
            i = i + 1;
        }
        assert(tasks(plan@) =~= self@.dup_plan());
        plan
    }

    /// Merges the directory into the target: extraneous files leave, and
    /// files that have changed are copied. `found` holds, for each file of
    /// the directory, the file and its copy as they are on disk.
    pub fn merge(&self, found: &Vec<Compared>) -> (plan: Vec<Task>)
        requires
            self@.wf(),
            found@.len() == self@.files.len(),
        ensures
            tasks(plan@) == self@.merge_plan(found@),
    {
        let mut plan: Vec<Task> = Vec::new();
        let mut i: usize = 0;
        while i < self.ex_files.len()
            invariant
                i <= self.ex_files.len(),
                plan@.len() == i,
                forall|k: int| 0 <= k < i ==> (#[trigger] plan@[k])@ == self@.removal_task(k),
            decreases self.ex_files.len() - i,
        {
            let f = &self.ex_files[i];
            assert(self@.ex_files[i as int] == f@);
            let mut desc = "Failed to remove extraneous file ".to_string();
            desc.append(f.render().as_str());
            plan.push(
                Task {
                    op: FsOp::RemoveFile(f.clone()),
                    on_fail: OnFail::Report(
                        Info { category: Category::Unknown, name: String::new(), desc },
                    ),
                },
            );
            i = i + 1;
        }
        let ghost removals = Seq::new(self@.ex_files.len(), |i: int| self@.removal_task(i));
        assert(tasks(plan@) =~= removals);
        let mut j: usize = 0;
        assert(removals + Seq::<TaskView>::empty() =~= removals);
        while j < self.files.len()
            invariant
                self@.wf(),
                found@.len() == self@.files.len(),
                j <= self.files.len(),
                tasks(plan@) == removals + self@.updates(found@, j as int),
            decreases self.files.len() - j,
        {
            let c = &found[j];
            if diff(&c.source, &c.target) {
                let t = self.copy_task(j, "Failed to merge file ");
                proof {
                    lemma_tasks_push(plan@, t);
                    assert((removals + self@.updates(found@, j as int)).push(t@) =~= removals
                        + self@.updates(found@, j as int).push(t@));
                }
                plan.push(t);
            }
            j = j + 1;
        }
        plan
    }

    /// Whether every file of the directory lies below its source path.
    pub fn sound(&self) -> (b: bool)
        ensures
            b == self@.wf(),
    {
        let mut i: usize = 0;
        while i < self.files.len()
            invariant
                i <= self.files.len(),
                forall|k: int| 0 <= k < i ==> (#[trigger] self@.files[k]).starts_with(self@.src_path),
            decreases self.files.len() - i,
        {
            if !self.files[i].starts_with(&self.src_path) {
                assert(!self@.files[i as int].starts_with(self@.src_path));
                return false;
            }
            i = i + 1;
        }
        true
    }

    /// The event that reports `i` as a runtime error of this directory.
    pub fn send_error(&self, i: Info) -> (t: Transport)
        ensures
            t@ == Transport::note_of(Command::Runtime, 0, Some(i@)),
    {
        Transport::runtime(i)
    }
}

} // verus!
