//! Git repositories. Unless a full backup is asked for, a repository is
//! distilled to what its user would lose: the stashes, the untracked and the
//! unstaged files, and the branches that were not pushed.

use super::{
    bound_and_sound, plain_dup, plain_merge, single, fits, subdir_create,
    subdir_create_plan, subdir_empty, subdir_ignored, subdir_rename_plan, unbound_reason,
    has_named, named_in, Category, Compared, Dir, DirView,
};
use crate::args::{declare_flag, declared_options, flag, flag_set};
use crate::scanner::stats::{Info, InfoView};
use crate::path::{PathView, SyncPath};
use crate::utils::{
    append_tasks, copy_of, cp_r_d, entries, lemma_tasks_push, must, noted, removals,
    rm_dirs_and_files, stages, strict, tasks, FsOp, FsOpView, OnFail, OnFailView, RawEntry, Stage,
    StageView, SyncError, Task, TaskView,
};
use vstd::prelude::*;

verus! {

/// A stash of a repository.
#[derive(Debug, Clone, PartialEq, Eq)]
pub struct Stash {
    /// The name that the stash was given.
    pub name: String,
    /// The id of the stash commit.
    pub oid: String,
}

/// What a `Stash` says.
pub struct StashView {
    pub name: Seq<char>,
    pub oid: Seq<char>,
}

impl View for Stash {
    type V = StashView;

    open spec fn view(&self) -> StashView {
        StashView { name: self.name@, oid: self.oid@ }
    }
}

/// The views of a sequence of stashes.
pub open spec fn stash_views(v: Seq<Stash>) -> Seq<StashView> {
    v.map_values(|s: Stash| s@)
}

/// How a file of the working tree differs from the index.
#[derive(PartialEq, Eq, Clone, Copy, Debug, Structural)]
pub enum Delta {
    /// The file was modified and the change is not staged.
    Modified,
    /// The file is not tracked.
    Untracked,
    /// Anything else.
    Other,
}

/// One line of the status of a repository.
#[derive(Debug, Clone, PartialEq, Eq)]
pub struct StatusEntry {
    /// The file, seen from the root of the working tree.
    pub path: SyncPath,
    /// How the file differs from the index.
    pub delta: Delta,
}

/// What a `StatusEntry` says.
pub struct StatusView {
    pub path: PathView,
    pub delta: Delta,
}

impl View for StatusEntry {
    type V = StatusView;

    open spec fn view(&self) -> StatusView {
        StatusView { path: self.path@, delta: self.delta }
    }
}

/// The views of a status.
pub open spec fn status_views(v: Seq<StatusEntry>) -> Seq<StatusView> {
    v.map_values(|s: StatusEntry| s@)
}

/// A branch of a repository.
#[derive(Debug, Clone, PartialEq, Eq)]
pub struct Branch {
    /// Whether the branch is a local one.
    pub local: bool,
    /// The commit that the branch points to.
    pub tip: String,
    /// The commit that its upstream branch points to, if it has one.
    pub upstream: Option<String>,
}

/// Whether the branch is a local one that is not on its upstream: it has
/// none, or the two point to different commits.
pub open spec fn unpushed(b: Branch) -> bool {
    b.local && !(b.upstream matches Some(u) && u@ == b.tip@)
}

/// Whether one of the branches is not pushed.
pub open spec fn any_unpushed(v: Seq<Branch>) -> bool {
    exists|i: int| 0 <= i < v.len() && unpushed(#[trigger] v[i])
}

/// What was read from a repository. Where reading failed, the words of the
/// failure stand in place of what was to be read.
#[derive(Debug)]
pub struct GitFacts {
    pub stashes: Result<Vec<Stash>, String>,
    pub status: Result<Vec<StatusEntry>, String>,
    pub branches: Result<Vec<Branch>, String>,
}

/// The flavour of a Git repository.
#[derive(Debug)]
pub struct Git {
    /// The directory that the flavour is bound to.
    pub dir: Option<Dir>,
    /// Whether repositories are left out of the backup.
    pub ignore: bool,
    /// Whether a repository is backed up in full, like a plain directory.
    pub full: bool,
    /// Whether stashes are left out.
    pub ignore_stashes: bool,
    /// Whether untracked files are left out.
    pub ignore_untracked: bool,
    /// Whether unstaged files are left out.
    pub ignore_unstaged: bool,
    /// Whether unpushed branches are left out.
    pub ignore_unpushed: bool,
}

/// The report of a failure of the Git flavour.
pub open spec fn git_failure(desc: Seq<char>) -> InfoView {
    InfoView { category: Category::Repository, name: "Git"@, desc }
}

/// The name of the file that holds a stash: the name of the stash, a
/// hyphen, and its id.
pub open spec fn stash_file(s: StashView) -> Seq<char> {
    s.name + "-"@ + s.oid
}

/// The task that writes the stash `s` of the repository of `d`.
pub open spec fn stash_task(d: DirView, s: StashView) -> TaskView {
    must(
        FsOpView::WriteStash {
            repo: d.src_path,
            oid: s.oid,
            summary: s.name,
            to: d.target_path.child("stashes"@).child(stash_file(s)),
        },
    )
}

/// The stage that backs up the stashes: nothing but a marker if stashes
/// are not wanted or there are none, else one file for each stash.
pub open spec fn stashes_tasks(d: DirView, ignore: bool, read: Result<Seq<StashView>, Seq<char>>)
    -> Seq<TaskView> {
    let fresh = subdir_create_plan(d, "stashes"@);
    if ignore {
        fresh + subdir_rename_plan(d, "stashes"@, "ignored"@)
    } else {
        match read {
            Err(why) => fresh.push(must(FsOpView::Fail(why))),
            Ok(v) => if v.len() == 0 {
                fresh + subdir_rename_plan(d, "stashes"@, "empty"@)
            } else {
                fresh + Seq::new(v.len(), |i: int| stash_task(d, v[i]))
            },
        }
    }
}

/// What a subdirectory of the backup starts as: a marker if it is not
/// wanted, a fresh directory if it is.
pub open spec fn subdir_setup(d: DirView, n: Seq<char>, ignore: bool) -> Seq<TaskView> {
    if ignore {
        subdir_rename_plan(d, n, "ignored"@)
    } else {
        subdir_create_plan(d, n)
    }
}

/// The subdirectory that a line of the status is backed up to, if it is
/// backed up at all: an unstaged change goes to `unstaged`, an untracked
/// file to `untracked`, unless that kind is not wanted.
pub open spec fn status_subdir(e: StatusView, ignore_untracked: bool, ignore_unstaged: bool)
    -> Option<Seq<char>> {
    match e.delta {
        Delta::Modified => if ignore_unstaged {
            None
        } else {
            Some("unstaged"@)
        },
        Delta::Untracked => if ignore_untracked {
            None
        } else {
            Some("untracked"@)
        },
        Delta::Other => None,
    }
}

/// The copy that backs up a line of the status into the subdirectory `n`:
/// the file goes to the same place below it, with the directories that it
/// needs and with its time stamps. A copy that fails is reported.
pub open spec fn status_copy(d: DirView, e: StatusView, n: Seq<char>) -> TaskView {
    noted(
        copy_of(d.src_path, d.target_path.child(n), e.path, true, true),
        git_failure("Failed to backup "@ + n + " file "@ + e.path.rendered()),
    )
}

/// The copies for a status, in its order.
pub open spec fn status_copies(
    d: DirView,
    v: Seq<StatusView>,
    ignore_untracked: bool,
    ignore_unstaged: bool,
) -> Seq<TaskView>
    decreases v.len(),
{
    if v.len() == 0 {
        Seq::<TaskView>::empty()
    } else {
        let before = status_copies(d, v.drop_last(), ignore_untracked, ignore_unstaged);
        match status_subdir(v.last(), ignore_untracked, ignore_unstaged) {
            Some(n) => before.push(status_copy(d, v.last(), n)),
            None => before,
        }
    }
}

/// The tasks that back up the status: the two subdirectories are set up,
/// then the files are copied.
pub open spec fn status_tasks(
    d: DirView,
    read: Result<Seq<StatusView>, Seq<char>>,
    ignore_untracked: bool,
    ignore_unstaged: bool,
) -> Seq<TaskView> {
    match read {
        Err(why) => seq![must(FsOpView::Fail(why))],
        Ok(v) => subdir_setup(d, "untracked"@, ignore_untracked) + subdir_setup(
            d,
            "unstaged"@,
            ignore_unstaged,
        ) + status_copies(d, v, ignore_untracked, ignore_unstaged),
    }
}

/// What came of the copies of a status.
pub struct Saved {
    /// Whether an untracked file was saved.
    pub untracked: bool,
    /// Whether an unstaged file was saved.
    pub unstaged: bool,
    /// Whether a copy failed.
    pub failed: bool,
    /// The place of the next copy among the tasks of the stage.
    pub next: int,
}

/// Whether the task at the place `i` of a stage was done: a task without
/// an outcome counts as not done.
pub open spec fn done_at(outcomes: Seq<bool>, i: int) -> bool {
    0 <= i < outcomes.len() && outcomes[i]
}

/// What came of the copies for the first `n` lines of a status, given the
/// outcome of each task of the stage. The copies stand behind the four
/// tasks that set the subdirectories up.
pub open spec fn saved(
    v: Seq<StatusView>,
    outcomes: Seq<bool>,
    ignore_untracked: bool,
    ignore_unstaged: bool,
    n: int,
) -> Saved
    decreases n,
{
    if n <= 0 {
        Saved { untracked: false, unstaged: false, failed: false, next: 4 }
    } else {
        let t = saved(v, outcomes, ignore_untracked, ignore_unstaged, n - 1);
        let e = v[n - 1];
        match status_subdir(e, ignore_untracked, ignore_unstaged) {
            None => t,
            Some(_) => {
                let ok = done_at(outcomes, t.next);
                Saved {
                    untracked: t.untracked || (ok && e.delta == Delta::Untracked),
                    unstaged: t.unstaged || (ok && e.delta == Delta::Modified),
                    failed: t.failed || !ok,
                    next: t.next + 1,
                }
            },
        }
    }
}

/// What closes the backup of a status: a subdirectory that was wanted and
/// got no file gives way to a marker, and a copy that failed makes the
/// stage fail.
pub open spec fn closing_tasks(d: DirView, t: Saved, ignore_untracked: bool, ignore_unstaged: bool)
    -> Seq<TaskView> {
    let a = if !ignore_untracked && !t.untracked {
        subdir_rename_plan(d, "untracked"@, "empty"@)
    } else {
        Seq::<TaskView>::empty()
    };
    let b = if !ignore_unstaged && !t.unstaged {
        subdir_rename_plan(d, "unstaged"@, "empty"@)
    } else {
        Seq::<TaskView>::empty()
    };
    let c = if t.failed {
        seq![must(FsOpView::Fail("Failed to backup file(s) from "@ + d.src_path.rendered()))]
    } else {
        Seq::<TaskView>::empty()
    };
    a + b + c
}

/// The tasks that back up what was not pushed: a bare clone of the
/// repository if a local branch is not on its upstream, else a marker.
pub open spec fn local_tasks(d: DirView, ignore: bool, read: Result<Seq<Branch>, Seq<char>>)
    -> Seq<TaskView> {
    let fresh = subdir_create_plan(d, "repo"@);
    if ignore {
        fresh + subdir_rename_plan(d, "repo"@, "ignored"@)
    } else {
        match read {
            Err(why) => fresh.push(must(FsOpView::Fail(why))),
            Ok(v) => if any_unpushed(v) {
                fresh.push(
                    must(
                        FsOpView::CloneBare { from: d.src_path, to: d.target_path.child("repo"@) },
                    ),
                )
            } else {
                fresh + subdir_rename_plan(d, "repo"@, "empty"@)
            },
        }
    }
}

/// The stage of the Git flavour with these tasks: its failure is reported
/// as a failure to back up `what`.
pub open spec fn git_stage(tasks: Seq<TaskView>, what: Seq<char>, follow_up: bool) -> StageView {
    StageView {
        tasks,
        on_fail: OnFailView::Report(git_failure("Failed to backup "@ + what)),
        follow_up,
    }
}

/// What was read of the stashes, as contracts see it.
pub open spec fn read_stashes(r: Result<Vec<Stash>, String>) -> Result<Seq<StashView>, Seq<char>> {
    match r {
        Ok(v) => Ok(stash_views(v@)),
        Err(e) => Err(e@),
    }
}

/// What was read of the status, as contracts see it.
pub open spec fn read_status(r: Result<Vec<StatusEntry>, String>) -> Result<
    Seq<StatusView>,
    Seq<char>,
> {
    match r {
        Ok(v) => Ok(status_views(v@)),
        Err(e) => Err(e@),
    }
}

/// What was read of the branches, as contracts see it.
pub open spec fn read_branches(r: Result<Vec<Branch>, String>) -> Result<Seq<Branch>, Seq<char>> {
    match r {
        Ok(v) => Ok(v@),
        Err(e) => Err(e@),
    }
}

/// Whether one of the branches is not pushed.
pub fn needs_clone(v: &Vec<Branch>) -> (r: bool)
    ensures
        r == any_unpushed(v@),
{
    let mut i: usize = 0;
    while i < v.len()
        invariant
            i <= v.len(),
            forall|k: int| 0 <= k < i ==> !unpushed(#[trigger] v@[k]),
        decreases v.len() - i,
    {
        let b = &v[i];
        let pushed = match &b.upstream {
            Some(u) => *u == b.tip,
            None => false,
        };
        if b.local && !pushed {
            assert(unpushed(v@[i as int]));
            return true;
        }
        i = i + 1;
    }
    false
}

impl Git {
    /// A subdirectory named `.git` marks a repository.
    pub open spec fn matches(d: DirView) -> bool {
        named_in(d.dirs, ".git"@)
    }

    /// Both flavours were given the same options.
    pub open spec fn same_options(self, other: Git) -> bool {
        &&& self.ignore == other.ignore
        &&& self.full == other.full
        &&& self.ignore_stashes == other.ignore_stashes
        &&& self.ignore_untracked == other.ignore_untracked
        &&& self.ignore_unstaged == other.ignore_unstaged
        &&& self.ignore_unpushed == other.ignore_unpushed
    }

    /// The report of a failure of this flavour.
    fn failure(&self, desc: String) -> (i: Info)
        ensures
            i@ == git_failure(desc@),
    {
        Info { category: Category::Repository, name: "Git".to_string(), desc }
    }

    /// The stage of these tasks.
    fn stage(&self, tasks: Vec<Task>, what: &str, follow_up: bool) -> (s: Stage)
        ensures
            s@ == git_stage(crate::utils::tasks(tasks@), what@, follow_up),
    {
        let mut desc = "Failed to backup ".to_string();
        desc.append(what);
        Stage { tasks, on_fail: OnFail::Report(self.failure(desc)), follow_up }
    }

    /// Copy stashes to the backup directory unless `--git-ignore-stashes`
    /// is set.
    pub fn dup_stashes(&self, d: &Dir, read: &Result<Vec<Stash>, String>) -> (s: Stage)
        ensures
            s@ == git_stage(
                stashes_tasks(d@, self.ignore_stashes, read_stashes(*read)),
                "stashes"@,
                false,
            ),
    {
        let mut plan = subdir_create(d, "stashes");
        if self.ignore_stashes {
            append_tasks(&mut plan, subdir_ignored(d, "stashes"));
        } else {
            match read {
                Err(why) => {
                    let t = Task { op: FsOp::Fail(why.clone()), on_fail: OnFail::Abort };
                    proof {
                        lemma_tasks_push(plan@, t);
                    }
                    plan.push(t);
                },
                Ok(v) => {
                    if v.len() == 0 {
                        append_tasks(&mut plan, subdir_empty(d, "stashes"));
                    } else {
                        let ghost fresh = tasks(plan@);
                        let ghost sv = stash_views(v@);
                        let dir = d.target_path.child("stashes");
                        let mut i: usize = 0;
                        assert(fresh + Seq::new(0, |k: int| stash_task(d@, sv[k])) =~= fresh);
                        while i < v.len()
                            invariant
                                i <= v.len(),
                                sv == stash_views(v@),
                                dir@ == d@.target_path.child("stashes"@),
                                tasks(plan@) == fresh + Seq::new(
                                    i as nat,
                                    |k: int| stash_task(d@, sv[k]),
                                ),
                            decreases v.len() - i,
                        {
                            let st = &v[i];
                            let mut name = st.name.clone();
                            name.append("-");
                            name.append(st.oid.as_str());
                            let t = Task {
                                op: FsOp::WriteStash {
                                    repo: d.src_path.clone(),
                                    oid: st.oid.clone(),
                                    summary: st.name.clone(),
                                    to: dir.child(name.as_str()),
                                },
                                on_fail: OnFail::Abort,
                            };
                            proof {
                                lemma_tasks_push(plan@, t);
                                assert(t@ == stash_task(d@, sv[i as int]));
                                assert((fresh + Seq::new(i as nat, |k: int| stash_task(d@, sv[k]))).push(
                                    t@,
                                ) =~= fresh + Seq::new(
                                    (i + 1) as nat,
                                    |k: int| stash_task(d@, sv[k]),
                                ));
                            }
                            plan.push(t);
                            i = i + 1;
                        }
                    }
                },
            }
        }
        self.stage(plan, "stashes", false)
    }

    /// Copy untracked and unstaged files to the backup directory unless
    /// `--git-ignore-untracked` or `--git-ignore-unstaged` are set. Once the
    /// stage is through, `dup_status_finish` settles the markers.
    pub fn dup_status(&self, d: &Dir, read: &Result<Vec<StatusEntry>, String>) -> (s: Stage)
        ensures
            s@ == git_stage(
                status_tasks(
                    d@,
                    read_status(*read),
                    self.ignore_untracked,
                    self.ignore_unstaged,
                ),
                "status"@,
                read.is_ok(),
            ),
    {
        match read {
            Err(why) => {
                let mut plan: Vec<Task> = Vec::new();
                plan.push(Task { op: FsOp::Fail(why.clone()), on_fail: OnFail::Abort });
                assert(tasks(plan@) =~= seq![must(FsOpView::Fail(why@))]);
                self.stage(plan, "status", false)
            },
            Ok(v) => {
                let mut plan = if self.ignore_untracked {
                    subdir_ignored(d, "untracked")
                } else {
                    subdir_create(d, "untracked")
                };
                let second = if self.ignore_unstaged {
                    subdir_ignored(d, "unstaged")
                } else {
                    subdir_create(d, "unstaged")
                };
                append_tasks(&mut plan, second);
                let ghost setup = tasks(plan@);
                let ghost sv = status_views(v@);
                let mut i: usize = 0;
                assert(sv.subrange(0, 0) =~= Seq::<StatusView>::empty());
                assert(setup + Seq::<TaskView>::empty() =~= setup);
                while i < v.len()
                    invariant
                        i <= v.len(),
                        sv == status_views(v@),
                        tasks(plan@) == setup + status_copies(
                            d@,
                            sv.subrange(0, i as int),
                            self.ignore_untracked,
                            self.ignore_unstaged,
                        ),
                    decreases v.len() - i,
                {
                    let e = &v[i];
                    let ghost before = status_copies(
                        d@,
                        sv.subrange(0, i as int),
                        self.ignore_untracked,
                        self.ignore_unstaged,
                    );
                    proof {
                        assert(sv.subrange(0, i + 1).drop_last() =~= sv.subrange(0, i as int));
                        assert(sv.subrange(0, i + 1).last() == e@);
                    }
                    let n: Option<&'static str> = match e.delta {
                        Delta::Modified => if self.ignore_unstaged {
                            None
                        } else {
                            Some("unstaged")
                        },
                        Delta::Untracked => if self.ignore_untracked {
                            None
                        } else {
                            Some("untracked")
                        },
                        Delta::Other => None,
                    };
                    match n {
                        Some(n) => {
                            let mut desc = "Failed to backup ".to_string();
                            desc.append(n);
                            desc.append(" file ");
                            desc.append(e.path.render().as_str());
                            let t = Task {
                                op: cp_r_d(&d.src_path, &d.target_path.child(n), &e.path, true),
                                on_fail: OnFail::Report(self.failure(desc)),
                            };
                            proof {
                                lemma_tasks_push(plan@, t);
                                assert(t@ == status_copy(d@, e@, n@));
                                assert((setup + before).push(t@) =~= setup + before.push(t@));
                            }
                            plan.push(t);
                        },
                        None => {},
                    }
                    i = i + 1;
                }
                assert(sv.subrange(0, i as int) =~= sv);
                self.stage(plan, "status", true)
            },
        }
    }

    /// Settles the backup of a status once its copies are through.
    /// `outcomes` tells of each task of the stage of `dup_status`, in order,
    /// whether it was done.
    pub fn dup_status_finish(&self, d: &Dir, status: &Vec<StatusEntry>, outcomes: &Vec<bool>) -> (s:
        Stage)
        requires
            status@.len() + 4 <= usize::MAX,
        ensures
            s@ == git_stage(
                closing_tasks(
                    d@,
                    saved(
                        status_views(status@),
                        outcomes@,
                        self.ignore_untracked,
                        self.ignore_unstaged,
                        status@.len() as int,
                    ),
                    self.ignore_untracked,
                    self.ignore_unstaged,
                ),
                "status"@,
                false,
            ),
    {
        let ghost sv = status_views(status@);
        let mut untracked = false;
        let mut unstaged = false;
        let mut failed = false;
        let mut next: usize = 4;
        let mut i: usize = 0;
        while i < status.len()
            invariant
                i <= status.len(),
                status@.len() + 4 <= usize::MAX,
                sv == status_views(status@),
                next <= 4 + i,
                saved(sv, outcomes@, self.ignore_untracked, self.ignore_unstaged, i as int) == (Saved {
                    untracked,
                    unstaged,
                    failed,
                    next: next as int,
                }),
            decreases status.len() - i,
        {
            let e = &status[i];
            assert(sv[i as int] == e@);
            let wanted = match e.delta {
                Delta::Modified => !self.ignore_unstaged,
                Delta::Untracked => !self.ignore_untracked,
                Delta::Other => false,
            };
            if wanted {
                let ok = next < outcomes.len() && outcomes[next];
                if ok && e.delta == Delta::Untracked {
                    untracked = true;
                }
                if ok && e.delta == Delta::Modified {
                    unstaged = true;
                }
                if !ok {
                    failed = true;
                }
                next = next + 1;
            }
            i = i + 1;
        }
        let mut plan: Vec<Task> = Vec::new();
        assert(tasks(plan@) =~= Seq::<TaskView>::empty());
        if !self.ignore_untracked && !untracked {
            append_tasks(&mut plan, subdir_empty(d, "untracked"));
        }
        if !self.ignore_unstaged && !unstaged {
            append_tasks(&mut plan, subdir_empty(d, "unstaged"));
        }
        if failed {
            let mut why = "Failed to backup file(s) from ".to_string();
            why.append(d.src_path.render().as_str());
            let t = Task { op: FsOp::Fail(why), on_fail: OnFail::Abort };
            proof {
                lemma_tasks_push(plan@, t);
            }
            plan.push(t);
        }
        assert(tasks(plan@) =~= closing_tasks(
            d@,
            Saved { untracked, unstaged, failed, next: next as int },
            self.ignore_untracked,
            self.ignore_unstaged,
        ));
        self.stage(plan, "status", false)
    }

    /// Check if a bare repository clone is required: it is if there are
    /// local branches without upstream branch, or if the local and the
    /// upstream branch do not match.
    pub fn dup_local(&self, d: &Dir, read: &Result<Vec<Branch>, String>) -> (s: Stage)
        ensures
            s@ == git_stage(
                local_tasks(d@, self.ignore_unpushed, read_branches(*read)),
                "locals"@,
                false,
            ),
    {
        let mut plan = subdir_create(d, "repo");
        if self.ignore_unpushed {
            append_tasks(&mut plan, subdir_ignored(d, "repo"));
        } else {
            match read {
                Err(why) => {
                    let t = Task { op: FsOp::Fail(why.clone()), on_fail: OnFail::Abort };
                    proof {
                        lemma_tasks_push(plan@, t);
                    }
                    plan.push(t);
                },
                Ok(v) => {
                    if needs_clone(v) {
                        let t = Task {
                            op: FsOp::CloneBare {
                                from: d.src_path.clone(),
                                to: d.target_path.child("repo"),
                            },
                            on_fail: OnFail::Abort,
                        };
                        proof {
                            lemma_tasks_push(plan@, t);
                        }
                        plan.push(t);
                    } else {
                        append_tasks(&mut plan, subdir_empty(d, "repo"));
                    }
                },
            }
        }
        self.stage(plan, "locals", false)
    }

    /// The stages that distill a repository: the target is emptied, then
    /// the stashes, the status and the unpushed branches are backed up.
    pub open spec fn distilled(self, d: DirView, listing: Seq<RawEntry>, facts: GitFacts) -> Seq<
        StageView,
    > {
        seq![
            strict(removals(entries(listing), d.target_path)),
            git_stage(
                stashes_tasks(d, self.ignore_stashes, read_stashes(facts.stashes)),
                "stashes"@,
                false,
            ),
            git_stage(
                status_tasks(
                    d,
                    read_status(facts.status),
                    self.ignore_untracked,
                    self.ignore_unstaged,
                ),
                "status"@,
                facts.status.is_ok(),
            ),
            git_stage(
                local_tasks(d, self.ignore_unpushed, read_branches(facts.branches)),
                "locals"@,
                false,
            ),
        ]
    }

    /// Run all duplicate steps. `listing` is what the target holds, and
    /// `facts` what was read from the repository.
    pub fn dup_all(&self, listing: &Vec<RawEntry>, facts: &GitFacts) -> (r: Result<
        Vec<Stage>,
        SyncError,
    >)
        ensures
            r.is_ok() == self.dir.is_some(),
            r matches Ok(v) ==> stages(v@) == self.distilled(self.dir.unwrap()@, listing@, *facts),
            r matches Err(e) ==> e matches SyncError::Failed(m) && m@
                == "Cannot synchronize without directory"@,
    {
        match &self.dir {
            None => Err(SyncError::failed("Cannot synchronize without directory")),
            Some(d) => {
                let mut v: Vec<Stage> = Vec::new();
                v.push(
                    Stage {
                        tasks: rm_dirs_and_files(&d.target_path, listing),
                        on_fail: OnFail::Abort,
                        follow_up: false,
                    },
                );
                v.push(self.dup_stashes(d, &facts.stashes));
                v.push(self.dup_status(d, &facts.status));
                v.push(self.dup_local(d, &facts.branches));
                assert(stages(v@) =~= self.distilled(d@, listing@, *facts));
                Ok(v)
            },
        }
    }

    /// Declares the command line options of this flavour.
    pub fn init_opts(opts: &mut getopts::Options)
        ensures
            declared_options(*final(opts)) == declared_options(*old(opts)).insert(
                "git-ignore"@,
            ).insert("git-full"@).insert("git-ignore-stashes"@).insert(
                "git-ignore-unstaged"@,
            ).insert("git-ignore-untracked"@).insert("git-ignore-unpushed"@),
    {
        proof {
            reveal_strlit("git-ignore");
            reveal_strlit("git-full");
            reveal_strlit("git-ignore-stashes");
            reveal_strlit("git-ignore-unstaged");
            reveal_strlit("git-ignore-untracked");
            reveal_strlit("git-ignore-unpushed");
        }
        declare_flag(opts, "git-ignore", "Ignore Git repositories");
        declare_flag(opts, "git-full", "Full backup (default is stashes and diff)");
        declare_flag(opts, "git-ignore-stashes", "Don't backup stashes");
        declare_flag(opts, "git-ignore-unstaged", "Don't backup unstaged files");
        declare_flag(opts, "git-ignore-untracked", "Don't backup untracked files");
        declare_flag(opts, "git-ignore-unpushed", "Don't backup unpushed branches");
    }

    /// Whether this is the template that the arguments ask for.
    pub open spec fn is_template_of(self, args: getopts::Matches) -> bool {
        &&& self.dir is None
        &&& self.ignore == flag_set(args, "git-ignore"@)
        &&& self.full == flag_set(args, "git-full"@)
        &&& self.ignore_stashes == flag_set(args, "git-ignore-stashes"@)
        &&& self.ignore_unstaged == flag_set(args, "git-ignore-unstaged"@)
        &&& self.ignore_untracked == flag_set(args, "git-ignore-untracked"@)
        &&& self.ignore_unpushed == flag_set(args, "git-ignore-unpushed"@)
    }

    /// Builds the template of this flavour from the parsed arguments.
    pub fn template(args: &getopts::Matches) -> (t: Self)
        ensures
            t.is_template_of(*args),
    {
        Git {
            dir: None,
            ignore: flag(args, "git-ignore"),
            full: flag(args, "git-full"),
            ignore_stashes: flag(args, "git-ignore-stashes"),
            ignore_unstaged: flag(args, "git-ignore-unstaged"),
            ignore_untracked: flag(args, "git-ignore-untracked"),
            ignore_unpushed: flag(args, "git-ignore-unpushed"),
        }
    }

    /// Probe for `.git` to identify a Git repository.
    pub fn probe(&self, d: &Dir) -> (r: Option<Git>)
        ensures
            r.is_some() == Self::matches(d@),
            r matches Some(f) ==> f.same_options(*self) && f.dir is None,
    {
        if has_named(&d.dirs, ".git") {
            Some(self.build())
        } else {
            None
        }
    }

    /// Builds an instance with the options of this one and no directory.
    pub fn build(&self) -> (f: Git)
        ensures
            f.dir is None,
            f.same_options(*self),
    {
        Git {
            dir: None,
            ignore: self.ignore,
            full: self.full,
            ignore_stashes: self.ignore_stashes,
            ignore_unstaged: self.ignore_unstaged,
            ignore_untracked: self.ignore_untracked,
            ignore_unpushed: self.ignore_unpushed,
        }
    }

    /// Binds the flavour to a directory.
    pub fn set_dir(&mut self, d: Dir)
        ensures
            final(self).dir == Some(d),
            final(self).same_options(*old(self)),
    {
        self.dir = Some(d);
    }

    /// The directory that the flavour is bound to.
    pub fn dir(&self) -> (d: &Option<Dir>)
        ensures
            *d == self.dir,
    {
        &self.dir
    }

    /// The name of the flavour.
    pub fn name(&self) -> (n: &'static str)
        ensures
            n@ == "Git"@,
    {
        "Git"
    }

    /// The category of the flavour.
    pub fn category(&self) -> (c: Category)
        ensures
            c == Category::Repository,
    {
        Category::Repository
    }

    /// Recurse if `--git-full` is set.
    pub fn recurse(&self) -> (b: bool)
        ensures
            b == self.full,
    {
        self.full
    }

    /// Skip if `--git-ignore` is set.
    pub fn skip(&self) -> (b: bool)
        ensures
            b == self.ignore,
    {
        self.ignore
    }

    /// The directories below are probed anew.
    pub fn stay(&self) -> (b: bool)
        ensures
            !b,
    {
        false
    }

    /// Backs the repository up into a fresh target: distilled, or in full
    /// like a plain directory.
    pub fn dup(&self, listing: &Vec<RawEntry>, facts: &GitFacts) -> (r: Result<
        Vec<Stage>,
        SyncError,
    >)
        ensures
            !self.full ==> r.is_ok() == self.dir.is_some(),
            !self.full ==> (r matches Ok(v) ==> stages(v@) == self.distilled(
                self.dir.unwrap()@,
                listing@,
                *facts,
            )),
            !self.full ==> (r matches Err(e) ==> e matches SyncError::Failed(m) && m@
                == "Cannot synchronize without directory"@),
            self.full ==> r.is_ok() == bound_and_sound(self.dir),
            self.full ==> (r matches Ok(v) ==> stages(v@) == single(self.dir.unwrap()@.dup_plan())),
            self.full ==> (r matches Err(e) ==> e matches SyncError::Failed(m) && m@
                == unbound_reason(self.dir)),
    {
        if !self.full {
            self.dup_all(listing, facts)
        } else {
            plain_dup(&self.dir)
        }
    }

    /// Backs the repository up into a target that is there: distilled, or
    /// in full like a plain directory.
    pub fn merge(&self, listing: &Vec<RawEntry>, facts: &GitFacts, found: &Vec<Compared>) -> (r:
        Result<Vec<Stage>, SyncError>)
        ensures
            !self.full ==> r.is_ok() == self.dir.is_some(),
            !self.full ==> (r matches Ok(v) ==> stages(v@) == self.distilled(
                self.dir.unwrap()@,
                listing@,
                *facts,
            )),
            !self.full ==> (r matches Err(e) ==> e matches SyncError::Failed(m) && m@
                == "Cannot synchronize without directory"@),
            self.full ==> r.is_ok() == fits(self.dir, found@),
            self.full ==> (r matches Ok(v) ==> stages(v@) == single(
                self.dir.unwrap()@.merge_plan(found@),
            )),
            r matches Err(e) ==> e matches SyncError::Failed(m) && m@ == (if self.full
                && bound_and_sound(self.dir) {
                "Cannot merge without the state of every file"@
            } else {
                unbound_reason(self.dir)
            }),
    {
        if !self.full {
            self.dup_all(listing, facts)
        } else {
            plain_merge(&self.dir, found)
        }
    }
}

} // verus!
