//! The subdirectories of a distilled backup, and the markers that stand in
//! for them. A marker is an empty file, named after the subdirectory and
//! after why the subdirectory is not there.

use super::{Dir, DirView};
use crate::utils::{
    create_dir_save, create_dir_save_plan, must, tasks, FsOp, FsOpView, OnFail, Task, TaskView,
};
use vstd::prelude::*;

verus! {

/// The name of the marker that stands for the subdirectory `n` in the
/// state `s`: both, with a dot between them.
pub open spec fn marker_name(n: Seq<char>, s: Seq<char>) -> Seq<char> {
    n + "."@ + s
}

/// A fresh subdirectory `n` of the target: what was there is removed, and
/// the subdirectory is created.
pub open spec fn subdir_create_plan(d: DirView, n: Seq<char>) -> Seq<TaskView> {
    create_dir_save_plan(d.target_path.child(n), true)
}

/// A marker in place of the subdirectory `n` of the target: the
/// subdirectory is removed if it is there, and an empty file named after it
/// and the state `s` is created beside it.
pub open spec fn subdir_rename_plan(d: DirView, n: Seq<char>, s: Seq<char>) -> Seq<TaskView> {
    seq![
        must(FsOpView::ClearDir(d.target_path.child(n))),
        must(FsOpView::CreateFile(d.target_path.child(marker_name(n, s)))),
    ]
}

/// Plans a fresh subdirectory `n` of the target of `d`.
pub fn subdir_create(d: &Dir, n: &str) -> (plan: Vec<Task>)
    ensures
        tasks(plan@) == subdir_create_plan(d@, n@),
{
    create_dir_save(&d.target_path.child(n), true)
}

/// Plans a marker for the state `s` in place of the subdirectory `n` of
/// the target of `d`.
pub fn subdir_rename(d: &Dir, n: &str, s: &str) -> (plan: Vec<Task>)
    ensures
        tasks(plan@) == subdir_rename_plan(d@, n@, s@),
{
    let mut name = n.to_string();
    name.append(".");
    name.append(s);
    let mut plan: Vec<Task> = Vec::new();
    plan.push(Task { op: FsOp::ClearDir(d.target_path.child(n)), on_fail: OnFail::Abort });
    plan.push(
        Task { op: FsOp::CreateFile(d.target_path.child(name.as_str())), on_fail: OnFail::Abort },
    );
    assert(tasks(plan@) =~= subdir_rename_plan(d@, n@, s@));
    plan
}

/// Plans the marker that says that the subdirectory `n` was not asked for.
pub fn subdir_ignored(d: &Dir, n: &str) -> (plan: Vec<Task>)
    ensures
        tasks(plan@) == subdir_rename_plan(d@, n@, "ignored"@),
{
    subdir_rename(d, n, "ignored")
}

/// Plans the marker that says that there was nothing for the subdirectory
/// `n`.
pub fn subdir_empty(d: &Dir, n: &str) -> (plan: Vec<Task>)
    ensures
        tasks(plan@) == subdir_rename_plan(d@, n@, "empty"@),
{
    subdir_rename(d, n, "empty")
}

} // verus!
