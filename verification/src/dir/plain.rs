//! What every flavour does unless it knows better: the target is created
//! where it is missing, and the files are duplicated or merged one by one.

use super::{Compared, Dir, Prepared, SyncMethod, TargetState};
use crate::utils::{stages, strict, tasks, OnFail, Stage, StageView, SyncError, TaskView};
use vstd::prelude::*;

verus! {

/// The one stage of a plain synchronization.
pub open spec fn single(tasks: Seq<TaskView>) -> Seq<StageView> {
    seq![strict(tasks)]
}

/// Whether a flavour that is bound to `dir` can synchronize it.
pub open spec fn bound_and_sound(dir: Option<Dir>) -> bool {
    dir matches Some(d) && d@.wf()
}

/// The reason why a flavour that is bound to `dir` cannot synchronize it.
pub open spec fn unbound_reason(dir: Option<Dir>) -> Seq<char> {
    if dir is None {
        "Cannot synchronize without directory"@
    } else {
        "Cannot synchronize files outside of the source directory"@
    }
}

/// Prepare for backup, as every flavour does unless it knows better: the
/// target directory is created where it is missing.
pub fn plain_prepare(dir: &Option<Dir>, state: TargetState) -> (r: Result<Prepared, SyncError>)
    ensures
        r.is_ok() == dir.is_some(),
        r matches Ok(p) ==> p.method == (if state == TargetState::Present {
            SyncMethod::Merge
        } else {
            SyncMethod::Duplicate
        }) && tasks(p.plan@) == dir.unwrap()@.target_plan(state),
        r matches Err(e) ==> e matches SyncError::Failed(m) && m@
            == "Cannot prepare synchronization without directory"@,
{
    match dir {
        Some(d) => Ok(d.ensure_target_path(state)),
        None => Err(SyncError::failed("Cannot prepare synchronization without directory")),
    }
}

/// Refuses a flavour that has no directory, or one with files that do not
/// lie below its source.
pub fn check_bound(dir: &Option<Dir>) -> (r: Result<(), SyncError>)
    ensures
        r.is_ok() == bound_and_sound(*dir),
        r matches Err(e) ==> e matches SyncError::Failed(m) && m@ == unbound_reason(*dir),
{
    match dir {
        Some(d) => {
            if d.sound() {
                Ok(())
            } else {
                Err(SyncError::failed("Cannot synchronize files outside of the source directory"))
            }
        },
        None => Err(SyncError::failed("Cannot synchronize without directory")),
    }
}

/// Simply duplicate files for backup.
pub fn plain_dup(dir: &Option<Dir>) -> (r: Result<Vec<Stage>, SyncError>)
    ensures
        r.is_ok() == bound_and_sound(*dir),
        r matches Ok(v) ==> stages(v@) == single(dir.unwrap()@.dup_plan()),
        r matches Err(e) ==> e matches SyncError::Failed(m) && m@ == unbound_reason(*dir),
{
    match check_bound(dir) {
        Err(e) => Err(e),
        Ok(()) => {
            let d = dir.as_ref().unwrap();
            let mut v: Vec<Stage> = Vec::new();
            v.push(Stage { tasks: d.dup(), on_fail: OnFail::Abort, follow_up: false });
            assert(stages(v@) =~= single(d@.dup_plan()));
            Ok(v)
        },
    }
}

/// Whether what was found on disk fits the files of the directory.
pub open spec fn fits(dir: Option<Dir>, found: Seq<Compared>) -> bool {
    bound_and_sound(dir) && found.len() == dir.unwrap()@.files.len()
}

/// Check if file update is necessary before doing backup.
pub fn plain_merge(dir: &Option<Dir>, found: &Vec<Compared>) -> (r: Result<Vec<Stage>, SyncError>)
    ensures
        r.is_ok() == fits(*dir, found@),
        r matches Ok(v) ==> stages(v@) == single(dir.unwrap()@.merge_plan(found@)),
        r matches Err(e) ==> e matches SyncError::Failed(m) && m@ == (if bound_and_sound(*dir) {
            "Cannot merge without the state of every file"@
        } else {
            unbound_reason(*dir)
        }),
{
    match check_bound(dir) {
        Err(e) => Err(e),
        Ok(()) => {
            let d = dir.as_ref().unwrap();
            if found.len() != d.files.len() {
                return Err(SyncError::failed("Cannot merge without the state of every file"));
            }
            let mut v: Vec<Stage> = Vec::new();
            v.push(Stage { tasks: d.merge(found), on_fail: OnFail::Abort, follow_up: false });
            assert(stages(v@) =~= single(d@.merge_plan(found@)));
            Ok(v)
        },
    }
}

} // verus!
