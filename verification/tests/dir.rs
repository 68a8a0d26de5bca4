use devsync::dir::{
    plain_dup, plain_merge, plain_prepare, subdir_create, subdir_empty, subdir_ignored, Category,
    Compared, Dir, SyncMethod, TargetState,
};
use devsync::path::SyncPath;
use devsync::scanner::stats::{Command, Info};
use devsync::utils::{
    filter_dir_entries, save_dirs_and_files, EntryKind, FileStat, FsOp, OnFail, RawEntry,
    SyncError, Task,
};
use devsync::Config;

fn p(s: &str) -> SyncPath {
    SyncPath::parse(s)
}

fn init(a: bool, d: bool) -> Config {
    Config::new(1, d, a, false, vec![]).unwrap()
}

fn entry(path: &str, kind: EntryKind) -> RawEntry {
    RawEntry { path: p(path), kind, foreign: false }
}

fn sample_dir(root: &str) -> Vec<RawEntry> {
    vec![
        entry(&format!("{}/file_a", root), EntryKind::File),
        entry(&format!("{}/file_b", root), EntryKind::File),
        entry(&format!("{}/file_c", root), EntryKind::File),
        entry(&format!("{}/file_e", root), EntryKind::File),
        entry(&format!("{}/dir_d", root), EntryKind::Dir),
        entry(&format!("{}/dir_f", root), EntryKind::Dir),
    ]
}

fn names(listing: &[RawEntry]) -> Vec<String> {
    let mut v: Vec<String> = listing.iter().map(|e| e.path.file_name().unwrap()).collect();
    v.sort();
    v
}

/// Carries a plan out on the listing of the target directory.
fn apply(target: &mut Vec<RawEntry>, plan: &[Task]) {
    for t in plan {
        match &t.op {
            FsOp::RemoveFile(f) => target.retain(|e| e.path != *f),
            FsOp::RemoveDirAll(f) => target.retain(|e| e.path != *f),
            FsOp::Copy { to, .. } => {
                target.retain(|e| e.path != *to);
                target.push(RawEntry { path: to.clone(), kind: EntryKind::File, foreign: false });
            },
            _ => {},
        }
    }
}

fn gathered(src: &str, target: &str, cfg: &Config, listing: &[RawEntry]) -> Dir {
    let mut d = Dir::new(0, cfg.clone()).set_src_path(p(src)).set_target_path(p(target));
    save_dirs_and_files(&p(src), &mut d.dirs, &mut d.files, &listing.to_vec(), None, cfg.owned);
    d
}

fn stat(secs: i64) -> FileStat {
    FileStat { secs, nanos: 0, mode: 0o644 }
}

#[test]
fn config_refuses_no_jobs() {
    assert!(Config::new(0, false, false, false, vec![]).is_err());
    let c = Config::new(255, true, false, true, vec!["x".to_string()]).unwrap();
    assert_eq!((c.jobs, c.delete, c.archive, c.owned), (255, true, false, true));
    assert_eq!(c.ignore, vec!["x".to_string()]);
    match Config::new(0, false, false, false, vec![]) {
        Err(SyncError::Failed(m)) => assert_eq!(m, "Number of jobs must be between 1 and 255"),
        _ => unreachable!(),
    }
}

#[test]
fn test_new_set_and_ensure_target_path() {
    let cfg = init(false, false);
    let d = Dir::new(0, cfg).set_src_path(p("/tests")).set_target_path(p("/tests"));
    assert_eq!(d.src_path, p("/tests"));
    assert_eq!(d.target_path, p("/tests"));
    assert!(d.dirs.is_empty() && d.files.is_empty() && d.ex_dirs.is_empty() && d.ex_files.is_empty());
    let r = d.ensure_target_path(TargetState::Present);
    assert_eq!(r.method, SyncMethod::Merge);
    assert!(r.plan.is_empty());
    let r = d.ensure_target_path(TargetState::Missing);
    assert_eq!(r.method, SyncMethod::Duplicate);
    assert_eq!(r.plan, vec![Task { op: FsOp::CreateDir(p("/tests")), on_fail: OnFail::Abort }]);
    let r = d.ensure_target_path(TargetState::File);
    assert_eq!(r.method, SyncMethod::Duplicate);
    assert_eq!(
        r.plan,
        vec![
            Task { op: FsOp::RemoveFile(p("/tests")), on_fail: OnFail::Abort },
            Task { op: FsOp::CreateDir(p("/tests")), on_fail: OnFail::Abort },
        ]
    );
}

#[test]
fn test_dup() {
    let cfg = init(false, false);
    let d = gathered("/tests/dup_1", "/tests/dup_2", &cfg, &sample_dir("/tests/dup_1"));
    assert!(d.sound());
    let plan = d.dup();
    let mut target = vec![];
    apply(&mut target, &plan);
    let mut count = 0;
    for e in &target {
        count += 1;
        match e.path.file_name().unwrap().as_str() {
            "file_a" | "file_b" | "file_c" | "file_e" => assert!(e.kind == EntryKind::File),
            _ => unreachable!(),
        }
        assert!(e.path.starts_with(&p("/tests/dup_2")));
    }
    assert!(count == 4);
    assert_eq!(
        plan[0],
        Task {
            op: FsOp::Copy {
                from: p("/tests/dup_1/file_a"),
                to: p("/tests/dup_2/file_a"),
                archive: false,
                parents: false,
            },
            on_fail: OnFail::Report(Info {
                category: Category::Unknown,
                name: String::new(),
                desc: "Failed to duplicate file /tests/dup_1/file_a".to_string(),
            }),
        }
    );
}

#[test]
fn test_merge() {
    let cfg = init(false, false);
    // the target holds all but file_a, and everything in it is younger
    let mut target = sample_dir("/tests/merge_2");
    target.retain(|e| e.path != p("/tests/merge_2/file_a"));
    let d = gathered("/tests/merge_1", "/tests/merge_2", &cfg, &sample_dir("/tests/merge_1"));
    let found = vec![
        Compared { source: stat(100), target: None },
        Compared { source: stat(100), target: Some(stat(200)) },
        Compared { source: stat(100), target: Some(stat(200)) },
        Compared { source: stat(100), target: Some(stat(200)) },
    ];
    let plan = d.merge(&found);
    assert_eq!(plan.len(), 1);
    assert!(matches!(&plan[0].op, FsOp::Copy { to, .. } if *to == p("/tests/merge_2/file_a")));
    apply(&mut target, &plan);
    let mut count = 0;
    for e in &target {
        count += 1;
        match e.path.file_name().unwrap().as_str() {
            "file_a" | "file_b" | "file_c" | "file_e" => assert!(e.kind == EntryKind::File),
            "dir_d" | "dir_f" => assert!(e.kind == EntryKind::Dir),
            _ => unreachable!(),
        }
    }
    assert!(count == 6);
}

#[test]
fn merge_copies_what_changed() {
    let cfg = init(false, false);
    let d = gathered("/s", "/t", &cfg, &sample_dir("/s"));
    let found = vec![
        Compared { source: stat(100), target: Some(stat(100)) },
        Compared { source: stat(100), target: Some(stat(99)) },
        Compared { source: stat(100), target: Some(FileStat { secs: 100, nanos: 0, mode: 0o600 }) },
        Compared { source: stat(100), target: Some(stat(101)) },
    ];
    let plan = d.merge(&found);
    let copied: Vec<SyncPath> = plan
        .iter()
        .map(|t| match &t.op {
            FsOp::Copy { from, .. } => from.clone(),
            _ => unreachable!(),
        })
        .collect();
    assert_eq!(copied, vec![p("/s/file_b"), p("/s/file_c")]);
    assert!(matches!(&plan[0].on_fail, OnFail::Report(i) if i.desc == "Failed to merge file /s/file_b"));
}

#[test]
fn test_merge_archive() {
    let cfg = init(true, false);
    let d = gathered(
        "/tests/merge_archive_1",
        "/tests/merge_archive_2",
        &cfg,
        &sample_dir("/tests/merge_archive_1"),
    );
    let found = vec![
        Compared { source: stat(100), target: None },
        Compared { source: stat(100), target: Some(stat(50)) },
        Compared { source: stat(100), target: Some(stat(50)) },
        Compared { source: stat(100), target: Some(stat(50)) },
    ];
    let plan = d.merge(&found);
    assert_eq!(plan.len(), 4);
    for t in &plan {
        assert!(matches!(t.op, FsOp::Copy { archive: true, parents: false, .. }));
    }
    // a copy made in archive mode carries the stamp of its source, and a
    // second merge finds nothing to do
    let again: Vec<Compared> =
        found.iter().map(|c| Compared { source: c.source, target: Some(c.source) }).collect();
    assert!(d.merge(&again).is_empty());
}

#[test]
fn test_merge_delete() {
    let cfg = init(false, true);
    let mut source = sample_dir("/tests/merge_delete_1");
    source.retain(|e| e.path != p("/tests/merge_delete_1/file_a"));
    let mut target = sample_dir("/tests/merge_delete_2");
    let mut d = gathered("/tests/merge_delete_1", "/tests/merge_delete_2", &cfg, &source);
    save_dirs_and_files(
        &p("/tests/merge_delete_2"),
        &mut d.ex_dirs,
        &mut d.ex_files,
        &target,
        None,
        cfg.owned,
    );
    filter_dir_entries(&d.dirs, &mut d.ex_dirs);
    filter_dir_entries(&d.files, &mut d.ex_files);
    assert_eq!(d.ex_files, vec![p("/tests/merge_delete_2/file_a")]);
    assert!(d.ex_dirs.is_empty());
    let found = vec![
        Compared { source: stat(100), target: Some(stat(200)) },
        Compared { source: stat(100), target: Some(stat(200)) },
        Compared { source: stat(100), target: Some(stat(200)) },
    ];
    let plan = d.merge(&found);
    apply(&mut target, &plan);
    assert_eq!(names(&target), vec!["dir_d", "dir_f", "file_b", "file_c", "file_e"]);
    assert!(target.len() == 5);
    assert!(matches!(&plan[0].on_fail,
        OnFail::Report(i) if i.desc == "Failed to remove extraneous file /tests/merge_delete_2/file_a"));
}

#[test]
fn a_runtime_error_is_an_event_without_count() {
    let d = Dir::new(3, init(false, false));
    let i = Info { category: Category::Unknown, name: String::new(), desc: "oops".to_string() };
    let t = d.send_error(i.clone());
    assert_eq!((t.cmd, t.val, t.info), (Command::Runtime, 0, Some(i)));
}

#[test]
fn subdirectories_and_their_markers() {
    let d = Dir::new(0, init(false, false)).set_target_path(p("/t"));
    assert_eq!(
        subdir_create(&d, "stashes"),
        vec![
            Task { op: FsOp::RemoveDirAll(p("/t/stashes")), on_fail: OnFail::Ignore },
            Task { op: FsOp::CreateDirAll(p("/t/stashes")), on_fail: OnFail::Abort },
        ]
    );
    assert_eq!(
        subdir_ignored(&d, "stashes"),
        vec![
            Task { op: FsOp::ClearDir(p("/t/stashes")), on_fail: OnFail::Abort },
            Task { op: FsOp::CreateFile(p("/t/stashes.ignored")), on_fail: OnFail::Abort },
        ]
    );
    assert_eq!(
        subdir_empty(&d, "repo")[1],
        Task { op: FsOp::CreateFile(p("/t/repo.empty")), on_fail: OnFail::Abort }
    );
}

#[test]
fn a_flavour_without_directory_cannot_work() {
    match plain_prepare(&None, TargetState::Missing) {
        Err(SyncError::Failed(m)) => assert_eq!(m, "Cannot prepare synchronization without directory"),
        _ => unreachable!(),
    }
    match plain_dup(&None) {
        Err(SyncError::Failed(m)) => assert_eq!(m, "Cannot synchronize without directory"),
        _ => unreachable!(),
    }
    match plain_merge(&None, &vec![]) {
        Err(SyncError::Failed(m)) => assert_eq!(m, "Cannot synchronize without directory"),
        _ => unreachable!(),
    }
}

#[test]
fn files_from_elsewhere_are_refused() {
    let mut d = Dir::new(0, init(false, false)).set_src_path(p("/s")).set_target_path(p("/t"));
    d.files.push(p("/elsewhere/file"));
    assert!(!d.sound());
    match plain_dup(&Some(d.duplicate())) {
        Err(SyncError::Failed(m)) => {
            assert_eq!(m, "Cannot synchronize files outside of the source directory")
        },
        _ => unreachable!(),
    }
    d.files.clear();
    d.files.push(p("/s/file"));
    match plain_merge(&Some(d.duplicate()), &vec![]) {
        Err(SyncError::Failed(m)) => assert_eq!(m, "Cannot merge without the state of every file"),
        _ => unreachable!(),
    }
    let ok = plain_dup(&Some(d)).unwrap();
    assert_eq!(ok.len(), 1);
    assert_eq!(ok[0].on_fail, OnFail::Abort);
    assert_eq!(ok[0].tasks.len(), 1);
}
