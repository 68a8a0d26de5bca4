use devsync::dir::git::{needs_clone, Branch, Delta, Git, GitFacts, Stash, StatusEntry};
use devsync::dir::{Category, Compared, Dir};
use devsync::path::SyncPath;
use devsync::scanner::stats::Info;
use devsync::utils::{EntryKind, FileStat, FsOp, OnFail, RawEntry, SyncError, Task};
use devsync::Config;

fn p(s: &str) -> SyncPath {
    SyncPath::parse(s)
}

fn git(args: &[&str]) -> Git {
    let mut o = getopts::Options::new();
    Git::init_opts(&mut o);
    let mut g = Git::template(&o.parse(args).unwrap()).build();
    let mut d = Dir::new(0, Config::new(1, false, false, false, vec![]).unwrap())
        .set_src_path(p("/src/repo"))
        .set_target_path(p("/backup/repo"));
    d.files.push(p("/src/repo/README"));
    g.set_dir(d);
    g
}

fn must(op: FsOp) -> Task {
    Task { op, on_fail: OnFail::Abort }
}

fn fresh(name: &str) -> Vec<Task> {
    let d = p("/backup/repo").child(name);
    vec![Task { op: FsOp::RemoveDirAll(d.clone()), on_fail: OnFail::Ignore }, must(FsOp::CreateDirAll(d))]
}

fn marker(name: &str, state: &str) -> Vec<Task> {
    vec![
        must(FsOp::ClearDir(p("/backup/repo").child(name))),
        must(FsOp::CreateFile(p("/backup/repo").child(&format!("{}.{}", name, state)))),
    ]
}

fn report(desc: &str) -> OnFail {
    OnFail::Report(Info { category: Category::Repository, name: "Git".to_string(), desc: desc.to_string() })
}

fn entry(path: &str, delta: Delta) -> StatusEntry {
    StatusEntry { path: p(path), delta }
}

fn branch(local: bool, tip: &str, upstream: Option<&str>) -> Branch {
    Branch { local, tip: tip.to_string(), upstream: upstream.map(|s| s.to_string()) }
}

#[test]
fn one_file_for_each_stash() {
    let g = git(&[]);
    let d = g.dir().as_ref().unwrap();
    let stashes = Ok(vec![Stash { name: "WIP on main".to_string(), oid: "abc123".to_string() }]);
    let s = g.dup_stashes(d, &stashes);
    assert_eq!(s.on_fail, report("Failed to backup stashes"));
    assert!(!s.follow_up);
    let mut want = fresh("stashes");
    want.push(must(FsOp::WriteStash {
        repo: p("/src/repo"),
        oid: "abc123".to_string(),
        summary: "WIP on main".to_string(),
        to: p("/backup/repo/stashes").child("WIP on main-abc123"),
    }));
    assert_eq!(s.tasks, want);
    match &s.tasks[2].op {
        FsOp::WriteStash { to, .. } => {
            assert!(to.file_name().unwrap().starts_with("WIP on main"));
            assert_eq!(to.parent(), Some(p("/backup/repo/stashes")));
        },
        _ => unreachable!(),
    }
}

#[test]
fn markers_for_stashes() {
    let none: Result<Vec<Stash>, String> = Ok(vec![]);
    let g = git(&[]);
    let d = g.dir().as_ref().unwrap();
    let mut want = fresh("stashes");
    want.extend(marker("stashes", "empty"));
    assert_eq!(g.dup_stashes(d, &none).tasks, want);
    let g = git(&["--git-ignore-stashes"]);
    let d = g.dir().as_ref().unwrap();
    let mut want = fresh("stashes");
    want.extend(marker("stashes", "ignored"));
    let one = Ok(vec![Stash { name: "x".to_string(), oid: "1".to_string() }]);
    assert_eq!(g.dup_stashes(d, &one).tasks, want);
    // what could not be read is of no matter if it is not wanted
    assert_eq!(g.dup_stashes(d, &Err("no repository".to_string())).tasks, want);
    let g = git(&[]);
    let d = g.dir().as_ref().unwrap();
    let mut want = fresh("stashes");
    want.push(must(FsOp::Fail("no repository".to_string())));
    assert_eq!(g.dup_stashes(d, &Err("no repository".to_string())).tasks, want);
}

#[test]
fn the_status_is_copied_by_kind() {
    let g = git(&[]);
    let d = g.dir().as_ref().unwrap();
    let status = Ok(vec![
        entry("src/main.rs", Delta::Modified),
        entry("notes.txt", Delta::Untracked),
        entry("Cargo.lock", Delta::Other),
    ]);
    let s = g.dup_status(d, &status);
    assert!(s.follow_up);
    assert_eq!(s.on_fail, report("Failed to backup status"));
    let mut want = fresh("untracked");
    want.extend(fresh("unstaged"));
    want.push(Task {
        op: FsOp::Copy {
            from: p("/src/repo/src/main.rs"),
            to: p("/backup/repo/unstaged/src/main.rs"),
            archive: true,
            parents: true,
        },
        on_fail: report("Failed to backup unstaged file src/main.rs"),
    });
    want.push(Task {
        op: FsOp::Copy {
            from: p("/src/repo/notes.txt"),
            to: p("/backup/repo/untracked/notes.txt"),
            archive: true,
            parents: true,
        },
        on_fail: report("Failed to backup untracked file notes.txt"),
    });
    assert_eq!(s.tasks, want);
}

#[test]
fn what_is_ignored_is_not_copied() {
    let g = git(&["--git-ignore-untracked"]);
    let d = g.dir().as_ref().unwrap();
    let status = vec![entry("a", Delta::Untracked), entry("b", Delta::Modified)];
    let s = g.dup_status(d, &Ok(status.clone()));
    let mut want = marker("untracked", "ignored");
    want.extend(fresh("unstaged"));
    assert_eq!(s.tasks[..4], want[..]);
    assert_eq!(s.tasks.len(), 5);
    assert!(matches!(&s.tasks[4].op, FsOp::Copy { to, .. } if *to == p("/backup/repo/unstaged/b")));
    let g = git(&["--git-ignore-unstaged", "--git-ignore-untracked"]);
    let d = g.dir().as_ref().unwrap();
    let s = g.dup_status(d, &Ok(status));
    let mut want = marker("untracked", "ignored");
    want.extend(marker("unstaged", "ignored"));
    assert_eq!(s.tasks, want);
    let s = g.dup_status(d, &Err("broken index".to_string()));
    assert_eq!(s.tasks, vec![must(FsOp::Fail("broken index".to_string()))]);
    assert!(!s.follow_up);
}

#[test]
fn the_outcomes_settle_the_markers() {
    let g = git(&[]);
    let d = g.dir().as_ref().unwrap();
    let status = vec![
        entry("a", Delta::Untracked),
        entry("skip", Delta::Other),
        entry("b", Delta::Modified),
        entry("c", Delta::Untracked),
    ];
    // all copies went well
    let all = vec![true, true, true, true, true, true, true];
    assert!(g.dup_status_finish(d, &status, &all).tasks.is_empty());
    // the unstaged copy failed: its subdirectory is empty, and the stage fails
    let one = vec![true, true, true, true, true, false, true];
    let s = g.dup_status_finish(d, &status, &one);
    let mut want = marker("unstaged", "empty");
    want.push(must(FsOp::Fail("Failed to backup file(s) from /src/repo".to_string())));
    assert_eq!(s.tasks, want);
    assert_eq!(s.on_fail, report("Failed to backup status"));
    // one of two untracked copies is enough to keep the subdirectory
    let half = vec![true, true, true, true, false, true, true];
    let s = g.dup_status_finish(d, &status, &half);
    assert_eq!(s.tasks, vec![must(FsOp::Fail("Failed to backup file(s) from /src/repo".to_string()))]);
    // a task without outcome was not done
    let short = vec![true, true, true, true, true];
    let s = g.dup_status_finish(d, &status, &short);
    assert_eq!(s.tasks.len(), 3);
    // nothing to copy leaves both subdirectories empty
    let s = g.dup_status_finish(d, &vec![], &vec![true, true, true, true]);
    let mut want = marker("untracked", "empty");
    want.extend(marker("unstaged", "empty"));
    assert_eq!(s.tasks, want);
    let g = git(&["--git-ignore-untracked", "--git-ignore-unstaged"]);
    let d = g.dir().as_ref().unwrap();
    assert!(g.dup_status_finish(d, &status, &vec![]).tasks.is_empty());
}

#[test]
fn an_unpushed_branch_asks_for_a_clone() {
    assert!(!needs_clone(&vec![]));
    assert!(!needs_clone(&vec![branch(true, "1", Some("1")), branch(false, "2", None)]));
    assert!(needs_clone(&vec![branch(true, "1", Some("1")), branch(true, "2", None)]));
    assert!(needs_clone(&vec![branch(true, "1", Some("0"))]));
    assert!(!needs_clone(&vec![branch(false, "1", Some("0"))]));
    let g = git(&[]);
    let d = g.dir().as_ref().unwrap();
    let s = g.dup_local(d, &Ok(vec![branch(true, "1", Some("1")), branch(true, "9", None)]));
    let mut want = fresh("repo");
    want.push(must(FsOp::CloneBare { from: p("/src/repo"), to: p("/backup/repo/repo") }));
    assert_eq!(s.tasks, want);
    assert_eq!(s.on_fail, report("Failed to backup locals"));
    let s = g.dup_local(d, &Ok(vec![branch(true, "1", Some("1"))]));
    let mut want = fresh("repo");
    want.extend(marker("repo", "empty"));
    assert_eq!(s.tasks, want);
    let s = g.dup_local(d, &Err("no branches".to_string()));
    assert_eq!(s.tasks[2], must(FsOp::Fail("no branches".to_string())));
    let g = git(&["--git-ignore-unpushed"]);
    let d = g.dir().as_ref().unwrap();
    let s = g.dup_local(d, &Ok(vec![branch(true, "9", None)]));
    let mut want = fresh("repo");
    want.extend(marker("repo", "ignored"));
    assert_eq!(s.tasks, want);
}

#[test]
fn a_repository_is_distilled_in_four_stages() {
    let g = git(&["--git-ignore-stashes"]);
    let facts = GitFacts {
        stashes: Ok(vec![Stash { name: "x".to_string(), oid: "1".to_string() }]),
        status: Ok(vec![]),
        branches: Ok(vec![]),
    };
    let listing = vec![
        RawEntry { path: p("/backup/repo/stashes"), kind: EntryKind::Dir, foreign: false },
        RawEntry { path: p("/backup/repo/.devsync"), kind: EntryKind::File, foreign: false },
        RawEntry { path: p("/backup/repo/repo.empty"), kind: EntryKind::File, foreign: false },
    ];
    let stages = g.dup(&listing, &facts).unwrap();
    assert_eq!(stages.len(), 4);
    assert_eq!(
        stages[0].tasks,
        vec![
            must(FsOp::RemoveDirAll(p("/backup/repo/stashes"))),
            must(FsOp::RemoveFile(p("/backup/repo/repo.empty"))),
        ]
    );
    assert_eq!(stages[0].on_fail, OnFail::Abort);
    assert_eq!(stages[1].tasks[3], must(FsOp::CreateFile(p("/backup/repo/stashes.ignored"))));
    assert!(stages[2].follow_up && !stages[1].follow_up && !stages[3].follow_up);
    assert_eq!(stages[3].tasks[3], must(FsOp::CreateFile(p("/backup/repo/repo.empty"))));
    assert_eq!(g.merge(&listing, &facts, &vec![]).unwrap(), stages);
}

#[test]
fn a_full_backup_mirrors_the_working_tree() {
    let g = git(&["--git-full"]);
    let facts = GitFacts { stashes: Ok(vec![]), status: Ok(vec![]), branches: Ok(vec![]) };
    let stages = g.dup(&vec![], &facts).unwrap();
    assert_eq!(stages.len(), 1);
    assert!(matches!(&stages[0].tasks[0].op, FsOp::Copy { from, .. } if *from == p("/src/repo/README")));
    let stat = FileStat { secs: 5, nanos: 0, mode: 0o644 };
    let same = vec![Compared { source: stat, target: Some(stat) }];
    assert!(g.merge(&vec![], &facts, &same).unwrap()[0].tasks.is_empty());
    assert!(g.merge(&vec![], &facts, &vec![]).is_err());
}

#[test]
fn without_directory_nothing_is_distilled() {
    let mut o = getopts::Options::new();
    Git::init_opts(&mut o);
    let g = Git::template(&o.parse::<[&str; 0]>([]).unwrap());
    let facts = GitFacts { stashes: Ok(vec![]), status: Ok(vec![]), branches: Ok(vec![]) };
    match g.dup_all(&vec![], &facts) {
        Err(SyncError::Failed(m)) => assert_eq!(m, "Cannot synchronize without directory"),
        _ => unreachable!(),
    }
}
