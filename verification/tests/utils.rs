use devsync::dir::Category;
use devsync::path::SyncPath;
use devsync::scanner::stats::Info;
use devsync::utils::{
    append_tasks, cp, cp_d, cp_r, cp_r_d, create_dir_save, diff, filter_dir_entries, is_ignored,
    is_reserved, log_stats_info, rm_dirs_and_files, save_dirs_and_files, split_nanos, EntryKind,
    FileStat, FsOp, OnFail, RawEntry, SyncError, Task,
};

fn p(s: &str) -> SyncPath {
    SyncPath::parse(s)
}

fn entry(path: &str, kind: EntryKind) -> RawEntry {
    RawEntry { path: p(path), kind, foreign: false }
}

/// The sample directory: four files and two subdirectories.
fn sample_dir(root: &str) -> Vec<RawEntry> {
    vec![
        entry(&format!("{}/file_a", root), EntryKind::File),
        entry(&format!("{}/file_b", root), EntryKind::File),
        entry(&format!("{}/file_c", root), EntryKind::File),
        entry(&format!("{}/dir_d", root), EntryKind::Dir),
        entry(&format!("{}/file_e", root), EntryKind::File),
        entry(&format!("{}/dir_f", root), EntryKind::Dir),
    ]
}

fn must(op: FsOp) -> Task {
    Task { op, on_fail: OnFail::Abort }
}

#[test]
fn test_create_dir_save() {
    let path = p("/tests/create_dir_save");
    assert_eq!(create_dir_save(&path, false), vec![must(FsOp::CreateDirAll(path.clone()))]);
    assert_eq!(
        create_dir_save(&path, true),
        vec![
            Task { op: FsOp::RemoveDirAll(path.clone()), on_fail: OnFail::Ignore },
            must(FsOp::CreateDirAll(path.clone())),
        ]
    );
}

#[test]
fn test_save_dirs_and_files() {
    let root = p("/tests/save_dirs_and_files");
    let listing = sample_dir("/tests/save_dirs_and_files");
    let mut f: Vec<SyncPath> = Vec::new();
    let mut d: Vec<SyncPath> = Vec::new();
    save_dirs_and_files(&root, &mut d, &mut f, &listing, None, false);
    assert!(f.len() == 4);
    assert!(d.len() == 2);
    f.clear();
    d.clear();
    save_dirs_and_files(&root, &mut d, &mut f, &listing, None, true);
    assert!(f.len() == 4);
    assert!(d.len() == 2);
    f.clear();
    d.clear();
    let filter = vec!["file_b".to_string(), "d".to_string()];
    save_dirs_and_files(&root, &mut d, &mut f, &listing, Some(&filter), true);
    assert!(f.len() == 3);
    assert!(d.len() == 1);
    assert_eq!(
        f,
        vec![
            p("/tests/save_dirs_and_files/file_a"),
            p("/tests/save_dirs_and_files/file_c"),
            p("/tests/save_dirs_and_files/file_e"),
        ]
    );
    assert_eq!(d, vec![p("/tests/save_dirs_and_files/dir_f")]);
}

#[test]
fn save_dirs_and_files_appends_in_order() {
    let root = p("/r");
    let mut f = vec![p("/r/before")];
    let mut d = vec![];
    save_dirs_and_files(&root, &mut d, &mut f, &sample_dir("/r"), None, false);
    assert_eq!(f, vec![p("/r/before"), p("/r/file_a"), p("/r/file_b"), p("/r/file_c"), p("/r/file_e")]);
    assert_eq!(d, vec![p("/r/dir_d"), p("/r/dir_f")]);
}

#[test]
fn reserved_names_are_never_files() {
    let root = p("/r");
    let listing = vec![
        entry("/r/.devsync", EntryKind::File),
        entry("/r/.devsync.log", EntryKind::File),
        entry("/r/kept", EntryKind::File),
        entry("/r/.devsync", EntryKind::Dir),
    ];
    for owned in [false, true] {
        let mut f = vec![];
        let mut d = vec![];
        save_dirs_and_files(&root, &mut d, &mut f, &listing, None, owned);
        assert_eq!(f, vec![p("/r/kept")]);
        assert_eq!(d, vec![p("/r/.devsync")]);
    }
    assert!(is_reserved(&p("/x/.devsync")));
    assert!(is_reserved(&p(".devsync.log")));
    assert!(!is_reserved(&p("/x/devsync")));
    assert!(!is_reserved(&p("/")));
}

#[test]
fn foreign_and_other_entries_are_dropped() {
    let root = p("/r");
    let listing = vec![
        RawEntry { path: p("/r/mine"), kind: EntryKind::File, foreign: false },
        RawEntry { path: p("/r/theirs"), kind: EntryKind::File, foreign: true },
        RawEntry { path: p("/r/link"), kind: EntryKind::Other, foreign: false },
        RawEntry { path: p("/r"), kind: EntryKind::Dir, foreign: false },
    ];
    let mut f = vec![];
    let mut d = vec![];
    save_dirs_and_files(&root, &mut d, &mut f, &listing, None, true);
    assert_eq!(f, vec![p("/r/mine")]);
    assert!(d.is_empty());
    f.clear();
    save_dirs_and_files(&root, &mut d, &mut f, &listing, None, false);
    assert_eq!(f, vec![p("/r/mine"), p("/r/theirs")]);
}

#[test]
fn ignore_matches_the_end_of_the_whole_path() {
    let pats = vec!["d/file_a".to_string()];
    assert!(is_ignored(&p("/r/dir_d/file_a"), &pats));
    assert!(!is_ignored(&p("/r/dir_f/file_a"), &pats));
    assert!(is_ignored(&p("/r/x"), &vec!["".to_string()]));
    assert!(!is_ignored(&p("/r/x"), &vec![]));
}

#[test]
fn test_rm_dirs_and_files() {
    let root = p("/tests/rm_dirs_and_files");
    let mut listing = sample_dir("/tests/rm_dirs_and_files");
    listing.push(entry("/tests/rm_dirs_and_files/.devsync", EntryKind::File));
    let plan = rm_dirs_and_files(&root, &listing);
    assert_eq!(
        plan,
        vec![
            must(FsOp::RemoveFile(p("/tests/rm_dirs_and_files/file_a"))),
            must(FsOp::RemoveFile(p("/tests/rm_dirs_and_files/file_b"))),
            must(FsOp::RemoveFile(p("/tests/rm_dirs_and_files/file_c"))),
            must(FsOp::RemoveDirAll(p("/tests/rm_dirs_and_files/dir_d"))),
            must(FsOp::RemoveFile(p("/tests/rm_dirs_and_files/file_e"))),
            must(FsOp::RemoveDirAll(p("/tests/rm_dirs_and_files/dir_f"))),
        ]
    );
}

#[test]
fn test_filter_dir_entries() {
    let root1 = p("/tests/filter_dir_entries_1");
    let root2 = p("/tests/filter_dir_entries_2");
    let mut f1 = vec![];
    let mut d1 = vec![];
    let mut f2 = vec![];
    let mut d2 = vec![];
    save_dirs_and_files(&root1, &mut d1, &mut f1, &sample_dir("/tests/filter_dir_entries_1"), None, true);
    save_dirs_and_files(&root2, &mut d2, &mut f2, &sample_dir("/tests/filter_dir_entries_2"), None, true);
    filter_dir_entries(&f1, &mut f2);
    filter_dir_entries(&d1, &mut d2);
    assert!(f2.is_empty());
    assert!(d2.is_empty());
}

#[test]
fn filter_dir_entries_leaves_what_the_source_lacks() {
    let a = vec![p("/s/file_b"), p("/s/file_c")];
    let mut b = vec![p("/t/file_a"), p("/t/file_b"), p("/t/file_c"), p("/t/file_z")];
    filter_dir_entries(&a, &mut b);
    assert_eq!(b, vec![p("/t/file_a"), p("/t/file_z")]);
}

#[test]
fn filter_dir_entries_takes_one_entry_for_each_name() {
    let a = vec![p("/s/x")];
    let mut b = vec![p("/t/x"), p("/u/x")];
    filter_dir_entries(&a, &mut b);
    assert_eq!(b, vec![p("/u/x")]);
}

#[test]
fn test_cp_r_and_diff() {
    let op = cp_r(&p("/tests/cp_r_1"), &p("/tests/cp_r_2"), &p("file_a"), false);
    assert_eq!(
        op,
        FsOp::Copy {
            from: p("/tests/cp_r_1/file_a"),
            to: p("/tests/cp_r_2/file_a"),
            archive: false,
            parents: false,
        }
    );
    let source = FileStat { secs: 100, nanos: 5, mode: 0o644 };
    // a plain copy is younger than its source, so the source seen from the
    // copy has changed
    let copy = FileStat { secs: 101, nanos: 0, mode: 0o644 };
    assert!(diff(&copy, &Some(source)));
    // an archived copy carries the time stamp of its source
    let op = cp_r(&p("/tests/cp_r_1"), &p("/tests/cp_r_2"), &p("file_a"), true);
    assert!(matches!(op, FsOp::Copy { archive: true, .. }));
    assert!(!diff(&source, &Some(source)));
}

#[test]
fn diff_tells_when_a_copy_is_out_of_date() {
    let s = FileStat { secs: 100, nanos: 500, mode: 0o644 };
    assert!(diff(&s, &None));
    assert!(diff(&s, &Some(FileStat { secs: 99, nanos: 900, mode: 0o644 })));
    assert!(diff(&s, &Some(FileStat { secs: 100, nanos: 499, mode: 0o644 })));
    assert!(!diff(&s, &Some(FileStat { secs: 100, nanos: 500, mode: 0o644 })));
    assert!(!diff(&s, &Some(FileStat { secs: 100, nanos: 501, mode: 0o644 })));
    assert!(!diff(&s, &Some(FileStat { secs: 101, nanos: 0, mode: 0o644 })));
    assert!(diff(&s, &Some(FileStat { secs: 101, nanos: 0, mode: 0o600 })));
}

#[test]
fn test_cp_r_d() {
    let op = cp_r_d(&p("/tests/cp_r_d_1"), &p("/tests/cp_r_d_2"), &p("file_a"), false);
    assert_eq!(
        op,
        FsOp::Copy {
            from: p("/tests/cp_r_d_1/file_a"),
            to: p("/tests/cp_r_d_2/file_a"),
            archive: false,
            parents: true,
        }
    );
}

#[test]
fn test_cp() {
    let op = cp(&p("/tests/cp_1"), &p("/tests/cp_2"), &p("/tests/cp_1/file_a"), false);
    assert_eq!(
        op,
        FsOp::Copy {
            from: p("/tests/cp_1/file_a"),
            to: p("/tests/cp_2/file_a"),
            archive: false,
            parents: false,
        }
    );
}

#[test]
fn test_cp_d() {
    let op = cp_d(&p("/tests/cp_d_1"), &p("/tests/cp_d_2"), &p("/tests/cp_d_1/sub/file_a"), true);
    assert_eq!(
        op,
        FsOp::Copy {
            from: p("/tests/cp_d_1/sub/file_a"),
            to: p("/tests/cp_d_2/sub/file_a"),
            archive: true,
            parents: true,
        }
    );
}

#[test]
fn sync_error_reads_as_text() {
    let e = SyncError::failed("no luck");
    assert_eq!(e.to_string(), "Operation failed because: no luck");
    let io = SyncError::from(std::io::Error::new(std::io::ErrorKind::Other, "disk on fire"));
    assert!(matches!(io, SyncError::Io(_)));
    assert_eq!(io.to_string(), "disk on fire");
}

#[test]
fn log_line_names_flavour_and_category() {
    let i = Info {
        category: Category::Repository,
        name: "Git".to_string(),
        desc: "Skipped /src/repo".to_string(),
    };
    assert_eq!(
        log_stats_info("Log from flavour", &i),
        "Log from flavour Git(Repository): Skipped /src/repo"
    );
}

#[test]
fn nanoseconds_split_into_seconds_and_rest() {
    assert_eq!(split_nanos(1_700_000_000_123_456_789), (1_700_000_000, 123_456_789));
    assert_eq!(split_nanos(0), (0, 0));
    assert_eq!(split_nanos(999_999_999), (0, 999_999_999));
}

#[test]
fn tasks_are_appended_in_order() {
    let mut a = vec![must(FsOp::CreateDir(p("/a")))];
    let b = vec![must(FsOp::CreateDir(p("/b"))), must(FsOp::CreateDir(p("/c")))];
    append_tasks(&mut a, b);
    assert_eq!(
        a,
        vec![
            must(FsOp::CreateDir(p("/a"))),
            must(FsOp::CreateDir(p("/b"))),
            must(FsOp::CreateDir(p("/c"))),
        ]
    );
}
