use devsync::dir::svn::{extract, relocate, status_changes, wcroot, Change, Need, Reason, Svn};
use devsync::dir::{Dir, TargetState};
use devsync::markup::{find_attribute, Attribute, Markup};
use devsync::path::SyncPath;
use devsync::utils::{EntryKind, FsOp, OnFail, RawEntry, SyncError, Task};
use devsync::Config;

fn p(s: &str) -> SyncPath {
    SyncPath::parse(s)
}

fn opts(args: &[&str]) -> getopts::Matches {
    let mut o = getopts::Options::new();
    Svn::init_opts(&mut o);
    o.parse(args).unwrap()
}

fn bound(args: &[&str], probed: bool) -> Svn {
    let t = Svn::template(&opts(args));
    let mut f = t.build();
    f.probed = probed;
    let mut d = Dir::new(0, Config::new(1, false, false, false, vec![]).unwrap())
        .set_src_path(p("/src/wc"))
        .set_target_path(p("/backup/wc"));
    d.dirs.push(p("/src/wc/.svn"));
    d.files.push(p("/src/wc/tracked"));
    f.set_dir(d);
    f
}

fn open(name: &str, attrs: &[(&str, &str)]) -> Markup {
    Markup::Open {
        name: name.to_string(),
        attributes: attrs
            .iter()
            .map(|(n, v)| Attribute { name: n.to_string(), value: v.to_string() })
            .collect(),
    }
}

fn must(op: FsOp) -> Task {
    Task { op, on_fail: OnFail::Abort }
}

fn copy(from: &str, to: &str) -> Task {
    must(FsOp::Copy { from: p(from), to: p(to), archive: true, parents: true })
}

const STATUS: &str = "<?xml version=\"1.0\" encoding=\"UTF-8\"?><status><target path=\".\">\
<entry path=\"a\"><wc-status item=\"modified\"/></entry>\
<entry path=\"b\"><wc-status item=\"unversioned\"/></entry></target></status>";

#[test]
fn status_payload_yields_modified_and_unversioned() {
    let found = status_changes(STATUS.as_bytes());
    assert_eq!(
        found,
        vec![
            Change { path: "a".to_string(), reason: Reason::Modified },
            Change { path: "b".to_string(), reason: Reason::Unversioned },
        ]
    );
    let modified: Vec<&str> =
        found.iter().filter(|c| c.reason == Reason::Modified).map(|c| c.path.as_str()).collect();
    let unversioned: Vec<&str> =
        found.iter().filter(|c| c.reason == Reason::Unversioned).map(|c| c.path.as_str()).collect();
    assert_eq!(modified, vec!["a"]);
    assert_eq!(unversioned, vec!["b"]);
}

#[test]
fn other_reasons_are_passed_over() {
    let xml = "<status><target path=\"x\"><entry path=\"/w/gone\"><wc-status item=\"missing\" \
        props=\"none\"/></entry><entry path=\"/w/new\"><wc-status props=\"none\" \
        item=\"unversioned\"></wc-status></entry><entry><wc-status item=\"modified\"/></entry>\
        </target></status>";
    assert_eq!(
        status_changes(xml.as_bytes()),
        vec![Change { path: "/w/new".to_string(), reason: Reason::Unversioned }]
    );
    assert!(status_changes(b"").is_empty());
    assert!(status_changes(b"<status></status>").is_empty());
}

#[test]
fn a_broken_document_yields_what_stands_before_the_break() {
    let xml = "<status><entry path=\"a\"><wc-status item=\"modified\"/></entry><entry path=\"b\"><<";
    assert_eq!(
        status_changes(xml.as_bytes()),
        vec![Change { path: "a".to_string(), reason: Reason::Modified }]
    );
}

#[test]
fn the_reader_keeps_what_it_has_seen() {
    // a reason that comes before its entry waits for the path
    let items = vec![
        open("wc-status", &[("item", "modified")]),
        Markup::Other,
        open("entry", &[("path", "late")]),
        Markup::End,
        open("entry", &[("path", "behind the end")]),
        open("wc-status", &[("item", "modified")]),
    ];
    assert_eq!(extract(&items), vec![Change { path: "late".to_string(), reason: Reason::Modified }]);
    // a reason of no interest makes the reader forget the path
    let items = vec![
        open("entry", &[("path", "x")]),
        open("wc-status", &[("item", "normal")]),
        open("wc-status", &[("item", "unversioned")]),
        open("entry", &[("path", "y")]),
    ];
    assert_eq!(extract(&items), vec![Change { path: "y".to_string(), reason: Reason::Unversioned }]);
    // an entry without a path forgets the path of the one before
    let items = vec![
        open("entry", &[("path", "x")]),
        open("entry", &[("kind", "file")]),
        open("wc-status", &[("item", "modified")]),
    ];
    assert!(extract(&items).is_empty());
    assert!(extract(&vec![Markup::Broken, open("entry", &[("path", "x")])]).is_empty());
}

#[test]
fn reasons_are_read_from_their_words() {
    assert_eq!(Reason::from("modified"), Reason::Modified);
    assert_eq!(Reason::from("unversioned"), Reason::Unversioned);
    assert_eq!(Reason::from("added"), Reason::Other);
    assert_eq!(Reason::from(""), Reason::Other);
}

#[test]
fn the_first_attribute_of_a_name_counts() {
    let attrs = vec![
        Attribute { name: "kind".to_string(), value: "dir".to_string() },
        Attribute { name: "path".to_string(), value: "one".to_string() },
        Attribute { name: "path".to_string(), value: "two".to_string() },
    ];
    assert_eq!(find_attribute(&attrs, "path"), Some("one".to_string()));
    assert_eq!(find_attribute(&attrs, "item"), None);
}

#[test]
fn the_root_of_the_working_copy_is_read_from_the_info() {
    let items = vec![
        open("info", &[]),
        Markup::Text("\n".to_string()),
        open("wcroot-abspath", &[]),
        Markup::Text("/src/wc".to_string()),
        Markup::Text("/other".to_string()),
        Markup::End,
    ];
    assert_eq!(wcroot(&items), Some("/src/wc".to_string()));
    let items = vec![open("wcroot-abspath", &[]), open("schedule", &[]), Markup::Text("normal".to_string())];
    assert_eq!(wcroot(&items), None);
    assert_eq!(wcroot(&vec![Markup::End, open("wcroot-abspath", &[]), Markup::Text("x".to_string())]), None);
}

#[test]
fn a_directory_inside_a_working_copy_moves_below_unversioned() {
    assert_eq!(
        relocate(&p("/src/wc/new/deep"), &p("/backup/wc/new/deep"), &p("/src/wc")),
        Some(p("/backup/wc/unversioned/new/deep"))
    );
    assert_eq!(relocate(&p("/src/wc"), &p("/backup/wc"), &p("/src/wc")), Some(p("/backup/wc/unversioned")));
    assert_eq!(relocate(&p("/a/b/c"), &p("/t"), &p("/a")), Some(p("/unversioned/b/c")));
    assert_eq!(relocate(&p("/src/other"), &p("/backup/other"), &p("/src/wc")), None);
}

#[test]
fn the_search_for_the_root_walks_up() {
    let info = "<?xml version=\"1.0\"?><info><entry path=\"wc\"><wc-info>\
        <wcroot-abspath>/src</wcroot-abspath></wc-info></entry></info>";
    let mut f = bound(&[], false);
    assert_eq!(f.needs(), Need::Info);
    // the call failed and named no root: the parent is next
    let next = f.modify_target_path_from(&p("/src/wc"), b"", false).unwrap();
    assert_eq!(next, Some(p("/src")));
    assert_eq!(f.dir().as_ref().unwrap().target_path, p("/backup/wc"));
    // the call for the parent went well
    let next = f.modify_target_path_from(&p("/src"), info.as_bytes(), true).unwrap();
    assert_eq!(next, None);
    assert_eq!(f.dir().as_ref().unwrap().target_path, p("/backup/unversioned/wc"));
    // at the top of the tree there is no parent left
    let mut f = bound(&[], false);
    match f.modify_target_path_from(&p("/"), b"", false) {
        Err(SyncError::Failed(m)) => assert_eq!(m, "Failed to find the root of the working copy"),
        _ => unreachable!(),
    }
    let outside = "<info><wcroot-abspath>/elsewhere</wcroot-abspath></info>";
    assert!(f.modify_target_path_from(&p("/src/wc"), outside.as_bytes(), true).is_err());
    assert_eq!(f.dir().as_ref().unwrap().target_path, p("/backup/wc"));
    // what a call names as it fails does not count
    let next = f.modify_target_path_from(&p("/src/wc"), info.as_bytes(), false).unwrap();
    assert_eq!(next, Some(p("/src")));
    assert_eq!(f.dir().as_ref().unwrap().target_path, p("/backup/wc"));
    let mut unbound = Svn::template(&opts(&[]));
    assert!(unbound.modify_target_path(&p("/src/wc"), &vec![], true).is_err());
}

#[test]
fn the_status_is_taken_in() {
    let found = vec![
        Change { path: "/src/wc/changed".to_string(), reason: Reason::Modified },
        Change { path: "/src/wc/gone".to_string(), reason: Reason::Modified },
        Change { path: "/src/wc/new".to_string(), reason: Reason::Unversioned },
        Change { path: "/src/wc/new_dir".to_string(), reason: Reason::Unversioned },
        Change { path: "/elsewhere/x".to_string(), reason: Reason::Unversioned },
    ];
    let kinds =
        vec![EntryKind::File, EntryKind::Other, EntryKind::File, EntryKind::Dir, EntryKind::File];
    let mut f = bound(&[], true);
    assert_eq!(f.needs(), Need::Status);
    f.prepare_contents(&found, &kinds).unwrap();
    assert_eq!(f.modified, vec![p("/src/wc/changed")]);
    assert_eq!(f.unversioned, vec![p("/src/wc/new")]);
    let d = f.dir().as_ref().unwrap();
    assert_eq!(d.dirs, vec![p("/src/wc/new_dir")]);
    assert!(d.files.is_empty());
    assert!(f.sound());
    let mut f = bound(&["--svn-ignore-modified"], true);
    f.prepare_contents(&found, &kinds).unwrap();
    assert!(f.modified.is_empty());
    assert_eq!(f.unversioned, vec![p("/src/wc/new")]);
    let mut f = bound(&["--svn-ignore-unversioned"], true);
    f.prepare_contents(&found, &kinds).unwrap();
    assert_eq!(f.modified, vec![p("/src/wc/changed")]);
    assert!(f.unversioned.is_empty());
    assert!(f.dir().as_ref().unwrap().dirs.is_empty());
    assert!(f.prepare_contents(&found, &vec![]).is_err());
    assert!(Svn::template(&opts(&[])).prepare_contents(&vec![], &vec![]).is_err());
}

#[test]
fn a_working_copy_is_distilled() {
    let mut f = bound(&[], true);
    f.prepare_contents(
        &vec![
            Change { path: "/src/wc/a/changed".to_string(), reason: Reason::Modified },
            Change { path: "/src/wc/new".to_string(), reason: Reason::Unversioned },
        ],
        &vec![EntryKind::File, EntryKind::File],
    )
    .unwrap();
    let listing = vec![RawEntry { path: p("/backup/wc/old"), kind: EntryKind::File, foreign: false }];
    let stages = f.dup(&listing).unwrap();
    assert_eq!(stages.len(), 1);
    assert_eq!(stages[0].on_fail, OnFail::Abort);
    assert_eq!(
        stages[0].tasks,
        vec![
            must(FsOp::RemoveFile(p("/backup/wc/old"))),
            Task { op: FsOp::RemoveDirAll(p("/backup/wc/modified")), on_fail: OnFail::Ignore },
            must(FsOp::CreateDirAll(p("/backup/wc/modified"))),
            copy("/src/wc/a/changed", "/backup/wc/modified/a/changed"),
            Task { op: FsOp::RemoveDirAll(p("/backup/wc/unversioned")), on_fail: OnFail::Ignore },
            must(FsOp::CreateDirAll(p("/backup/wc/unversioned"))),
            copy("/src/wc/new", "/backup/wc/unversioned/new"),
        ]
    );
    assert_eq!(f.merge(&listing, &vec![]).unwrap(), stages);
}

#[test]
fn markers_stand_for_what_is_ignored_or_empty() {
    let mut f = bound(&["--svn-ignore-modified"], true);
    f.prepare_contents(&vec![], &vec![]).unwrap();
    let stages = f.dup(&vec![]).unwrap();
    assert_eq!(
        stages[0].tasks,
        vec![
            Task { op: FsOp::RemoveDirAll(p("/backup/wc/modified")), on_fail: OnFail::Ignore },
            must(FsOp::CreateDirAll(p("/backup/wc/modified"))),
            must(FsOp::ClearDir(p("/backup/wc/modified"))),
            must(FsOp::CreateFile(p("/backup/wc/modified.ignored"))),
            Task { op: FsOp::RemoveDirAll(p("/backup/wc/unversioned")), on_fail: OnFail::Ignore },
            must(FsOp::CreateDirAll(p("/backup/wc/unversioned"))),
            must(FsOp::ClearDir(p("/backup/wc/unversioned"))),
            must(FsOp::CreateFile(p("/backup/wc/unversioned.empty"))),
        ]
    );
    // an unversioned directory keeps the subdirectory in place
    let mut f = bound(&[], true);
    f.prepare_contents(
        &vec![Change { path: "/src/wc/d".to_string(), reason: Reason::Unversioned }],
        &vec![EntryKind::Dir],
    )
    .unwrap();
    let tasks = &f.dup(&vec![]).unwrap()[0].tasks;
    assert_eq!(tasks.len(), 6);
    assert_eq!(tasks[3], must(FsOp::CreateFile(p("/backup/wc/modified.empty"))));
    assert_eq!(tasks[5], must(FsOp::CreateDirAll(p("/backup/wc/unversioned"))));
}

#[test]
fn a_full_backup_treats_the_working_copy_as_plain() {
    let f = bound(&["--svn-full"], true);
    assert_eq!(f.needs(), Need::Nothing);
    let stages = f.dup(&vec![]).unwrap();
    assert_eq!(stages[0].tasks.len(), 1);
    assert!(matches!(&stages[0].tasks[0].op, FsOp::Copy { from, archive: false, .. } if *from == p("/src/wc/tracked")));
    // so does a directory inside a working copy
    let f = bound(&[], false);
    assert!(matches!(&f.dup(&vec![]).unwrap()[0].tasks[0].op, FsOp::Copy { .. }));
    let prepared = f.prepare(TargetState::Missing).unwrap();
    assert_eq!(prepared.plan, vec![must(FsOp::CreateDir(p("/backup/wc")))]);
    assert!(Svn::template(&opts(&[])).prepare(TargetState::Missing).is_err());
    let mut broken = bound(&[], true);
    broken.modified.push(p("/elsewhere"));
    assert!(!broken.sound());
    assert!(broken.dup(&vec![]).is_err());
}
