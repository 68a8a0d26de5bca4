use devsync::dir::Category;
use devsync::path::SyncPath;
use devsync::scanner::stats::{Command, Info};
use devsync::session::{decode, encode, set_option};
use devsync::ui::{layout, move_selection, Layout, Move};
use devsync::utils::{clone_failure, copy_failure, CopyStep, OnFail, SyncError, Verdict};

fn p(s: &str) -> SyncPath {
    SyncPath::parse(s)
}

fn args(v: &[&str]) -> Vec<String> {
    v.iter().map(|s| s.to_string()).collect()
}

#[test]
fn a_failure_is_settled_by_its_policy() {
    assert_eq!(OnFail::Ignore.settle("x"), Verdict::GoOn);
    assert_eq!(OnFail::Abort.settle("x"), Verdict::Stop);
    let i = Info {
        category: Category::Repository,
        name: "Git".to_string(),
        desc: "Failed to backup stashes".to_string(),
    };
    match OnFail::Report(i).settle("Operation failed because: no repository") {
        Verdict::Tell(t) => {
            assert_eq!((t.cmd, t.val), (Command::Runtime, 0));
            let i = t.info.unwrap();
            assert_eq!((i.category, i.name.as_str()), (Category::Repository, "Git"));
            assert_eq!(
                i.desc,
                "Failed to backup stashes because Operation failed because: no repository"
            );
        },
        _ => unreachable!(),
    }
}

#[test]
fn a_failed_copy_says_what_was_copied() {
    let cause = || SyncError::failed("cause");
    match copy_failure(&p("/s/a"), &p("/t/a"), CopyStep::Content, cause()) {
        SyncError::Failed(m) => assert_eq!(m, "Failed to copy /s/a to /t/a"),
        _ => unreachable!(),
    }
    match copy_failure(&p("/s/a"), &p("/t/a"), CopyStep::Times, cause()) {
        SyncError::Failed(m) => assert_eq!(m, "Failed to copy atime and mtime from /s/a to /t/a"),
        _ => unreachable!(),
    }
    match copy_failure(&p("/s/a"), &p("/t/a"), CopyStep::Permissions, cause()) {
        SyncError::Failed(m) => assert_eq!(m, "cause"),
        _ => unreachable!(),
    }
    let io = SyncError::from(std::io::Error::new(std::io::ErrorKind::NotFound, "gone"));
    assert!(matches!(copy_failure(&p("/s/a"), &p("/t/a"), CopyStep::Parents, io), SyncError::Io(_)));
    match clone_failure(&p("/src/repo")) {
        SyncError::Failed(m) => assert_eq!(m, "Cannot clone repository /src/repo"),
        _ => unreachable!(),
    }
}

#[test]
fn the_session_reads_back_as_written() {
    let a = args(&["-s", "/home/me/src", "--target", "/mnt/backup", "-d", "--git-full"]);
    let text = encode(&a);
    assert_eq!(text, "-s\0/home/me/src\0--target\0/mnt/backup\0-d\0--git-full");
    assert_eq!(decode(&text), a);
    assert_eq!(encode(&args(&["-a"])), "-a");
    assert_eq!(encode(&vec![]), "");
    assert_eq!(decode(""), args(&[""]));
    assert_eq!(decode("a\0\0b"), args(&["a", "", "b"]));
}

#[test]
fn paths_of_the_session_are_written_in_full() {
    let mut a = args(&["-d", "--source", "src", "-t", "../backup", "-s", "other"]);
    set_option(&mut a, "-s", "--source", "/home/me/src");
    set_option(&mut a, "-t", "--target", "/mnt/backup");
    assert_eq!(a, args(&["-d", "--source", "/home/me/src", "-t", "/mnt/backup", "-s", "other"]));
    let mut a = args(&["-d", "-s"]);
    set_option(&mut a, "-s", "--source", "/x");
    assert_eq!(a, args(&["-d", "-s"]));
    set_option(&mut a, "-t", "--target", "/x");
    assert_eq!(a, args(&["-d", "-s"]));
}

#[test]
fn the_highlight_moves_and_stops_at_the_ends() {
    assert_eq!(move_selection(None, Move::Up, 5), 0);
    assert_eq!(move_selection(None, Move::PageUp, 5), 0);
    assert_eq!(move_selection(None, Move::Down, 5), 4);
    assert_eq!(move_selection(None, Move::PageDown, 5), 4);
    assert_eq!(move_selection(Some(3), Move::Up, 5), 2);
    assert_eq!(move_selection(Some(0), Move::Up, 5), 0);
    assert_eq!(move_selection(Some(12), Move::PageUp, 20), 2);
    assert_eq!(move_selection(Some(7), Move::PageUp, 20), 0);
    assert_eq!(move_selection(Some(3), Move::Down, 5), 4);
    assert_eq!(move_selection(Some(4), Move::Down, 5), 4);
    assert_eq!(move_selection(Some(3), Move::PageDown, 20), 13);
    assert_eq!(move_selection(Some(15), Move::PageDown, 20), 19);
    assert_eq!(move_selection(Some(0), Move::Down, 1), 0);
}

#[test]
fn the_screen_is_divided_in_three() {
    assert_eq!(layout(24, 10), Some(Layout { jobs: 12, runtime: 9, progress: 3 }));
    assert_eq!(layout(24, 100), Some(Layout { jobs: 16, runtime: 5, progress: 3 }));
    assert_eq!(layout(8, 1), Some(Layout { jobs: 0, runtime: 5, progress: 3 }));
    assert_eq!(layout(7, 1), None);
    assert_eq!(layout(40, 0), Some(Layout { jobs: 2, runtime: 35, progress: 3 }));
}
