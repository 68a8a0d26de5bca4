use devsync::dir::Category;
use devsync::scanner::stats::{Command, Info, Stats, Transport};
use devsync::scanner::{Phase, Signal};

fn count(s: &mut Stats, cmd: Command) -> Command {
    let t = Transport::count(cmd);
    assert!(s.accepts(&t));
    s.process(&t)
}

#[test]
fn counters_move_by_the_value_of_the_event() {
    let mut s = Stats::default();
    assert_eq!(s.process(&Transport { cmd: Command::Todo, val: 5, info: None }), Command::Todo);
    assert_eq!(s.process(&Transport { cmd: Command::Scanned, val: 2, info: None }), Command::Scanned);
    assert_eq!(s.process(&Transport { cmd: Command::Done, val: 1, info: None }), Command::Done);
    assert_eq!(s.process(&Transport { cmd: Command::Skipped, val: 1, info: None }), Command::Skipped);
    assert_eq!(s.process(&Transport { cmd: Command::Error, val: 1, info: None }), Command::Error);
    assert_eq!((s.todo, s.scanned, s.done, s.skipped, s.error), (5, 2, 1, 1, 1));
    assert!(!s.scan_done && !s.proc_done);
}

#[test]
fn flags_rise_once_and_stay() {
    let mut s = Stats::default();
    count(&mut s, Command::Todo);
    assert!(!s.scan_done && !s.proc_done);
    count(&mut s, Command::Todo);
    count(&mut s, Command::Scanned);
    assert!(s.take_announced().is_empty());
    count(&mut s, Command::Scanned);
    assert!(s.scan_done && !s.proc_done);
    assert_eq!(s.take_announced(), vec![Command::ScanComplete]);
    count(&mut s, Command::Done);
    count(&mut s, Command::Done);
    assert!(s.scan_done && s.proc_done);
    assert_eq!(s.take_announced(), vec![Command::Complete]);
    // the predicates fail again, the flags stay
    count(&mut s, Command::Todo);
    assert!(s.scan_done && s.proc_done);
    // and nothing is announced twice
    count(&mut s, Command::Scanned);
    count(&mut s, Command::Done);
    assert!(s.take_announced().is_empty());
}

#[test]
fn errors_count_for_both_flags() {
    let mut s = Stats::default();
    count(&mut s, Command::Todo);
    count(&mut s, Command::Error);
    assert!(s.scan_done && s.proc_done);
    assert_eq!(s.take_announced(), vec![Command::ScanComplete, Command::Complete]);
}

#[test]
fn notes_move_no_counter() {
    let mut s = Stats::default();
    count(&mut s, Command::Todo);
    let i = Info { category: Category::Plain, name: "Directory".to_string(), desc: "x".to_string() };
    assert_eq!(s.process(&Transport::runtime(i.clone())), Command::Runtime);
    assert_eq!(s.process(&Transport::log(i.clone())), Command::Log);
    assert_eq!(s.process(&Transport::job(3, Some(i))), Command::Job);
    assert_eq!((s.todo, s.scanned, s.done, s.skipped, s.error), (1, 0, 0, 0, 0));
    assert!(!s.scan_done && !s.proc_done);
}

#[test]
fn events_are_built_as_told() {
    let t = Transport::count(Command::Skipped);
    assert_eq!((t.cmd, t.val, t.info.is_none()), (Command::Skipped, 1, true));
    let j = Transport::job(7, None);
    assert_eq!((j.cmd, j.val, j.info.is_none()), (Command::Job, 7, true));
    let s = Transport::signal(Command::Complete);
    assert_eq!((s.cmd, s.val, s.info.is_none()), (Command::Complete, 0, true));
}

#[test]
fn a_counter_that_would_overflow_is_not_accepted() {
    let mut s = Stats::default();
    s.todo = i64::MAX;
    assert!(!s.accepts(&Transport::count(Command::Todo)));
    assert!(s.accepts(&Transport::count(Command::Done)));
    assert!(s.accepts(&Transport { cmd: Command::Todo, val: -1, info: None }));
}

#[test]
fn progress_is_the_share_that_is_through() {
    let mut s = Stats::default();
    assert_eq!(s.progress(), 0);
    s.todo = 8;
    s.done = 2;
    s.error = 1;
    assert_eq!(s.progress(), 37);
    s.done = 7;
    assert_eq!(s.progress(), 100);
    s.done = 100;
    assert_eq!(s.progress(), 100);
}

#[test]
fn category_ranks_and_names() {
    assert_eq!(Category::Unknown.rank(), 0);
    assert_eq!(Category::Special.rank(), 1);
    assert_eq!(Category::Build.rank(), 30);
    assert_eq!(Category::Repository.rank(), 60);
    assert_eq!(Category::Plain.rank(), 100);
    assert!(Category::Special.le(&Category::Repository));
    assert!(!Category::Plain.le(&Category::Build));
    assert!(Category::Special < Category::Build);
    assert_eq!(Category::Repository.to_string(), "Repository");
    assert_eq!(Category::Unknown.to_string(), "Unknown");
}

#[test]
fn a_worker_scans_then_processes_then_leaves() {
    let mut ph = Phase::Scanning;
    ph = ph.advance(Signal::Item);
    assert_eq!(ph, Phase::Scanning);
    ph = ph.advance(Signal::Timeout { scan_done: false });
    assert_eq!(ph, Phase::Scanning);
    ph = ph.advance(Signal::Timeout { scan_done: true });
    assert_eq!(ph, Phase::Processing);
    ph = ph.advance(Signal::Item);
    assert_eq!(ph, Phase::Processing);
    ph = ph.advance(Signal::Empty);
    assert_eq!(ph, Phase::Leaving);
    assert_eq!(ph.advance(Signal::Item), Phase::Leaving);
}
