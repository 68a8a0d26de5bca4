//! The scan and process pipeline and its statistics.

pub mod scan;
pub mod stats;

use self::scan::{rank, slot, sorted, Child, ChildView, Scan};
use self::stats::{Command, Tally, Transport};
use crate::dir::{
    Cargo, Cmake, Flavour, Flutter, Git, Meson, Ninja, Simple, Svn, Sysroot, Yocto,
};
use crate::path::SyncPath;
use crate::Config;
use vstd::prelude::*;

verus! {

/// How long a worker waits for a directory to scan before it looks whether
/// the scan is complete, in milliseconds.
pub const SCAN_TIMEOUT_MS: u64 = 100;

/// What a worker is doing.
#[derive(PartialEq, Eq, Clone, Copy, Debug, Structural)]
pub enum Phase {
    /// It scans directories as they come.
    Scanning,
    /// It processes directories until none is left.
    Processing,
    /// It is through.
    Leaving,
}

/// What a worker got when it asked for work.
#[derive(PartialEq, Eq, Clone, Copy, Debug, Structural)]
pub enum Signal {
    /// A directory to scan or to process.
    Item,
    /// Nothing came in time. `scan_done` tells whether the scan is
    /// complete.
    Timeout { scan_done: bool },
    /// Nothing is left.
    Empty,
}

impl Phase {
    /// The phase that follows. A scanning worker goes on scanning until
    /// nothing comes in time and the scan is complete; then it processes
    /// until nothing is left, and leaves.
    pub open spec fn next(self, s: Signal) -> Phase {
        match (self, s) {
            (Phase::Scanning, Signal::Timeout { scan_done: true }) => Phase::Processing,
            (Phase::Scanning, _) => Phase::Scanning,
            (Phase::Processing, Signal::Item) => Phase::Processing,
            (Phase::Processing, _) => Phase::Leaving,
            (Phase::Leaving, _) => Phase::Leaving,
        }
    }

    /// The phase that follows the signal.
    pub fn advance(self, s: Signal) -> (p: Phase)
        ensures
            p == self.next(s),
    {
        match self {
            Phase::Scanning => match s {
                Signal::Timeout { scan_done } => if scan_done {
                    Phase::Processing
                } else {
                    Phase::Scanning
                },
                _ => Phase::Scanning,
            },
            Phase::Processing => match s {
                Signal::Item => Phase::Processing,
                _ => Phase::Leaving,
            },
            Phase::Leaving => Phase::Leaving,
        }
    }
}

/// A worker never goes back: from processing it does not return to
/// scanning, and once it leaves it has left.
pub proof fn lemma_phases_go_forward(p: Phase, s: Signal)
    ensures
        p == Phase::Processing ==> p.next(s) != Phase::Scanning,
        p == Phase::Leaving ==> p.next(s) == Phase::Leaving,
{
}

/// What became of a directory, as far as the counters are concerned.
pub enum Outcome {
    /// Its scan found that it is skipped.
    Skipped,
    /// Its scan failed.
    ScanFailed,
    /// Its scan went well: it waits to be processed, and `children`
    /// directories below it wait to be scanned.
    Queued { children: nat },
    /// It was processed.
    Done,
    /// Its processing failed.
    ProcessFailed,
}

/// The books of a run: how many directories wait for their scan, how many
/// wait to be processed, and what the counters say.
pub struct Ledger {
    pub waiting: int,
    pub working: int,
    pub tally: Tally,
}

impl Ledger {
    /// The books when the source root has been put up for scanning.
    pub open spec fn seeded() -> Ledger {
        Ledger {
            waiting: 1,
            working: 0,
            tally: Tally {
                todo: 1,
                scanned: 0,
                done: 0,
                skipped: 0,
                error: 0,
                scan_done: false,
                proc_done: false,
            },
        }
    }

    /// Whether the outcome can come about: a scan ends only for a
    /// directory that waits for it, and a processing only for one that
    /// waits for that.
    pub open spec fn admits(self, o: Outcome) -> bool {
        match o {
            Outcome::Skipped | Outcome::ScanFailed | Outcome::Queued { .. } => self.waiting > 0,
            Outcome::Done | Outcome::ProcessFailed => self.working > 0,
        }
    }

    /// The events that the counters are told of an outcome.
    pub open spec fn events(o: Outcome) -> Seq<(Command, int)> {
        match o {
            Outcome::Skipped => seq![(Command::Skipped, 1int)],
            Outcome::ScanFailed => seq![(Command::Error, 1int)],
            Outcome::Queued { children } => Seq::new(children, |i: int| (Command::Todo, 1int)).push(
                (Command::Scanned, 1int),
            ),
            Outcome::Done => seq![(Command::Done, 1int)],
            Outcome::ProcessFailed => seq![(Command::Error, 1int)],
        }
    }

    /// The books after an outcome.
    pub open spec fn step(self, o: Outcome) -> Ledger {
        let tally = self.tally.run(Self::events(o));
        match o {
            Outcome::Skipped | Outcome::ScanFailed => Ledger {
                waiting: self.waiting - 1,
                tally,
                ..self
            },
            Outcome::Queued { children } => Ledger {
                waiting: self.waiting - 1 + children,
                working: self.working + 1,
                tally,
            },
            Outcome::Done | Outcome::ProcessFailed => Ledger {
                working: self.working - 1,
                tally,
                ..self
            },
        }
    }

    /// Whether the outcomes can come about one after the other.
    pub open spec fn admits_all(self, run: Seq<Outcome>) -> bool
        decreases run.len(),
    {
        run.len() == 0 || (self.admits_all(run.drop_last()) && self.after(run.drop_last()).admits(
            run.last(),
        ))
    }

    /// The books after a run of outcomes.
    pub open spec fn after(self, run: Seq<Outcome>) -> Ledger
        decreases run.len(),
    {
        if run.len() == 0 {
            self
        } else {
            self.after(run.drop_last()).step(run.last())
        }
    }

    /// The books balance: every directory that was counted as to do waits
    /// for its scan, waits to be processed, or was counted as done, failed
    /// or skipped; and every directory that was counted as scanned waits to
    /// be processed, or was counted as done or failed.
    pub open spec fn balanced(self) -> bool {
        &&& self.waiting >= 0
        &&& self.working >= 0
        &&& self.tally.done >= 0
        &&& self.tally.error >= 0
        &&& self.tally.skipped >= 0
        &&& self.tally.todo == self.waiting + self.working + self.tally.done + self.tally.error
            + self.tally.skipped
        &&& self.tally.scanned >= self.working + self.tally.done
        &&& self.tally.scanned <= self.working + self.tally.done + self.tally.error
    }
}

/// What a run of `n` times `Todo` and one `Scanned` does to the counters.
proof fn lemma_queued_counts(t: Tally, n: nat)
    ensures
        ({
            let r = t.run(Seq::new(n, |i: int| (Command::Todo, 1int)).push((Command::Scanned, 1int)));
            &&& r.todo == t.todo + n
            &&& r.scanned == t.scanned + 1
            &&& r.done == t.done
            &&& r.error == t.error
            &&& r.skipped == t.skipped
        }),
{
    let todos = Seq::new(n, |i: int| (Command::Todo, 1int));
    lemma_todo_counts(t, n);
    let all = todos.push((Command::Scanned, 1int));
    assert(all.drop_last() =~= todos);
}

/// What a run of `n` times `Todo` does to the counters.
proof fn lemma_todo_counts(t: Tally, n: nat)
    ensures
        ({
            let r = t.run(Seq::new(n, |i: int| (Command::Todo, 1int)));
            &&& r.todo == t.todo + n
            &&& r.scanned == t.scanned
            &&& r.done == t.done
            &&& r.error == t.error
            &&& r.skipped == t.skipped
        }),
    decreases n,
{
    let todos = Seq::new(n, |i: int| (Command::Todo, 1int));
    if n > 0 {
        lemma_todo_counts(t, (n - 1) as nat);
        assert(todos.drop_last() =~= Seq::new((n - 1) as nat, |i: int| (Command::Todo, 1int)));
    }
}

/// One outcome leaves balanced books balanced.
pub proof fn lemma_step_keeps_balance(l: Ledger, o: Outcome)
    requires
        l.balanced(),
        l.admits(o),
    ensures
        l.step(o).balanced(),
{
    match o {
        Outcome::Queued { children } => {
            lemma_queued_counts(l.tally, children);
        },
        _ => {
            let e = Ledger::events(o);
            assert(e.drop_last() =~= Seq::<(Command, int)>::empty());
            assert(l.tally.run(e.drop_last()) == l.tally);
        },
    }
}

/// The books stay balanced over every run that starts with the source root
/// put up for scanning.
pub proof fn lemma_books_balance(run: Seq<Outcome>)
    requires
        Ledger::seeded().admits_all(run),
    ensures
        Ledger::seeded().after(run).balanced(),
    decreases run.len(),
{
    if run.len() > 0 {
        lemma_books_balance(run.drop_last());
        lemma_step_keeps_balance(Ledger::seeded().after(run.drop_last()), run.last());
    }
}

/// No more directories are counted as scanned than as to do.
pub proof fn lemma_scanned_within_todo(run: Seq<Outcome>)
    requires
        Ledger::seeded().admits_all(run),
    ensures
        Ledger::seeded().after(run).tally.todo >= Ledger::seeded().after(run).tally.scanned,
{
    lemma_books_balance(run);
}

/// When a run is over, every directory is accounted for: once no directory
/// waits for its scan and none waits to be processed, what was to do is
/// what was done, failed or skipped.
pub proof fn lemma_completion(run: Seq<Outcome>)
    requires
        Ledger::seeded().admits_all(run),
        Ledger::seeded().after(run).waiting == 0,
        Ledger::seeded().after(run).working == 0,
    ensures
        ({
            let t = Ledger::seeded().after(run).tally;
            t.todo == t.done + t.error + t.skipped
        }),
{
    lemma_books_balance(run);
}

/// When a run in which no directory was skipped is over, the statistics say
/// that processing is complete.
pub proof fn lemma_completion_is_seen(run: Seq<Outcome>)
    requires
        Ledger::seeded().admits_all(run),
        Ledger::seeded().after(run).waiting == 0,
        Ledger::seeded().after(run).working == 0,
        Ledger::seeded().after(run).tally.skipped == 0,
    ensures
        Ledger::seeded().after(run).tally.proc_complete(),
{
    lemma_books_balance(run);
}

/// A flavour that ranks no lower than all that are registered comes to
/// stand last.
pub proof fn lemma_slot_at_end(v: Seq<Flavour>, r: int)
    requires
        forall|k: int| 0 <= k < v.len() ==> rank(#[trigger] v[k]) <= r,
    ensures
        slot(v, r) == v.len(),
    decreases v.len(),
{
    if v.len() > 0 {
        let rest = v.drop_first();
        assert(rank(v[0]) <= r);
        assert forall|k: int| 0 <= k < rest.len() implies rank(#[trigger] rest[k]) <= r by {
            assert(rest[k] == v[k + 1]);
        }
        lemma_slot_at_end(rest, r);
    }
}

/// Scan job controller.
#[derive(Debug)]
pub struct Scanner {
    /// Number of parallel scan jobs.
    pub jobs: u8,
    /// Scan object.
    pub scan: Scan,
}

/// The registry that a scanner starts with: one template of each flavour,
/// the special ones first, then the build directories, then the
/// repositories, and the plain directory last.
pub open spec fn full_registry(v: Seq<Flavour>) -> bool {
    &&& v.len() == 10
    &&& v[0] is Yocto
    &&& v[1] is Sysroot
    &&& v[2] is Cmake
    &&& v[3] is Flutter
    &&& v[4] is Meson
    &&& v[5] is Ninja
    &&& v[6] is Cargo
    &&& v[7] is Git
    &&& v[8] is Svn
    &&& v[9] is Simple
}

impl Scanner {
    /// Create a new scanner and register all flavour templates, each with
    /// the options that the arguments hold for it.
    pub fn new(args: &getopts::Matches, src: &SyncPath, target: &SyncPath, cfg: Config) -> (s: Self)
        ensures
            s.jobs == cfg.jobs,
            s.scan.src_path@ == src@,
            s.scan.target_path@ == target@,
            s.scan.config@ == cfg@,
            full_registry(s.scan.flavours@),
            sorted(s.scan.flavours@),
            forall|k: int| 0 <= k < 10 ==> (#[trigger] s.scan.flavours@[k]).is_template_of(*args),
    {
        let jobs = cfg.jobs;
        let s0 = Scan::new(src, target, cfg);
        let f0 = Flavour::Yocto(Yocto::template(args));
        proof {
            lemma_slot_at_end(s0.flavours@, rank(f0));
        }
        let s1 = s0.register(f0);
        let f1 = Flavour::Sysroot(Sysroot::template(args));
        proof {
            lemma_slot_at_end(s1.flavours@, rank(f1));
        }
        let s2 = s1.register(f1);
        let f2 = Flavour::Cmake(Cmake::template(args));
        proof {
            lemma_slot_at_end(s2.flavours@, rank(f2));
        }
        let s3 = s2.register(f2);
        let f3 = Flavour::Flutter(Flutter::template(args));
        proof {
            lemma_slot_at_end(s3.flavours@, rank(f3));
        }
        let s4 = s3.register(f3);
        let f4 = Flavour::Meson(Meson::template(args));
        proof {
            lemma_slot_at_end(s4.flavours@, rank(f4));
        }
        let s5 = s4.register(f4);
        let f5 = Flavour::Ninja(Ninja::template(args));
        proof {
            lemma_slot_at_end(s5.flavours@, rank(f5));
        }
        let s6 = s5.register(f5);
        let f6 = Flavour::Cargo(Cargo::template(args));
        proof {
            lemma_slot_at_end(s6.flavours@, rank(f6));
        }
        let s7 = s6.register(f6);
        let f7 = Flavour::Git(Git::template(args));
        proof {
            lemma_slot_at_end(s7.flavours@, rank(f7));
        }
        let s8 = s7.register(f7);
        let f8 = Flavour::Svn(Svn::template(args));
        proof {
            lemma_slot_at_end(s8.flavours@, rank(f8));
        }
        let s9 = s8.register(f8);
        let f9 = Flavour::Simple(Simple::template(args));
        proof {
            lemma_slot_at_end(s9.flavours@, rank(f9));
        }
        let s10 = s9.register(f9);
        Scanner { jobs, scan: s10 }
    }

    /// What starts a run: one more directory to do, and the source root to
    /// be scanned, with no flavour carried.
    pub fn seed(&self) -> (r: (Transport, Child))
        ensures
            r.0@ == Transport::count_of(Command::Todo),
            r.1@ == (ChildView { path: self.scan.src_path@, carry: None }),
    {
        (self.scan.todo_one(), Child { path: self.scan.src_path.clone(), carry: None })
    }
}

} // verus!
