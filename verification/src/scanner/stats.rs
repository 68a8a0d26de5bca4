//! Statistics of a run: the counters, the two completion flags, and the
//! events that move them.

use crate::dir::Category;
use vstd::prelude::*;

verus! {

/// Command type of a statistics event.
#[derive(Debug, PartialEq, Eq, Clone, Copy, Structural)]
pub enum Command {
    /// Modify the `todo` counter.
    Todo,
    /// Modify the `scanned` counter.
    Scanned,
    /// Modify the `done` counter.
    Done,
    /// Modify the `skipped` counter.
    Skipped,
    /// Modify the `error` counter.
    Error,
    /// Signals a non-fatal runtime error.
    Runtime,
    /// Signals an entry for the log file.
    Log,
    /// Signals that scanning is complete.
    ScanComplete,
    /// Signals that processing is complete.
    Complete,
    /// Signals job details for a job id.
    Job,
}

/// Detailed command info, used for `Runtime`, `Log` and `Job` events.
#[derive(Debug, PartialEq, Eq)]
pub struct Info {
    /// Flavour category.
    pub category: Category,
    /// Flavour name.
    pub name: String,
    /// Description of the incidence.
    pub desc: String,
}

/// What an `Info` says.
pub struct InfoView {
    pub category: Category,
    pub name: Seq<char>,
    pub desc: Seq<char>,
}

impl View for Info {
    type V = InfoView;

    open spec fn view(&self) -> InfoView {
        InfoView { category: self.category, name: self.name@, desc: self.desc@ }
    }
}

impl Clone for Info {
    fn clone(&self) -> (r: Self)
        ensures
            r@ == self@,
    {
        Info { category: self.category, name: self.name.clone(), desc: self.desc.clone() }
    }
}

/// A statistics event.
#[derive(Debug, Clone, PartialEq, Eq)]
pub struct Transport {
    /// The command.
    pub cmd: Command,
    /// Value, most often used for counts.
    pub val: i64,
    /// Optional extra data.
    pub info: Option<Info>,
}

/// What a `Transport` says.
pub struct TransportView {
    pub cmd: Command,
    pub val: int,
    pub info: Option<InfoView>,
}

impl View for Transport {
    type V = TransportView;

    open spec fn view(&self) -> TransportView {
        TransportView {
            cmd: self.cmd,
            val: self.val as int,
            info: match self.info {
                Some(i) => Some(i@),
                None => None,
            },
        }
    }
}

impl Transport {
    /// The event that moves the counter of `cmd` by one.
    pub open spec fn count_of(cmd: Command) -> TransportView {
        TransportView { cmd, val: 1, info: None }
    }

    /// The event that carries `info` under `cmd`, with the value `val`.
    pub open spec fn note_of(cmd: Command, val: int, info: Option<InfoView>) -> TransportView {
        TransportView { cmd, val, info }
    }

    /// The event that moves the counter of `cmd` by one.
    pub fn count(cmd: Command) -> (t: Transport)
        ensures
            t@ == Transport::count_of(cmd),
    {
        Transport { cmd, val: 1, info: None }
    }

    /// The event that reports `info` as a runtime error.
    pub fn runtime(info: Info) -> (t: Transport)
        ensures
            t@ == Transport::note_of(Command::Runtime, 0, Some(info@)),
    {
        Transport { cmd: Command::Runtime, val: 0, info: Some(info) }
    }

    /// The event that hands `info` to the log file.
    pub fn log(info: Info) -> (t: Transport)
        ensures
            t@ == Transport::note_of(Command::Log, 0, Some(info@)),
    {
        Transport { cmd: Command::Log, val: 0, info: Some(info) }
    }

    /// The event that tells what the worker `job` is busy with; `None` when
    /// it is idle.
    pub fn job(job: u8, info: Option<Info>) -> (t: Transport)
        ensures
            t@ == Transport::note_of(
                Command::Job,
                job as int,
                match info {
                    Some(i) => Some(i@),
                    None => None,
                },
            ),
    {
        Transport { cmd: Command::Job, val: job as i64, info }
    }

    /// The event by which the statistics announce `cmd`.
    pub fn signal(cmd: Command) -> (t: Transport)
        ensures
            t@ == Transport::note_of(cmd, 0, None),
    {
        Transport { cmd, val: 0, info: None }
    }
}

/// The counters and flags of a run, as numbers without bounds.
pub struct Tally {
    pub todo: int,
    pub scanned: int,
    pub done: int,
    pub skipped: int,
    pub error: int,
    pub scan_done: bool,
    pub proc_done: bool,
}

impl Tally {
    /// Every directory that is to be scanned has been scanned or has failed.
    pub open spec fn scan_complete(self) -> bool {
        self.todo == self.scanned + self.error
    }

    /// Every directory that is to be processed has been processed or has
    /// failed.
    pub open spec fn proc_complete(self) -> bool {
        self.todo == self.done + self.error
    }

    /// The counters after an event: the counter that `cmd` names moves by
    /// `val`, and no other.
    pub open spec fn counted(self, cmd: Command, val: int) -> Tally {
        match cmd {
            Command::Todo => Tally { todo: self.todo + val, ..self },
            Command::Scanned => Tally { scanned: self.scanned + val, ..self },
            Command::Done => Tally { done: self.done + val, ..self },
            Command::Skipped => Tally { skipped: self.skipped + val, ..self },
            Command::Error => Tally { error: self.error + val, ..self },
            _ => self,
        }
    }

    /// The state after an event: the counters move, and a flag whose
    /// predicate holds afterwards is set. A flag that is set stays set.
    pub open spec fn step(self, cmd: Command, val: int) -> Tally {
        let c = self.counted(cmd, val);
        Tally {
            scan_done: self.scan_done || c.scan_complete(),
            proc_done: self.proc_done || c.proc_complete(),
            ..c
        }
    }

    /// What the statistics announce on an event: the completion of the scan
    /// when that flag rises, then the completion of the run when that flag
    /// rises.
    pub open spec fn announced(self, cmd: Command, val: int) -> Seq<Command> {
        let next = self.step(cmd, val);
        let scan = if !self.scan_done && next.scan_done {
            seq![Command::ScanComplete]
        } else {
            Seq::<Command>::empty()
        };
        let run = if !self.proc_done && next.proc_done {
            seq![Command::Complete]
        } else {
            Seq::<Command>::empty()
        };
        scan + run
    }

    /// The state after a sequence of events, each a command and its value.
    pub open spec fn run(self, events: Seq<(Command, int)>) -> Tally
        decreases events.len(),
    {
        if events.len() == 0 {
            self
        } else {
            self.run(events.drop_last()).step(events.last().0, events.last().1)
        }
    }

    /// The share of the work that is through, in percent.
    pub open spec fn progress(self) -> int {
        let through = self.done + self.error;
        if self.todo <= 0 || through <= 0 {
            0
        } else if through >= self.todo {
            100
        } else {
            100 * through / self.todo
        }
    }
}

/// The flags never fall: whatever events arrive, a flag that was set is set
/// afterwards.
pub proof fn lemma_flags_monotonic(start: Tally, events: Seq<(Command, int)>)
    ensures
        start.scan_done ==> start.run(events).scan_done,
        start.proc_done ==> start.run(events).proc_done,
    decreases events.len(),
{
    if events.len() > 0 {
        lemma_flags_monotonic(start, events.drop_last());
    }
}

/// A flag that is set at some point of a run is set at every later point.
pub proof fn lemma_flags_stay(start: Tally, earlier: Seq<(Command, int)>, later: Seq<(Command, int)>)
    ensures
        start.run(earlier).scan_done ==> start.run(earlier + later).scan_done,
        start.run(earlier).proc_done ==> start.run(earlier + later).proc_done,
    decreases later.len(),
{
    if later.len() == 0 {
        assert(earlier + later =~= earlier);
    } else {
        lemma_flags_stay(start, earlier, later.drop_last());
        assert((earlier + later).drop_last() =~= earlier + later.drop_last());
        assert((earlier + later).last() == later.last());
    }
}

/// Statistics.
#[derive(Debug)]
pub struct Stats {
    /// Directories that need to be scanned.
    pub todo: i64,
    /// Directories that need to be processed.
    pub scanned: i64,
    /// Directories that have been processed.
    pub done: i64,
    /// Directories that have been skipped.
    pub skipped: i64,
    /// Directories that have not been processed due to errors.
    pub error: i64,
    /// Set if the scan is complete.
    pub scan_done: bool,
    /// Set if processing is complete.
    pub proc_done: bool,
    /// What the statistics have announced and nobody has taken yet.
    pub announced: Vec<Command>,
}

impl View for Stats {
    type V = Tally;

    open spec fn view(&self) -> Tally {
        Tally {
            todo: self.todo as int,
            scanned: self.scanned as int,
            done: self.done as int,
            skipped: self.skipped as int,
            error: self.error as int,
            scan_done: self.scan_done,
            proc_done: self.proc_done,
        }
    }
}

/// Whether `n` is a value of a counter.
pub open spec fn in_range(n: int) -> bool {
    i64::MIN <= n <= i64::MAX
}

impl Default for Stats {
    fn default() -> (s: Self)
        ensures
            s@ == (Tally {
                todo: 0,
                scanned: 0,
                done: 0,
                skipped: 0,
                error: 0,
                scan_done: false,
                proc_done: false,
            }),
            s.announced@.len() == 0,
    {
        Stats {
            todo: 0,
            scanned: 0,
            done: 0,
            skipped: 0,
            error: 0,
            scan_done: false,
            proc_done: false,
            announced: Vec::new(),
        }
    }
}

impl Stats {
    /// Whether the counters can take the event: the counter that it moves
    /// stays a 64-bit number.
    pub open spec fn can_take(self, cmd: Command, val: int) -> bool {
        let c = self@.counted(cmd, val);
        in_range(c.todo) && in_range(c.scanned) && in_range(c.done) && in_range(c.skipped)
            && in_range(c.error)
    }

    /// Whether the counters can take `t`.
    pub fn accepts(&self, t: &Transport) -> (b: bool)
        ensures
            b == self.can_take(t.cmd, t.val as int),
    {
        match t.cmd {
            Command::Todo => self.todo.checked_add(t.val).is_some(),
            Command::Scanned => self.scanned.checked_add(t.val).is_some(),
            Command::Done => self.done.checked_add(t.val).is_some(),
            Command::Skipped => self.skipped.checked_add(t.val).is_some(),
            Command::Error => self.error.checked_add(t.val).is_some(),
            _ => true,
        }
    }

    /// Takes one event. The counter that the event names moves by its
    /// value; then each completion flag that is not yet set and whose
    /// predicate holds is set and announced. Returns the event's command.
    pub fn process(&mut self, t: &Transport) -> (c: Command)
        requires
            old(self).can_take(t.cmd, t.val as int),
        ensures
            c == t.cmd,
            final(self)@ == old(self)@.step(t.cmd, t.val as int),
            final(self).announced@ == old(self).announced@ + old(self)@.announced(
                t.cmd,
                t.val as int,
            ),
            old(self).scan_done ==> final(self).scan_done,
            old(self).proc_done ==> final(self).proc_done,
    {
        match t.cmd {
            Command::Todo => self.todo = self.todo + t.val,
            Command::Scanned => self.scanned = self.scanned + t.val,
            Command::Done => self.done = self.done + t.val,
            Command::Skipped => self.skipped = self.skipped + t.val,
            Command::Error => self.error = self.error + t.val,
            _ => (),
        }
        let ghost before = self.announced@;
        if self.scan_complete() && !self.scan_done {
            self.scan_done = true;
            self.announced.push(Command::ScanComplete);
        }
        if self.proc_complete() && !self.proc_done {
            self.proc_done = true;
            self.announced.push(Command::Complete);
        }
        assert(self.announced@ =~= before + old(self)@.announced(t.cmd, t.val as int));
        t.cmd
    }

    /// Hands out what was announced since the last call, oldest first.
    pub fn take_announced(&mut self) -> (out: Vec<Command>)
        ensures
            out@ == old(self).announced@,
            final(self).announced@.len() == 0,
            final(self)@ == old(self)@,
    {
        let mut out: Vec<Command> = Vec::new();
        std::mem::swap(&mut out, &mut self.announced);
        out
    }

    /// The share of the work that is through, in percent: a hundred times
    /// what is done or has failed, by what is to do. Nothing to do counts as
    /// nothing through, and the share is never above a hundred.
    pub fn progress(&self) -> (p: u16)
        ensures
            p == self@.progress(),
            p <= 100,
    {
        let through: i128 = self.done as i128 + self.error as i128;
        let todo: i128 = self.todo as i128;
        if todo <= 0 || through <= 0 {
            0
        } else if through >= todo {
            100
        } else {
            let ghost a: int = through as int;
            let ghost b: int = todo as int;
            assert(0 <= 100 * a / b < 100) by (nonlinear_arith)
                requires
                    0 < a < b,
            ;
            (100 * through / todo) as u16
        }
    }

    fn scan_complete(&self) -> (b: bool)
        ensures
            b == self@.scan_complete(),
    {
        self.todo as i128 == self.scanned as i128 + self.error as i128
    }

    fn proc_complete(&self) -> (b: bool)
        ensures
            b == self@.proc_complete(),
    {
        self.todo as i128 == self.done as i128 + self.error as i128
    }
}

} // verus!
