//! What is decided for one directory: which flavour it has, whether it is
//! skipped, where the scan goes on, and how it is processed.

use crate::dir::{Dir, DirView, Flavour, Found, Prepared, SyncMethod};
use crate::path::{paths, PathView, SyncPath};
use crate::scanner::stats::{Command, Info, InfoView, Transport};
use crate::text::same;
use crate::utils::{
    entries, filter_dir_entries, filtered, listed_dirs, listed_files, lemma_tasks_push, must,
    save_dirs_and_files, stages, tasks, EntryView, FsOp, FsOpView, OnFail, RawEntry, Stage,
    SyncError, Task, TaskView,
};
use crate::Config;
use vstd::prelude::*;

verus! {

/// The rank of the category of a flavour.
pub open spec fn rank(f: Flavour) -> int {
    f.category_of().rank_of()
}

/// Whether the flavours stand in ascending order of their categories.
pub open spec fn sorted(v: Seq<Flavour>) -> bool {
    forall|i: int, j: int| 0 <= i < j < v.len() ==> rank(#[trigger] v[i]) <= rank(#[trigger] v[j])
}

/// The place at which a flavour of rank `r` is registered: behind every
/// flavour that was registered before it and ranks no higher.
pub open spec fn slot(v: Seq<Flavour>, r: int) -> int
    decreases v.len(),
{
    if v.len() == 0 {
        0
    } else if rank(v[0]) > r {
        0
    } else {
        1 + slot(v.drop_first(), r)
    }
}

/// `slot` lies within the sequence; what stands before it ranks no higher
/// than `r`, and what stands at it ranks higher.
pub proof fn lemma_slot(v: Seq<Flavour>, r: int)
    ensures
        0 <= slot(v, r) <= v.len(),
        forall|k: int| 0 <= k < slot(v, r) ==> rank(#[trigger] v[k]) <= r,
        slot(v, r) < v.len() ==> rank(v[slot(v, r)]) > r,
    decreases v.len(),
{
    if v.len() > 0 && rank(v[0]) <= r {
        let rest = v.drop_first();
        lemma_slot(rest, r);
        assert forall|k: int| 0 <= k < slot(v, r) implies rank(#[trigger] v[k]) <= r by {
            if k > 0 {
                assert(v[k] == rest[k - 1]);
            }
        }
        if slot(v, r) < v.len() {
            assert(v[slot(v, r)] == rest[slot(rest, r)]);
        }
    }
}

/// Whether a flavour of the registry takes the directory: by its name
/// where a flavour was carried down, by its probe where none was.
pub open spec fn takes(f: Flavour, d: DirView, carried: Option<Seq<char>>) -> bool {
    match carried {
        Some(n) => f.name_of() == n,
        None => f.matches(d),
    }
}

/// The place of the first flavour that takes the directory; the length of
/// the registry if none does.
pub open spec fn choice(v: Seq<Flavour>, d: DirView, carried: Option<Seq<char>>) -> int
    decreases v.len(),
{
    if v.len() == 0 {
        0
    } else if takes(v[0], d, carried) {
        0
    } else {
        1 + choice(v.drop_first(), d, carried)
    }
}

/// `choice` lies within the registry; the flavour at it takes the
/// directory, and none before it does.
pub proof fn lemma_choice(v: Seq<Flavour>, d: DirView, carried: Option<Seq<char>>)
    ensures
        0 <= choice(v, d, carried) <= v.len(),
        choice(v, d, carried) < v.len() ==> takes(v[choice(v, d, carried)], d, carried),
        forall|k: int| 0 <= k < choice(v, d, carried) ==> !takes(#[trigger] v[k], d, carried),
    decreases v.len(),
{
    if v.len() > 0 && !takes(v[0], d, carried) {
        let rest = v.drop_first();
        lemma_choice(rest, d, carried);
        assert forall|k: int| 0 <= k < choice(v, d, carried) implies !takes(
            #[trigger] v[k],
            d,
            carried,
        ) by {
            if k > 0 {
                assert(v[k] == rest[k - 1]);
            }
        }
        if choice(v, d, carried) < v.len() {
            assert(v[choice(v, d, carried)] == rest[choice(rest, d, carried)]);
        }
    }
}

/// Classification goes by precedence: in a registry that is in order, the
/// flavour that is chosen for a directory ranks no higher than any other
/// flavour that matches it. So a directory that is several things at once
/// is taken for the most special of them.
pub proof fn lemma_classification_precedence(v: Seq<Flavour>, d: DirView, j: int)
    requires
        sorted(v),
        0 <= j < v.len(),
        v[j].matches(d),
    ensures
        choice(v, d, None) <= j,
        v[choice(v, d, None)].matches(d),
        rank(v[choice(v, d, None)]) <= rank(v[j]),
{
    lemma_choice(v, d, None);
    let k = choice(v, d, None);
    if k > j {
        assert(!takes(v[j], d, None));
    }
}

/// A directory that is to be scanned, and the flavour that it inherits.
#[derive(Debug, Clone, PartialEq, Eq)]
pub struct Child {
    /// The path of the directory.
    pub path: SyncPath,
    /// The name of the flavour that the directory keeps, if it keeps one.
    pub carry: Option<String>,
}

/// What a `Child` says.
pub struct ChildView {
    pub path: PathView,
    pub carry: Option<Seq<char>>,
}

impl View for Child {
    type V = ChildView;

    open spec fn view(&self) -> ChildView {
        ChildView {
            path: self.path@,
            carry: match self.carry {
                Some(n) => Some(n@),
                None => None,
            },
        }
    }
}

/// The views of a sequence of children.
pub open spec fn children(v: Seq<Child>) -> Seq<ChildView> {
    v.map_values(|c: Child| c@)
}

/// A directory that is ready to be processed: its flavour, bound to it,
/// and the method that its preparation settled.
#[derive(Debug)]
pub struct Work {
    pub flavour: Flavour,
    pub method: SyncMethod,
}

impl Work {
    /// The method by which the directory is synchronized.
    pub fn method(&self) -> (m: SyncMethod)
        ensures
            m == self.method,
    {
        self.method
    }
}

/// What the scan of a directory came to.
#[derive(Debug)]
pub enum Scanned {
    /// The directory is skipped. `log` tells so; then `plan` is carried
    /// out, and if it went well the directory counts as skipped.
    Skip { log: Transport, plan: Vec<Task> },
    /// The directory has its flavour and is to be prepared next.
    Bound(Flavour),
}

/// What follows the preparation of a directory.
#[derive(Debug)]
pub struct Queued {
    /// What is to be done with the target, in order.
    pub plan: Vec<Task>,
    /// The directories that are to be scanned next.
    pub children: Vec<Child>,
    /// What goes to the process channel.
    pub work: Work,
    /// The counters that move, in order: `Todo` for each child, then
    /// `Scanned`.
    pub events: Vec<Command>,
}

/// How a directory is processed.
#[derive(Debug)]
pub struct Processing {
    /// Tells what the worker is busy with.
    pub job: Transport,
    /// The stages to carry out.
    pub stages: Vec<Stage>,
}

/// Housekeeping for directory scan and processing; this object is shared
/// among all scan jobs.
#[derive(Debug)]
pub struct Scan {
    /// The source path for the backup.
    pub src_path: SyncPath,
    /// The target path for the backup.
    pub target_path: SyncPath,
    /// The global configuration.
    pub config: Config,
    /// List of supported flavours, in the order in which they are asked.
    pub flavours: Vec<Flavour>,
}

/// The removals of the extraneous subdirectories.
pub open spec fn extraneous_removals(ex_dirs: Seq<PathView>) -> Seq<TaskView> {
    Seq::new(ex_dirs.len(), |i: int| must(FsOpView::RemoveDirAll(ex_dirs[i])))
}

/// The directories below, each with the flavour that it keeps.
pub open spec fn heirs(dirs: Seq<PathView>, carry: Option<Seq<char>>) -> Seq<ChildView> {
    Seq::new(dirs.len(), |i: int| ChildView { path: dirs[i], carry })
}

/// What the counters are told when a directory with `n` subdirectories to
/// descend into is through its scan.
pub open spec fn scan_events(n: nat) -> Seq<Command> {
    Seq::new(n, |i: int| Command::Todo).push(Command::Scanned)
}

impl Scan {
    /// Create a new scan object, with no flavour registered.
    pub fn new(src: &SyncPath, target: &SyncPath, cfg: Config) -> (s: Self)
        ensures
            s.src_path@ == src@,
            s.target_path@ == target@,
            s.config@ == cfg@,
            s.flavours@.len() == 0,
    {
        Scan {
            config: cfg,
            src_path: src.clone(),
            target_path: target.clone(),
            flavours: Vec::new(),
        }
    }

    /// Register the template object of a flavour. The registry stays in
    /// ascending order of categories, and among flavours of one category
    /// the one that was registered first stays first.
    pub fn register(self, c: Flavour) -> (s: Self)
        ensures
            s.src_path == self.src_path,
            s.target_path == self.target_path,
            s.config == self.config,
            s.flavours@ == self.flavours@.insert(slot(self.flavours@, rank(c)), c),
            sorted(self.flavours@) ==> sorted(s.flavours@),
    {
        let mut s = self;
        let ghost old_v = s.flavours@;
        let r = c.category().rank();
        let mut i: usize = 0;
        assert(old_v.subrange(0, old_v.len() as int) =~= old_v);
        while i < s.flavours.len() && s.flavours[i].category().rank() <= r
            invariant
                i <= s.flavours.len(),
                s.flavours@ == old_v,
                r == rank(c),
                slot(old_v, r as int) == i + slot(old_v.subrange(i as int, old_v.len() as int), r as int),
            decreases s.flavours.len() - i,
        {
            let ghost rest = old_v.subrange(i as int, old_v.len() as int);
            assert(rest[0] == old_v[i as int]);
            assert(rest.drop_first() =~= old_v.subrange(i + 1, old_v.len() as int));
            i = i + 1;
        }
        proof {
            let rest = old_v.subrange(i as int, old_v.len() as int);
            if i < old_v.len() {
                assert(rest[0] == old_v[i as int]);
            }
            assert(slot(old_v, r as int) == i);
            lemma_slot(old_v, r as int);
        }
        s.flavours.insert(i, c);
        proof {
            if sorted(old_v) {
                let nv = s.flavours@;
                assert forall|a: int, b: int| 0 <= a < b < nv.len() implies rank(#[trigger] nv[a])
                    <= rank(#[trigger] nv[b]) by {
                    let a0 = if a < i { a } else { a - 1 };
                    let b0 = if b < i { b } else { b - 1 };
                    if a != i {
                        assert(nv[a] == old_v[a0]);
                    }
                    if b != i {
                        assert(nv[b] == old_v[b0]);
                    }
                    if a == i {
                        assert(b0 >= i);
                        assert(rank(old_v[i as int]) > r);
                        if b0 > i {
                            assert(rank(old_v[i as int]) <= rank(old_v[b0]));
                        }
                    } else if b == i {
                    } else {
                        if a0 < b0 {
                            assert(rank(old_v[a0]) <= rank(old_v[b0]));
                        }
                    }
                }
            }
        }
        s
    }

    /// Finds the flavour of a directory: the first of the registry that
    /// bears the carried name, or, where no name was carried, the first
    /// whose probe matches.
    pub fn classify(&self, d: &Dir, carried: &Option<String>) -> (r: Option<Flavour>)
        ensures
            r.is_some() == (choice(self.flavours@, d@, carried_view(*carried))
                < self.flavours@.len()),
            r matches Some(f) ==> {
                let t = self.flavours@[choice(self.flavours@, d@, carried_view(*carried))];
                f.built_from(t) && f.policies_of(t) && (f matches Flavour::Svn(s) ==> s.probed
                    == carried.is_none())
            },
    {
        let ghost v = self.flavours@;
        let ghost cv = carried_view(*carried);
        let mut i: usize = 0;
        assert(v.subrange(0, v.len() as int) =~= v);
        while i < self.flavours.len()
            invariant
                i <= self.flavours.len(),
                v == self.flavours@,
                cv == carried_view(*carried),
                choice(v, d@, cv) == i + choice(v.subrange(i as int, v.len() as int), d@, cv),
            decreases self.flavours.len() - i,
        {
            let ghost rest = v.subrange(i as int, v.len() as int);
            proof {
                assert(rest[0] == v[i as int]);
                assert(rest.drop_first() =~= v.subrange(i + 1, v.len() as int));
            }
            let f = &self.flavours[i];
            match carried {
                Some(n) => {
                    if same(n.as_str(), f.name()) {
                        return Some(f.build());
                    }
                },
                None => {
                    match f.probe(d) {
                        Some(b) => {
                            return Some(b);
                        },
                        None => {},
                    }
                },
            }
            i = i + 1;
        }
        None
    }

    /// The target of the directory `p`: the place below the target root
    /// that `p` has below the source root.
    pub open spec fn target_of(self, p: PathView) -> PathView {
        self.target_path@.join(p.strip_prefix(self.src_path@))
    }

    /// Computes the target of the directory `p`, if `p` lies below the
    /// source root.
    pub fn target_for(&self, p: &SyncPath) -> (r: Option<SyncPath>)
        ensures
            r.is_some() == p@.starts_with(self.src_path@),
            r matches Some(t) ==> t@ == self.target_of(p@),
    {
        match p.strip_prefix(&self.src_path) {
            Some(rp) => Some(self.target_path.join(&rp)),
            None => None,
        }
    }

    /// The directory job for `p`, as it is gathered from what the disk
    /// holds. The subdirectories and files of the source pass the owner
    /// test and the ignore list. With `delete`, and where the target could
    /// be listed, the extraneous entries are what the target holds and the
    /// source does not.
    pub open spec fn gathered(
        self,
        p: PathView,
        job: u8,
        listing: Seq<EntryView>,
        target: Option<Seq<EntryView>>,
    ) -> DirView {
        let c = self.config@;
        let t = self.target_of(p);
        let dirs = listed_dirs(listing, p, Some(c.ignore), c.owned);
        let files = listed_files(listing, Some(c.ignore), c.owned);
        let wanted = c.delete && target is Some;
        DirView {
            src_path: p,
            target_path: t,
            dirs,
            files,
            ex_dirs: if wanted {
                filtered(dirs, listed_dirs(target.unwrap(), t, None, false))
            } else {
                Seq::<PathView>::empty()
            },
            ex_files: if wanted {
                filtered(files, listed_files(target.unwrap(), None, false))
            } else {
                Seq::<PathView>::empty()
            },
            job,
            config: c,
        }
    }

    /// What a skipped directory leaves to do: with `delete`, its target is
    /// removed if it is there.
    pub open spec fn skip_plan(self, p: PathView) -> Seq<TaskView> {
        if self.config@.delete {
            seq![must(FsOpView::ClearDir(self.target_of(p)))]
        } else {
            Seq::<TaskView>::empty()
        }
    }

    /// Gathers the directory job for `p`.
    pub fn gather(
        &self,
        p: &SyncPath,
        job: u8,
        listing: &Vec<RawEntry>,
        target: Option<&Vec<RawEntry>>,
    ) -> (r: Option<Dir>)
        ensures
            r.is_some() == p@.starts_with(self.src_path@),
            r matches Some(d) ==> d@ == self.gathered(
                p@,
                job,
                entries(listing@),
                target_view(target),
            ),
    {
        let t = match self.target_for(p) {
            Some(t) => t,
            None => {
                return None;
            },
        };
        let mut d = Dir::new(job, self.config.clone()).set_src_path(p.clone()).set_target_path(t);
        let mut dirs: Vec<SyncPath> = Vec::new();
        let mut files: Vec<SyncPath> = Vec::new();
        assert(paths(dirs@) =~= Seq::<PathView>::empty());
        assert(paths(files@) =~= Seq::<PathView>::empty());
        save_dirs_and_files(
            p,
            &mut dirs,
            &mut files,
            listing,
            Some(&self.config.ignore),
            self.config.owned,
        );
        let ghost c = self.config@;
        assert(paths(dirs@) =~= listed_dirs(entries(listing@), p@, Some(c.ignore), c.owned));
        assert(paths(files@) =~= listed_files(entries(listing@), Some(c.ignore), c.owned));
        let mut ex_dirs: Vec<SyncPath> = Vec::new();
        let mut ex_files: Vec<SyncPath> = Vec::new();
        assert(paths(ex_dirs@) =~= Seq::<PathView>::empty());
        assert(paths(ex_files@) =~= Seq::<PathView>::empty());
        if self.config.delete {
            match target {
                Some(tl) => {
                    save_dirs_and_files(&d.target_path, &mut ex_dirs, &mut ex_files, tl, None, false);
                    assert(paths(ex_dirs@) =~= listed_dirs(
                        entries(tl@),
                        d.target_path@,
                        None,
                        false,
                    ));
                    assert(paths(ex_files@) =~= listed_files(entries(tl@), None, false));
                    filter_dir_entries(&dirs, &mut ex_dirs);
                    filter_dir_entries(&files, &mut ex_files);
                },
                None => {},
            }
        }
        d.dirs = dirs;
        d.files = files;
        d.ex_dirs = ex_dirs;
        d.ex_files = ex_files;
        Some(d)
    }

    /// Scans the directory `p`. `listing` is what `p` holds; `target` is
    /// what its target holds, where that could be read. The directory is
    /// gathered and classified; a directory of a flavour that skips is
    /// skipped, any other is bound to its flavour.
    pub fn scan(
        &self,
        p: &SyncPath,
        f_name: Option<String>,
        job: u8,
        listing: &Vec<RawEntry>,
        target: Option<&Vec<RawEntry>>,
    ) -> (r: Result<Scanned, SyncError>)
        ensures
            r.is_ok() == self.classifies(p@, job, entries(listing@), target_view(target), carried_view(f_name)),
            r matches Ok(s) ==> {
                let d = self.gathered(p@, job, entries(listing@), target_view(target));
                let t = self.flavours@[choice(self.flavours@, d, carried_view(f_name))];
                match s {
                    Scanned::Skip { log, plan } => t.skips() && log@ == Transport::note_of(
                        Command::Log,
                        0,
                        Some(skip_note(t, p@)),
                    ) && tasks(plan@) == self.skip_plan(p@),
                    Scanned::Bound(f) => !t.skips() && f.policies_of(t) && f.options_of(t) && (
                    f.dir_of() matches Some(
                        b,
                    ) && b@ == t.bound_dir(d)) && (f matches Flavour::Svn(s) ==> s.probed
                        == f_name.is_none()),
                }
            },
            r matches Err(e) ==> e matches SyncError::Failed(m) && m@ == (if p@.starts_with(
                self.src_path@,
            ) {
                "No flavour takes the directory"@
            } else {
                "Directory lies outside of the source"@
            }),
    {
        let d = match self.gather(p, job, listing, target) {
            Some(d) => d,
            None => {
                return Err(SyncError::failed("Directory lies outside of the source"));
            },
        };
        let ghost dv = d@;
        let ghost t = self.flavours@[choice(self.flavours@, dv, carried_view(f_name))];
        let mut flav = match self.classify(&d, &f_name) {
            Some(f) => f,
            None => {
                return Err(SyncError::failed("No flavour takes the directory"));
            },
        };
        if flav.skip() {
            let mut desc = "Skipped ".to_string();
            desc.append(p.render().as_str());
            let log = Transport::log(
                Info { category: flav.category(), name: flav.name().to_string(), desc },
            );
            let mut plan: Vec<Task> = Vec::new();
            if self.config.delete {
                plan.push(Task { op: FsOp::ClearDir(d.target_path.clone()), on_fail: OnFail::Abort });
            }
            assert(tasks(plan@) =~= self.skip_plan(p@));
            return Ok(Scanned::Skip { log, plan });
        }
        let ghost before = flav;
        flav.set_dir(d);
        assert(before.bound_dir(dv) == t.bound_dir(dv)) by {
            assert(before.built_from(t));
        }
        Ok(Scanned::Bound(flav))
    }

    /// Whether the directory `p` can be classified: it lies below the
    /// source, and a flavour of the registry takes it.
    pub open spec fn classifies(
        self,
        p: PathView,
        job: u8,
        listing: Seq<EntryView>,
        target: Option<Seq<EntryView>>,
        carried: Option<Seq<char>>,
    ) -> bool {
        p.starts_with(self.src_path@) && choice(
            self.flavours@,
            self.gathered(p, job, listing, target),
            carried,
        ) < self.flavours@.len()
    }

    /// Settles what follows the preparation of a directory. With a flavour
    /// that recurses, the extraneous subdirectories leave the target, and
    /// every subdirectory is to be scanned, under the name of the flavour
    /// if the flavour stays. The directory itself goes on to be processed.
    pub fn enqueue(&self, flav: Flavour, prepared: Prepared) -> (r: Result<Queued, SyncError>)
        ensures
            r.is_ok() == flav.dir_of().is_some(),
            r matches Ok(q) ==> {
                let d = flav.dir_of().unwrap()@;
                &&& q.work.flavour == flav
                &&& q.work.method == prepared.method
                &&& tasks(q.plan@) == tasks(prepared.plan@) + (if flav.recurses() {
                    extraneous_removals(d.ex_dirs)
                } else {
                    Seq::<TaskView>::empty()
                })
                &&& children(q.children@) == (if flav.recurses() {
                    heirs(
                        d.dirs,
                        if flav.stays() {
                            Some(flav.name_of())
                        } else {
                            None
                        },
                    )
                } else {
                    Seq::<ChildView>::empty()
                })
                &&& q.events@ == scan_events(q.children@.len())
            },
            r matches Err(e) ==> e matches SyncError::Failed(m) && m@
                == "Cannot synchronize without directory"@,
    {
        let mut plan = prepared.plan;
        let mut kids: Vec<Child> = Vec::new();
        let mut events: Vec<Command> = Vec::new();
        let ghost first = tasks(plan@);
        if flav.dir().is_none() {
            return Err(SyncError::failed("Cannot synchronize without directory"));
        }
        assert(first + Seq::<TaskView>::empty() =~= first);
        assert(children(kids@) =~= Seq::<ChildView>::empty());
        if flav.recurse() {
            let d = flav.dir().as_ref().unwrap();
            let ghost dv = d@;
            let ghost all = extraneous_removals(dv.ex_dirs);
            let mut i: usize = 0;
            assert(all.subrange(0, 0) =~= Seq::<TaskView>::empty());
            while i < d.ex_dirs.len()
                invariant
                    i <= d.ex_dirs.len(),
                    dv == d@,
                    all == extraneous_removals(dv.ex_dirs),
                    tasks(plan@) == first + all.subrange(0, i as int),
                decreases d.ex_dirs.len() - i,
            {
                let t = Task { op: FsOp::RemoveDirAll(d.ex_dirs[i].clone()), on_fail: OnFail::Abort };
                proof {
                    lemma_tasks_push(plan@, t);
                    assert(dv.ex_dirs[i as int] == d.ex_dirs@[i as int]@);
                    assert((first + all.subrange(0, i as int)).push(t@) =~= first + all.subrange(
                        0,
                        i + 1,
                    ));
                }
                plan.push(t);
                i = i + 1;
            }
            assert(all.subrange(0, i as int) =~= all);
            let stay = flav.stay();
            let ghost carry: Option<Seq<char>> = if stay {
                Some(flav.name_of())
            } else {
                None
            };
            let mut j: usize = 0;
            while j < d.dirs.len()
                invariant
                    j <= d.dirs.len(),
                    dv == d@,
                    stay == flav.stays(),
                    carry == (if stay {
                        Some(flav.name_of())
                    } else {
                        None::<Seq<char>>
                    }),
                    kids@.len() == j,
                    events@ == Seq::new(j as nat, |k: int| Command::Todo),
                    forall|k: int| 0 <= k < j ==> (#[trigger] kids@[k])@ == (ChildView {
                        path: dv.dirs[k],
                        carry,
                    }),
                decreases d.dirs.len() - j,
            {
                let c = Child {
                    path: d.dirs[j].clone(),
                    carry: if stay {
                        Some(flav.name().to_string())
                    } else {
                        None
                    },
                };
                assert(dv.dirs[j as int] == d.dirs@[j as int]@);
                kids.push(c);
                events.push(Command::Todo);
                assert(events@ =~= Seq::new((j + 1) as nat, |k: int| Command::Todo));
                j = j + 1;
            }
            assert(children(kids@) =~= heirs(dv.dirs, carry));
        }
        assert(events@ =~= Seq::new(kids@.len(), |k: int| Command::Todo));
        events.push(Command::Scanned);
        Ok(Queued { plan, children: kids, work: Work { flavour: flav, method: prepared.method }, events })
    }

    /// Processes a directory: tells what the worker is busy with, and plans
    /// the backup by the method that the preparation settled.
    pub fn process(&self, work: &Work, job: u8, found: &Found) -> (r: Result<Processing, SyncError>)
        ensures
            r.is_ok() == work.flavour.planned(work.method, *found).is_some(),
            r matches Ok(p) ==> stages(p.stages@) == work.flavour.planned(
                work.method,
                *found,
            ).unwrap() && p.job@ == Transport::note_of(
                Command::Job,
                job as int,
                Some(job_note(work.flavour)),
            ),
            r matches Err(e) ==> e matches SyncError::Failed(m) && m@ == work.flavour.refusal(
                work.method,
            ),
    {
        let flav = &work.flavour;
        let planned = match work.method {
            SyncMethod::Merge => flav.merge(found),
            SyncMethod::Duplicate => flav.dup(found),
        };
        match planned {
            Err(e) => Err(e),
            Ok(v) => {
                let desc = match flav.dir() {
                    Some(d) => d.src_path.render(),
                    None => String::new(),
                };
                let info = Info { category: flav.category(), name: flav.name().to_string(), desc };
                Ok(Processing { job: self.update_job(job, Some(info)), stages: v })
            },
        }
    }

    /// Helper for the statistics update: one more directory to do.
    pub fn todo_one(&self) -> (t: Transport)
        ensures
            t@ == Transport::count_of(Command::Todo),
    {
        Transport::count(Command::Todo)
    }

    /// Helper for the statistics update: the worker `job` is idle again,
    /// and one more directory is scanned.
    pub fn scanned_one(&self, job: u8) -> (t: (Transport, Transport))
        ensures
            t.0@ == Transport::note_of(Command::Job, job as int, None),
            t.1@ == Transport::count_of(Command::Scanned),
    {
        (self.update_job(job, None), Transport::count(Command::Scanned))
    }

    /// Helper for the statistics update: the worker `job` is idle again,
    /// and one more directory is done.
    pub fn done_one(&self, job: u8) -> (t: (Transport, Transport))
        ensures
            t.0@ == Transport::note_of(Command::Job, job as int, None),
            t.1@ == Transport::count_of(Command::Done),
    {
        (self.update_job(job, None), Transport::count(Command::Done))
    }

    /// Helper for the statistics update: one more directory is skipped.
    pub fn skip_one(&self) -> (t: Transport)
        ensures
            t@ == Transport::count_of(Command::Skipped),
    {
        Transport::count(Command::Skipped)
    }

    /// Helper for the statistics update: the worker `job` is idle again,
    /// and one more directory has failed.
    pub fn error_done(&self, job: u8) -> (t: (Transport, Transport))
        ensures
            t.0@ == Transport::note_of(Command::Job, job as int, None),
            t.1@ == Transport::count_of(Command::Error),
    {
        (self.update_job(job, None), Transport::count(Command::Error))
    }

    /// Helper for the statistics update: what the worker `job` is busy
    /// with.
    pub fn update_job(&self, job: u8, i: Option<Info>) -> (t: Transport)
        ensures
            t@ == Transport::note_of(
                Command::Job,
                job as int,
                match i {
                    Some(i) => Some(i@),
                    None => None,
                },
            ),
    {
        Transport::job(job, i)
    }

    /// Helper for the log: the event that hands `i` to the log file.
    pub fn send_log(&self, i: Info) -> (t: Transport)
        ensures
            t@ == Transport::note_of(Command::Log, 0, Some(i@)),
    {
        Transport::log(i)
    }
}

/// The name that was carried down, as contracts see it.
pub open spec fn carried_view(c: Option<String>) -> Option<Seq<char>> {
    match c {
        Some(n) => Some(n@),
        None => None,
    }
}

/// The listing of the target, as contracts see it.
pub open spec fn target_view(t: Option<&Vec<RawEntry>>) -> Option<Seq<EntryView>> {
    match t {
        Some(v) => Some(entries(v@)),
        None => None,
    }
}

/// What the log is told of a skipped directory.
pub open spec fn skip_note(f: Flavour, p: PathView) -> InfoView {
    InfoView { category: f.category_of(), name: f.name_of(), desc: "Skipped "@ + p.rendered() }
}

/// What is told of the directory that a worker is busy with.
pub open spec fn job_note(f: Flavour) -> InfoView {
    InfoView {
        category: f.category_of(),
        name: f.name_of(),
        desc: match f.dir_of() {
            Some(d) => d@.src_path.rendered(),
            None => Seq::<char>::empty(),
        },
    }
}

/// Whether a flavour takes a directory depends on what the directory
/// holds, and on nothing else.
pub proof fn lemma_takes_by_content(f: Flavour, a: DirView, b: DirView, carried: Option<Seq<char>>)
    requires
        a.dirs == b.dirs,
        a.files == b.files,
    ensures
        takes(f, a, carried) == takes(f, b, carried),
{
}

/// So does the choice among the flavours of a registry.
pub proof fn lemma_choice_by_content(
    v: Seq<Flavour>,
    a: DirView,
    b: DirView,
    carried: Option<Seq<char>>,
)
    requires
        a.dirs == b.dirs,
        a.files == b.files,
    ensures
        choice(v, a, carried) == choice(v, b, carried),
    decreases v.len(),
{
    if v.len() > 0 {
        lemma_takes_by_content(v[0], a, b, carried);
        lemma_choice_by_content(v.drop_first(), a, b, carried);
    }
}

/// The scan of a directory does not depend on the worker that does it: two
/// workers gather the same directory, but for the job id that each of them
/// writes into it, and they choose the same flavour for it.
pub proof fn lemma_scan_is_worker_independent(
    s: Scan,
    p: PathView,
    a: u8,
    b: u8,
    listing: Seq<EntryView>,
    target: Option<Seq<EntryView>>,
    carried: Option<Seq<char>>,
)
    ensures
        s.gathered(p, a, listing, target) == (DirView {
            job: a,
            ..s.gathered(p, b, listing, target)
        }),
        choice(s.flavours@, s.gathered(p, a, listing, target), carried) == choice(
            s.flavours@,
            s.gathered(p, b, listing, target),
            carried,
        ),
        s.classifies(p, a, listing, target, carried) == s.classifies(p, b, listing, target, carried),
{
    lemma_choice_by_content(
        s.flavours@,
        s.gathered(p, a, listing, target),
        s.gathered(p, b, listing, target),
        carried,
    );
}

} // verus!
