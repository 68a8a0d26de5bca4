//! Subversion working copies. Unless a full backup is asked for, a working
//! copy is distilled to its modified and its unversioned files.

use super::{
    bound_and_sound, fits, has_named, named_in, plain_dup, plain_merge, plain_prepare, single,
    subdir_create, subdir_create_plan, subdir_empty, subdir_ignored, subdir_rename_plan,
    unbound_reason, Category, Compared, Dir, DirView, Prepared, SyncMethod, TargetState,
};
use crate::args::{declare_flag, declared_options, flag, flag_set};
use crate::markup::{
    attribute_value, closes, find_attribute, markups, parsed_markup, read_markup, Markup,
    MarkupView,
};
use crate::path::{lemma_paths_push, parsed, paths, PathView, SyncPath};
use crate::text::{lemma_texts_push, same, texts};
use crate::utils::{
    append_tasks, copy_of, cp_d, entries, lemma_tasks_push, must, removals, rm_dirs_and_files,
    stages, tasks, EntryKind, OnFail, RawEntry, Stage, SyncError, Task,
    TaskView,
};
use vstd::prelude::*;

verus! {

/// Why Subversion lists an entry in its status.
#[derive(PartialEq, Eq, Clone, Copy, Debug, Structural)]
pub enum Reason {
    /// For a reason that the backup does not care for.
    Other,
    /// The entry was modified.
    Modified,
    /// The entry is not under version control.
    Unversioned,
}

impl Reason {
    /// The reason that a word of Subversion stands for.
    pub open spec fn of(word: Seq<char>) -> Reason {
        if word == "modified"@ {
            Reason::Modified
        } else if word == "unversioned"@ {
            Reason::Unversioned
        } else {
            Reason::Other
        }
    }

    /// Reads a reason from the word that Subversion uses for it.
    pub fn from(word: &str) -> (r: Reason)
        ensures
            r == Reason::of(word@),
    {
        if same(word, "modified") {
            Reason::Modified
        } else if same(word, "unversioned") {
            Reason::Unversioned
        } else {
            Reason::Other
        }
    }
}

/// An entry of a working copy that the backup cares for.
#[derive(Debug, Clone, PartialEq, Eq)]
pub struct Change {
    /// The path of the entry, as Subversion gives it.
    pub path: String,
    /// Why it is listed: modified or unversioned.
    pub reason: Reason,
}

/// What a `Change` says.
pub struct ChangeView {
    pub path: Seq<char>,
    pub reason: Reason,
}

impl View for Change {
    type V = ChangeView;

    open spec fn view(&self) -> ChangeView {
        ChangeView { path: self.path@, reason: self.reason }
    }
}

/// The views of a sequence of changes.
pub open spec fn changes(v: Seq<Change>) -> Seq<ChangeView> {
    v.map_values(|c: Change| c@)
}

/// What the reader of a status remembers between two events: the path of
/// the entry that it is in, and the reason of that entry, as far as they
/// were seen.
pub struct Pending {
    pub path: Option<Seq<char>>,
    pub reason: Option<Reason>,
}

/// What the reader remembers, given the path and the reason that it holds.
pub open spec fn pending(path: Option<String>, reason: Option<Reason>) -> Pending {
    Pending {
        path: match path {
            Some(p) => Some(p@),
            None => None,
        },
        reason,
    }
}

/// The reader that has seen nothing.
pub open spec fn idle() -> Pending {
    Pending { path: None, reason: None }
}

/// What the reader remembers once it has looked at an event: an `entry`
/// element sets the path to its `path` attribute, a `wc-status` element
/// sets the reason to what its `item` attribute says.
pub open spec fn noticed(st: Pending, m: MarkupView) -> Pending {
    match m {
        MarkupView::Open { name, attributes } => if name == "entry"@ {
            Pending { path: attribute_value(attributes, "path"@), ..st }
        } else if name == "wc-status"@ {
            Pending {
                reason: match attribute_value(attributes, "item"@) {
                    Some(w) => Some(Reason::of(w)),
                    None => None,
                },
                ..st
            }
        } else {
            st
        },
        _ => st,
    }
}

/// The change that the reader hands out: it does once it knows a path and
/// a reason that the backup cares for.
pub open spec fn handed_out(st: Pending) -> Option<ChangeView> {
    match (st.path, st.reason) {
        (Some(f), Some(Reason::Modified)) => Some(ChangeView { path: f, reason: Reason::Modified }),
        (Some(f), Some(Reason::Unversioned)) => Some(
            ChangeView { path: f, reason: Reason::Unversioned },
        ),
        _ => None,
    }
}

/// What the reader remembers after handing out: nothing, if it handed a
/// change out or saw a reason that the backup does not care for.
pub open spec fn settled(st: Pending) -> Pending {
    if handed_out(st) is Some || st.reason == Some(Reason::Other) {
        idle()
    } else {
        st
    }
}

/// The changes that a status holds, read from its events up to the end of
/// the document.
pub open spec fn extracted(items: Seq<MarkupView>, st: Pending) -> Seq<ChangeView>
    decreases items.len(),
{
    if items.len() == 0 || closes(items[0]) {
        Seq::<ChangeView>::empty()
    } else {
        let seen = noticed(st, items[0]);
        let rest = extracted(items.drop_first(), settled(seen));
        match handed_out(seen) {
            Some(c) => seq![c] + rest,
            None => rest,
        }
    }
}

/// Reads the changes out of the events of a status.
pub fn extract(items: &Vec<Markup>) -> (out: Vec<Change>)
    ensures
        changes(out@) == extracted(markups(items@), idle()),
{
    let ghost all = markups(items@);
    let mut out: Vec<Change> = Vec::new();
    let mut path: Option<String> = None;
    let mut reason: Option<Reason> = None;
    let mut i: usize = 0;
    assert(all.subrange(0, all.len() as int) =~= all);
    assert(changes(out@) =~= Seq::<ChangeView>::empty());
    assert(Seq::<ChangeView>::empty() + extracted(all, idle()) =~= extracted(all, idle()));
    while i < items.len()
        invariant
            i <= items.len(),
            all == markups(items@),
            changes(out@) + extracted(
                all.subrange(i as int, all.len() as int),
                pending(path, reason),
            ) == extracted(all, idle()),
        decreases items.len() - i,
    {
        let ghost rest = all.subrange(i as int, all.len() as int);
        let ghost st = pending(path, reason);
        proof {
            assert(rest[0] == items@[i as int]@);
            assert(rest.drop_first() =~= all.subrange(i + 1, all.len() as int));
        }
        match &items[i] {
            Markup::End => {
                assert(changes(out@) + Seq::<ChangeView>::empty() =~= changes(out@));
                return out;
            },
            Markup::Broken => {
                assert(changes(out@) + Seq::<ChangeView>::empty() =~= changes(out@));
                return out;
            },
            Markup::Open { name, attributes } => {
                if same(name.as_str(), "entry") {
                    path = find_attribute(attributes, "path");
                } else if same(name.as_str(), "wc-status") {
                    reason = match find_attribute(attributes, "item") {
                        Some(w) => Some(Reason::from(w.as_str())),
                        None => None,
                    };
                }
            },
            _ => {},
        }
        let ghost seen = noticed(st, rest[0]);
        assert(seen == (pending(path, reason)));
        let wanted = match (&path, reason) {
            (Some(_), Some(Reason::Modified)) => true,
            (Some(_), Some(Reason::Unversioned)) => true,
            _ => false,
        };
        if wanted {
            let ghost before = changes(out@);
            let c = Change { path: path.unwrap(), reason: reason.unwrap() };
            assert(handed_out(seen) == Some(c@));
            out.push(c);
            path = None;
            reason = None;
            assert(changes(out@) =~= before.push(c@));
            assert(before.push(c@) + extracted(rest.drop_first(), idle()) =~= before + (seq![c@]
                + extracted(rest.drop_first(), idle())));
        } else if reason == Some(Reason::Other) {
            path = None;
            reason = None;
        }
        i = i + 1;
    }
    assert(changes(out@) + Seq::<ChangeView>::empty() =~= changes(out@));
    out
}

/// The changes that the output of `svn status --xml` tells of.
pub fn status_changes(payload: &[u8]) -> (out: Vec<Change>)
    ensures
        changes(out@) == extracted(parsed_markup(payload@), idle()),
{
    let items = read_markup(payload);
    extract(&items)
}

/// The root of the working copy that the events of `svn info --xml` name:
/// the first text that stands in a `wcroot-abspath` element. `armed` tells
/// whether the reader is in such an element.
pub open spec fn wcroot_in(items: Seq<MarkupView>, armed: bool) -> Option<Seq<char>>
    decreases items.len(),
{
    if items.len() == 0 || closes(items[0]) {
        None
    } else {
        match items[0] {
            MarkupView::Open { name, attributes } => wcroot_in(
                items.drop_first(),
                name == "wcroot-abspath"@,
            ),
            MarkupView::Text(s) => if armed {
                Some(s)
            } else {
                wcroot_in(items.drop_first(), armed)
            },
            _ => wcroot_in(items.drop_first(), armed),
        }
    }
}

/// Reads the root of the working copy out of the events of an info.
pub fn wcroot(items: &Vec<Markup>) -> (r: Option<String>)
    ensures
        r.is_some() == wcroot_in(markups(items@), false).is_some(),
        r matches Some(s) ==> s@ == wcroot_in(markups(items@), false).unwrap(),
{
    let ghost all = markups(items@);
    let mut armed = false;
    let mut i: usize = 0;
    assert(all.subrange(0, all.len() as int) =~= all);
    while i < items.len()
        invariant
            i <= items.len(),
            all == markups(items@),
            wcroot_in(all.subrange(i as int, all.len() as int), armed) == wcroot_in(all, false),
        decreases items.len() - i,
    {
        let ghost rest = all.subrange(i as int, all.len() as int);
        proof {
            assert(rest[0] == items@[i as int]@);
            assert(rest.drop_first() =~= all.subrange(i + 1, all.len() as int));
        }
        match &items[i] {
            Markup::End => {
                return None;
            },
            Markup::Broken => {
                return None;
            },
            Markup::Open { name, attributes } => {
                armed = same(name.as_str(), "wcroot-abspath");
            },
            Markup::Text(s) => {
                if armed {
                    return Some(s.clone());
                }
            },
            Markup::Other => {},
        }
        i = i + 1;
    }
    None
}

/// Where a directory inside a working copy is backed up to: its place
/// below the root of the working copy is taken off the end of its target,
/// and put back below `unversioned`.
pub open spec fn relocated(src: PathView, target: PathView, root: PathView) -> PathView {
    let way = src.strip_prefix(root).parts;
    let keep = if target.parts.len() >= way.len() {
        target.parts.len() - way.len()
    } else {
        0
    };
    PathView {
        absolute: target.absolute,
        parts: target.parts.subrange(0, keep).push("unversioned"@) + way,
    }
}

/// Computes where a directory inside a working copy is backed up to.
pub fn relocate(src: &SyncPath, target: &SyncPath, root: &SyncPath) -> (r: Option<SyncPath>)
    ensures
        r.is_some() == src@.starts_with(root@),
        r matches Some(p) ==> p@ == relocated(src@, target@, root@),
{
    let way = match src.strip_prefix(root) {
        Some(w) => w,
        None => {
            return None;
        },
    };
    let keep = if target.parts.len() >= way.parts.len() {
        target.parts.len() - way.parts.len()
    } else {
        0
    };
    let mut parts: Vec<String> = Vec::new();
    let mut i: usize = 0;
    assert(texts(parts@) =~= texts(target.parts@).subrange(0, 0));
    while i < keep
        invariant
            i <= keep <= target.parts.len(),
            texts(parts@) == texts(target.parts@).subrange(0, i as int),
        decreases keep - i,
    {
        let s = target.parts[i].clone();
        proof {
            lemma_texts_push(parts@, s);
            assert(texts(target.parts@).subrange(0, i + 1) =~= texts(target.parts@).subrange(
                0,
                i as int,
            ).push(s@));
        }
        parts.push(s);
        i = i + 1;
    }
    let u = "unversioned".to_string();
    proof {
        lemma_texts_push(parts@, u);
    }
    parts.push(u);
    let base = SyncPath { absolute: target.absolute, parts };
    let r = base.join(&way);
    Some(r)
}

/// What the flavour needs to know before it can prepare a directory.
#[derive(PartialEq, Eq, Clone, Copy, Debug, Structural)]
pub enum Need {
    /// Nothing.
    Nothing,
    /// The output of `svn status --xml` for the source path.
    Status,
    /// The output of `svn info --xml` for the source path.
    Info,
}

/// The flavour of a Subversion working copy.
#[derive(Debug)]
pub struct Svn {
    /// The directory that the flavour is bound to.
    pub dir: Option<Dir>,
    /// Whether working copies are left out of the backup.
    pub ignore: bool,
    /// Whether a working copy is backed up in full, like a plain directory.
    pub full: bool,
    /// Whether unversioned files are left out.
    pub ignore_unversioned: bool,
    /// Whether modified files are left out.
    pub ignore_modified: bool,
    /// The modified files of the working copy.
    pub modified: Vec<SyncPath>,
    /// The unversioned files of the working copy.
    pub unversioned: Vec<SyncPath>,
    /// Whether the directory is the root of the working copy: the one in
    /// which `.svn` was found.
    pub probed: bool,
}

/// Whether a change counts as a modified file: modified files are wanted,
/// and it is a regular file below the source.
pub open spec fn is_modified(c: ChangeView, kind: EntryKind, src: PathView, ignore: bool) -> bool {
    c.reason == Reason::Modified && !ignore && kind == EntryKind::File && parsed(
        c.path,
    ).starts_with(src)
}

/// Whether a change counts as an unversioned directory, which is backed
/// up as a directory of its own.
pub open spec fn is_unversioned_dir(c: ChangeView, kind: EntryKind, ignore: bool) -> bool {
    c.reason == Reason::Unversioned && !ignore && kind == EntryKind::Dir
}

/// Whether a change counts as an unversioned file.
pub open spec fn is_unversioned_file(c: ChangeView, kind: EntryKind, src: PathView, ignore: bool)
    -> bool {
    c.reason == Reason::Unversioned && !ignore && kind != EntryKind::Dir && parsed(
        c.path,
    ).starts_with(src)
}

/// The paths of the first `n` changes that `pick` takes, in order.
pub open spec fn picked(
    v: Seq<ChangeView>,
    kinds: Seq<EntryKind>,
    pick: spec_fn(ChangeView, EntryKind) -> bool,
    n: int,
) -> Seq<PathView>
    decreases n,
{
    if n <= 0 {
        Seq::<PathView>::empty()
    } else {
        let before = picked(v, kinds, pick, n - 1);
        if pick(v[n - 1], kinds[n - 1]) {
            before.push(parsed(v[n - 1].path))
        } else {
            before
        }
    }
}

impl Svn {
    /// A subdirectory named `.svn` marks a working copy.
    pub open spec fn matches(d: DirView) -> bool {
        named_in(d.dirs, ".svn"@)
    }

    /// Both flavours were given the same options.
    pub open spec fn same_options(self, other: Svn) -> bool {
        &&& self.ignore == other.ignore
        &&& self.full == other.full
        &&& self.ignore_unversioned == other.ignore_unversioned
        &&& self.ignore_modified == other.ignore_modified
    }

    /// A flavour as it is built: without directory and without files.
    pub open spec fn blank(self) -> bool {
        self.dir is None && self.modified@.len() == 0 && self.unversioned@.len() == 0
    }

    /// Every modified and every unversioned file lies below the source.
    pub open spec fn wf(self) -> bool {
        self.dir matches Some(d) && (forall|i: int|
            0 <= i < self.modified@.len() ==> (#[trigger] paths(self.modified@)[i]).starts_with(
                d@.src_path,
            )) && (forall|i: int|
            0 <= i < self.unversioned@.len() ==> (#[trigger] paths(
                self.unversioned@,
            )[i]).starts_with(d@.src_path))
    }

    /// Declares the command line options of this flavour.
    pub fn init_opts(opts: &mut getopts::Options)
        ensures
            declared_options(*final(opts)) == declared_options(*old(opts)).insert(
                "svn-ignore"@,
            ).insert("svn-full"@).insert("svn-ignore-unversioned"@).insert(
                "svn-ignore-modified"@,
            ),
    {
        proof {
            reveal_strlit("svn-ignore");
            reveal_strlit("svn-full");
            reveal_strlit("svn-ignore-unversioned");
            reveal_strlit("svn-ignore-modified");
        }
        declare_flag(opts, "svn-ignore", "Ignore Svn repositories");
        declare_flag(opts, "svn-full", "Full backup (default is unversioned and modified)");
        declare_flag(opts, "svn-ignore-unversioned", "Don't backup unversioned files");
        declare_flag(opts, "svn-ignore-modified", "Don't backup modified files");
    }

    /// Whether this is the template that the arguments ask for.
    pub open spec fn is_template_of(self, args: getopts::Matches) -> bool {
        &&& self.blank()
        &&& !self.probed
        &&& self.ignore == flag_set(args, "svn-ignore"@)
        &&& self.full == flag_set(args, "svn-full"@)
        &&& self.ignore_unversioned == flag_set(args, "svn-ignore-unversioned"@)
        &&& self.ignore_modified == flag_set(args, "svn-ignore-modified"@)
    }

    /// Builds the template of this flavour from the parsed arguments.
    pub fn template(args: &getopts::Matches) -> (t: Self)
        ensures
            t.is_template_of(*args),
    {
        Svn {
            dir: None,
            ignore: flag(args, "svn-ignore"),
            full: flag(args, "svn-full"),
            ignore_unversioned: flag(args, "svn-ignore-unversioned"),
            ignore_modified: flag(args, "svn-ignore-modified"),
            modified: Vec::new(),
            unversioned: Vec::new(),
            probed: false,
        }
    }

    /// Look for `.svn` to identify the root of a working copy.
    pub fn probe(&self, d: &Dir) -> (r: Option<Svn>)
        ensures
            r.is_some() == Self::matches(d@),
            r matches Some(f) ==> f.same_options(*self) && f.blank() && f.probed,
    {
        if has_named(&d.dirs, ".svn") {
            let mut f = self.build();
            f.probed = true;
            Some(f)
        } else {
            None
        }
    }

    /// Builds an instance for a directory inside a working copy.
    pub fn build(&self) -> (f: Svn)
        ensures
            f.same_options(*self),
            f.blank(),
            !f.probed,
    {
        Svn {
            dir: None,
            ignore: self.ignore,
            full: self.full,
            ignore_unversioned: self.ignore_unversioned,
            ignore_modified: self.ignore_modified,
            modified: Vec::new(),
            unversioned: Vec::new(),
            probed: false,
        }
    }

    /// Binds the flavour to a directory.
    pub fn set_dir(&mut self, d: Dir)
        ensures
            final(self).dir == Some(d),
            final(self).same_options(*old(self)),
            final(self).probed == old(self).probed,
            final(self).modified == old(self).modified,
            final(self).unversioned == old(self).unversioned,
    {
        self.dir = Some(d);
    }

    /// The directory that the flavour is bound to.
    pub fn dir(&self) -> (d: &Option<Dir>)
        ensures
            *d == self.dir,
    {
        &self.dir
    }

    /// The name of the flavour.
    pub fn name(&self) -> (n: &'static str)
        ensures
            n@ == "Subversion"@,
    {
        "Subversion"
    }

    /// The category of the flavour.
    pub fn category(&self) -> (c: Category)
        ensures
            c == Category::Repository,
    {
        Category::Repository
    }

    /// Recurse if `--svn-ignore` is not set.
    pub fn recurse(&self) -> (b: bool)
        ensures
            b == !self.ignore,
    {
        !self.ignore
    }

    /// Skip if `--svn-ignore` is set.
    pub fn skip(&self) -> (b: bool)
        ensures
            b == self.ignore,
    {
        self.ignore
    }

    /// The directories below keep this flavour unless a full backup is
    /// asked for.
    pub fn stay(&self) -> (b: bool)
        ensures
            b == !self.full,
    {
        !self.full
    }

    /// What has to be read before the directory can be prepared: the
    /// status for the root of a working copy, the info for a directory
    /// inside one, and nothing for a full backup.
    pub fn needs(&self) -> (n: Need)
        ensures
            n == (if self.full {
                Need::Nothing
            } else if self.probed {
                Need::Status
            } else {
                Need::Info
            }),
    {
        if self.full {
            Need::Nothing
        } else if self.probed {
            Need::Status
        } else {
            Need::Info
        }
    }

    /// Moves the target of a directory inside a working copy below the
    /// `unversioned` subdirectory of the backup of the working copy.
    /// `asked` is the path that `svn info` was asked for, `items` what it
    /// answered and `success` whether it ended well. A call that ended well
    /// ends the search, and where its answer names the root of the working
    /// copy, the target is moved. After a call that failed, the parent of
    /// `asked` is to be asked next, and comes back.
    pub fn modify_target_path(&mut self, asked: &SyncPath, items: &Vec<Markup>, success: bool) -> (r:
        Result<Option<SyncPath>, SyncError>)
        ensures
            final(self).same_options(*old(self)),
            final(self).probed == old(self).probed,
            final(self).modified == old(self).modified,
            final(self).unversioned == old(self).unversioned,
            r.is_ok() == Self::can_move(*old(self), asked@, markups(items@), success),
            r is Ok ==> (final(self).dir matches Some(d) && d@ == Self::moved(
                old(self).dir.unwrap()@,
                markups(items@),
                success,
            )),
            r is Err ==> final(self).dir == old(self).dir,
            r matches Ok(next) ==> next.is_some() == !success,
            r matches Ok(Some(p)) ==> Some(p@) == asked@.parent(),
    {
        let root = wcroot(items);
        let mut d = match self.dir.take() {
            Some(d) => d,
            None => {
                return Err(SyncError::failed("Cannot prepare synchronization without directory"));
            },
        };
        assert(self.dir is None);
        let ghost given = d@;
        let next = if success {
            None
        } else {
            match asked.parent() {
                Some(p) => Some(p),
                None => {
                    self.dir = Some(d);
                    return Err(SyncError::failed("Failed to find the root of the working copy"));
                },
            }
        };
        match root {
            Some(w) if success => {
                let root_path = SyncPath::parse(w.as_str());
                match relocate(&d.src_path, &d.target_path, &root_path) {
                    Some(t) => {
                        d.target_path = t;
                    },
                    None => {
                        self.dir = Some(d);
                        return Err(
                            SyncError::failed("Directory lies outside of its working copy"),
                        );
                    },
                }
            },
            _ => {},
        }
        self.dir = Some(d);
        Ok(next)
    }

    /// Whether the search for the root of the working copy can go on: the
    /// flavour has a directory, a call that failed was not for the top of
    /// the file tree, and a root that a call named as it ended well lies
    /// above the directory.
    pub open spec fn can_move(self, asked: PathView, items: Seq<MarkupView>, success: bool)
        -> bool {
        &&& self.dir is Some
        &&& (success || asked.parent() is Some)
        &&& (success ==> (wcroot_in(items, false) matches Some(w)
            ==> self.dir.unwrap()@.src_path.starts_with(parsed(w))))
    }

    /// The directory with its target moved, if the call ended well and its
    /// answer names the root of the working copy.
    pub open spec fn moved(d: DirView, items: Seq<MarkupView>, success: bool) -> DirView {
        match wcroot_in(items, false) {
            Some(w) if success => DirView {
                target_path: relocated(d.src_path, d.target_path, parsed(w)),
                ..d
            },
            _ => d,
        }
    }

    /// `modify_target_path` on the output of `svn info --xml`.
    pub fn modify_target_path_from(&mut self, asked: &SyncPath, payload: &[u8], success: bool) -> (r:
        Result<Option<SyncPath>, SyncError>)
        ensures
            final(self).same_options(*old(self)),
            final(self).probed == old(self).probed,
            final(self).modified == old(self).modified,
            final(self).unversioned == old(self).unversioned,
            r is Err ==> final(self).dir == old(self).dir,
            r.is_ok() == Self::can_move(*old(self), asked@, parsed_markup(payload@), success),
            r is Ok ==> (final(self).dir matches Some(d) && d@ == Self::moved(
                old(self).dir.unwrap()@,
                parsed_markup(payload@),
                success,
            )),
            r matches Ok(next) ==> next.is_some() == !success,
            r matches Ok(Some(p)) ==> Some(p@) == asked@.parent(),
    {
        let items = read_markup(payload);
        self.modify_target_path(asked, &items, success)
    }

    /// Takes in what the status of the working copy tells: the directory
    /// forgets its files and subdirectories; every modified file and every
    /// unversioned file is remembered, and every unversioned directory
    /// becomes a subdirectory to descend into. `kinds` tells of each change
    /// what is found at its path.
    pub fn prepare_contents(&mut self, found: &Vec<Change>, kinds: &Vec<EntryKind>) -> (r: Result<
        (),
        SyncError,
    >)
        ensures
            final(self).same_options(*old(self)),
            final(self).probed == old(self).probed,
            r.is_ok() == (old(self).wf() && kinds@.len() == found@.len()),
            r is Err ==> *final(self) == *old(self),
            r matches Err(e) ==> e matches SyncError::Failed(m) && m@ == (if old(self).wf() {
                "Cannot prepare synchronization without the kind of every entry"@
            } else {
                unbound_reason(old(self).dir)
            }),
            r is Ok ==> final(self).wf() && final(self).dir.unwrap()@ == (DirView {
                dirs: picked(
                    changes(found@),
                    kinds@,
                    |c: ChangeView, k: EntryKind| is_unversioned_dir(c, k, old(self).ignore_unversioned),
                    found@.len() as int,
                ),
                files: Seq::<PathView>::empty(),
                ex_dirs: Seq::<PathView>::empty(),
                ex_files: Seq::<PathView>::empty(),
                ..old(self).dir.unwrap()@
            }) && paths(final(self).modified@) == paths(old(self).modified@) + picked(
                changes(found@),
                kinds@,
                |c: ChangeView, k: EntryKind|
                    is_modified(c, k, old(self).dir.unwrap()@.src_path, old(self).ignore_modified),
                found@.len() as int,
            ) && paths(final(self).unversioned@) == paths(old(self).unversioned@) + picked(
                changes(found@),
                kinds@,
                |c: ChangeView, k: EntryKind|
                    is_unversioned_file(
                        c,
                        k,
                        old(self).dir.unwrap()@.src_path,
                        old(self).ignore_unversioned,
                    ),
                found@.len() as int,
            ),
    {
        if !self.sound() {
            return Err(
                if self.dir.is_none() {
                    SyncError::failed("Cannot synchronize without directory")
                } else {
                    SyncError::failed("Cannot synchronize files outside of the source directory")
                },
            );
        }
        if kinds.len() != found.len() {
            return Err(
                SyncError::failed("Cannot prepare synchronization without the kind of every entry"),
            );
        }
        let mut d = self.dir.take().unwrap();
        let ghost given = d@;
        let ghost cv = changes(found@);
        let ghost src = given.src_path;
        let ghost im = self.ignore_modified;
        let ghost iu = self.ignore_unversioned;
        let ghost pick_dir = |c: ChangeView, k: EntryKind| is_unversioned_dir(c, k, iu);
        let ghost pick_mod = |c: ChangeView, k: EntryKind| is_modified(c, k, src, im);
        let ghost pick_file = |c: ChangeView, k: EntryKind| is_unversioned_file(c, k, src, iu);
        let ghost mod0 = paths(self.modified@);
        let ghost unv0 = paths(self.unversioned@);
        d.dirs = Vec::new();
        d.files = Vec::new();
        d.ex_dirs = Vec::new();
        d.ex_files = Vec::new();
        assert(paths(d.dirs@) =~= Seq::<PathView>::empty());
        assert(paths(d.files@) =~= Seq::<PathView>::empty());
        assert(paths(d.ex_dirs@) =~= Seq::<PathView>::empty());
        assert(paths(d.ex_files@) =~= Seq::<PathView>::empty());
        assert(mod0 + Seq::<PathView>::empty() =~= mod0);
        assert(unv0 + Seq::<PathView>::empty() =~= unv0);
        let mut i: usize = 0;
        while i < found.len()
            invariant
                i <= found.len(),
                kinds@.len() == found@.len(),
                cv == changes(found@),
                self.dir is None,
                self.same_options(*old(self)),
                self.probed == old(self).probed,
                im == self.ignore_modified,
                iu == self.ignore_unversioned,
                src == d@.src_path,
                d@ == (DirView {
                    dirs: d@.dirs,
                    files: Seq::<PathView>::empty(),
                    ex_dirs: Seq::<PathView>::empty(),
                    ex_files: Seq::<PathView>::empty(),
                    ..given
                }),
                pick_dir == (|c: ChangeView, k: EntryKind| is_unversioned_dir(c, k, iu)),
                pick_mod == (|c: ChangeView, k: EntryKind| is_modified(c, k, src, im)),
                pick_file == (|c: ChangeView, k: EntryKind| is_unversioned_file(c, k, src, iu)),
                d@.dirs == picked(cv, kinds@, pick_dir, i as int),
                paths(self.modified@) == mod0 + picked(cv, kinds@, pick_mod, i as int),
                paths(self.unversioned@) == unv0 + picked(cv, kinds@, pick_file, i as int),
                forall|k: int|
                    0 <= k < self.modified@.len() ==> (#[trigger] paths(
                        self.modified@,
                    )[k]).starts_with(src),
                forall|k: int|
                    0 <= k < self.unversioned@.len() ==> (#[trigger] paths(
                        self.unversioned@,
                    )[k]).starts_with(src),
            decreases found.len() - i,
        {
            let c = &found[i];
            let kind = kinds[i];
            assert(cv[i as int] == c@);
            let p = SyncPath::parse(c.path.as_str());
            let ghost md = picked(cv, kinds@, pick_mod, i as int);
            let ghost fl = picked(cv, kinds@, pick_file, i as int);
            match c.reason {
                Reason::Modified => {
                    if !self.ignore_modified && kind == EntryKind::File && p.starts_with(
                        &d.src_path,
                    ) {
                        proof {
                            lemma_paths_push(self.modified@, p);
                            assert((mod0 + md).push(p@) =~= mod0 + md.push(p@));
                        }
                        self.modified.push(p);
                    }
                },
                Reason::Unversioned => {
                    if !self.ignore_unversioned {
                        if kind == EntryKind::Dir {
                            proof {
                                lemma_paths_push(d.dirs@, p);
                            }
                            d.dirs.push(p);
                        } else if p.starts_with(&d.src_path) {
                            proof {
                                lemma_paths_push(self.unversioned@, p);
                                assert((unv0 + fl).push(p@) =~= unv0 + fl.push(p@));
                            }
                            self.unversioned.push(p);
                        }
                    }
                },
                Reason::Other => {},
            }
            i = i + 1;
        }
        self.dir = Some(d);
        Ok(())
    }

    /// Prepare for backup: the target directory is created where it is
    /// missing. What `needs` asks for is to be taken in before.
    pub fn prepare(&self, state: TargetState) -> (r: Result<Prepared, SyncError>)
        ensures
            r.is_ok() == self.dir.is_some(),
            r matches Ok(p) ==> p.method == (if state == TargetState::Present {
                SyncMethod::Merge
            } else {
                SyncMethod::Duplicate
            }) && tasks(p.plan@) == self.dir.unwrap()@.target_plan(state),
            r matches Err(e) ==> e matches SyncError::Failed(m) && m@
                == "Cannot prepare synchronization without directory"@,
    {
        plain_prepare(&self.dir, state)
    }

    /// Whether every modified and every unversioned file lies below the
    /// source.
    pub fn sound(&self) -> (b: bool)
        ensures
            b == self.wf(),
    {
        let d = match &self.dir {
            Some(d) => d,
            None => {
                return false;
            },
        };
        let mut i: usize = 0;
        while i < self.modified.len()
            invariant
                self.dir == Some(*d),
                i <= self.modified.len(),
                forall|k: int|
                    0 <= k < i ==> (#[trigger] paths(self.modified@)[k]).starts_with(d@.src_path),
            decreases self.modified.len() - i,
        {
            if !self.modified[i].starts_with(&d.src_path) {
                assert(!paths(self.modified@)[i as int].starts_with(d@.src_path));
                return false;
            }
            i = i + 1;
        }
        let mut j: usize = 0;
        while j < self.unversioned.len()
            invariant
                self.dir == Some(*d),
                j <= self.unversioned.len(),
                forall|k: int|
                    0 <= k < self.modified@.len() ==> (#[trigger] paths(
                        self.modified@,
                    )[k]).starts_with(d@.src_path),
                forall|k: int|
                    0 <= k < j ==> (#[trigger] paths(self.unversioned@)[k]).starts_with(
                        d@.src_path,
                    ),
            decreases self.unversioned.len() - j,
        {
            if !self.unversioned[j].starts_with(&d.src_path) {
                assert(!paths(self.unversioned@)[j as int].starts_with(d@.src_path));
                return false;
            }
            j = j + 1;
        }
        true
    }

    /// The copies of `files` into the subdirectory `n` of the backup, each
    /// to the place that it has below the source.
    pub open spec fn copies(d: DirView, files: Seq<PathView>, n: Seq<char>) -> Seq<TaskView> {
        Seq::new(
            files.len(),
            |i: int|
                must(
                    copy_of(
                        d.src_path,
                        d.target_path.child(n),
                        files[i].strip_prefix(d.src_path),
                        true,
                        true,
                    ),
                ),
        )
    }

    /// One subdirectory of the backup: a marker if its files are not
    /// wanted or there are none, else the copies of the files.
    pub open spec fn subdir_tasks(
        d: DirView,
        n: Seq<char>,
        ignore: bool,
        files: Seq<PathView>,
        none: bool,
    ) -> Seq<TaskView> {
        let fresh = subdir_create_plan(d, n);
        if ignore {
            fresh + subdir_rename_plan(d, n, "ignored"@)
        } else if none {
            fresh + subdir_rename_plan(d, n, "empty"@)
        } else {
            fresh + Self::copies(d, files, n)
        }
    }

    /// The tasks that distill a working copy: the target is emptied, then
    /// the modified and the unversioned files are backed up.
    pub open spec fn distilled(self, listing: Seq<RawEntry>) -> Seq<TaskView> {
        let d = self.dir.unwrap()@;
        removals(entries(listing), d.target_path) + Self::subdir_tasks(
            d,
            "modified"@,
            self.ignore_modified,
            paths(self.modified@),
            self.modified@.len() == 0,
        ) + Self::subdir_tasks(
            d,
            "unversioned"@,
            self.ignore_unversioned,
            paths(self.unversioned@),
            self.unversioned@.len() == 0 && d.dirs.len() == 0,
        )
    }

    /// Plans one subdirectory of the backup.
    fn subdir(&self, d: &Dir, n: &str, ignore: bool, files: &Vec<SyncPath>, none: bool) -> (plan:
        Vec<Task>)
        requires
            forall|i: int| 0 <= i < files@.len() ==> (#[trigger] paths(files@)[i]).starts_with(
                d@.src_path,
            ),
        ensures
            tasks(plan@) == Self::subdir_tasks(d@, n@, ignore, paths(files@), none),
    {
        let mut plan = subdir_create(d, n);
        if ignore {
            append_tasks(&mut plan, subdir_ignored(d, n));
        } else if none {
            append_tasks(&mut plan, subdir_empty(d, n));
        } else {
            let ghost fresh = tasks(plan@);
            let ghost all = Self::copies(d@, paths(files@), n@);
            let to = d.target_path.child(n);
            let mut i: usize = 0;
            assert(fresh + all.subrange(0, 0) =~= fresh);
            while i < files.len()
                invariant
                    i <= files.len(),
                    to@ == d@.target_path.child(n@),
                    all == Self::copies(d@, paths(files@), n@),
                    forall|k: int|
                        0 <= k < files@.len() ==> (#[trigger] paths(files@)[k]).starts_with(
                            d@.src_path,
                        ),
                    tasks(plan@) == fresh + all.subrange(0, i as int),
                decreases files.len() - i,
            {
                assert(paths(files@)[i as int] == files@[i as int]@);
                let t = Task { op: cp_d(&d.src_path, &to, &files[i], true), on_fail: OnFail::Abort };
                proof {
                    lemma_tasks_push(plan@, t);
                    assert(t@ == all[i as int]);
                    assert((fresh + all.subrange(0, i as int)).push(t@) =~= fresh + all.subrange(
                        0,
                        i + 1,
                    ));
                }
                plan.push(t);
                i = i + 1;
            }
            assert(all.subrange(0, i as int) =~= all);
        }
        plan
    }

    /// Backs the modified and the unversioned files of the working copy
    /// up. `listing` is what the target holds.
    pub fn dup_all(&self, listing: &Vec<RawEntry>) -> (r: Result<Vec<Stage>, SyncError>)
        ensures
            r.is_ok() == self.wf(),
            r matches Ok(v) ==> stages(v@) == single(self.distilled(listing@)),
            r matches Err(e) ==> e matches SyncError::Failed(m) && m@ == unbound_reason(self.dir),
    {
        if !self.sound() {
            return Err(
                if self.dir.is_none() {
                    SyncError::failed("Cannot synchronize without directory")
                } else {
                    SyncError::failed("Cannot synchronize files outside of the source directory")
                },
            );
        }
        let d = self.dir.as_ref().unwrap();
        let mut plan = rm_dirs_and_files(&d.target_path, listing);
        append_tasks(
            &mut plan,
            self.subdir(d, "modified", self.ignore_modified, &self.modified, self.modified.len() == 0),
        );
        append_tasks(
            &mut plan,
            self.subdir(
                d,
                "unversioned",
                self.ignore_unversioned,
                &self.unversioned,
                self.unversioned.len() == 0 && d.dirs.len() == 0,
            ),
        );
        let mut v: Vec<Stage> = Vec::new();
        v.push(Stage { tasks: plan, on_fail: OnFail::Abort, follow_up: false });
        assert(stages(v@) =~= single(self.distilled(listing@)));
        Ok(v)
    }

    /// Whether the directory is distilled rather than backed up like a
    /// plain one.
    pub open spec fn distills(self) -> bool {
        !self.full && self.probed
    }

    /// Backs the directory up into a fresh target.
    pub fn dup(&self, listing: &Vec<RawEntry>) -> (r: Result<Vec<Stage>, SyncError>)
        ensures
            self.distills() ==> r.is_ok() == self.wf(),
            self.distills() ==> (r matches Ok(v) ==> stages(v@) == single(
                self.distilled(listing@),
            )),
            !self.distills() ==> r.is_ok() == bound_and_sound(self.dir),
            !self.distills() ==> (r matches Ok(v) ==> stages(v@) == single(
                self.dir.unwrap()@.dup_plan(),
            )),
            r matches Err(e) ==> e matches SyncError::Failed(m) && m@ == unbound_reason(self.dir),
    {
        if !self.full && self.probed {
            self.dup_all(listing)
        } else {
            plain_dup(&self.dir)
        }
    }

    /// Backs the directory up into a target that is there.
    pub fn merge(&self, listing: &Vec<RawEntry>, found: &Vec<Compared>) -> (r: Result<
        Vec<Stage>,
        SyncError,
    >)
        ensures
            self.distills() ==> r.is_ok() == self.wf(),
            self.distills() ==> (r matches Ok(v) ==> stages(v@) == single(
                self.distilled(listing@),
            )),
            !self.distills() ==> r.is_ok() == fits(self.dir, found@),
            !self.distills() ==> (r matches Ok(v) ==> stages(v@) == single(
                self.dir.unwrap()@.merge_plan(found@),
            )),
            r matches Err(e) ==> e matches SyncError::Failed(m) && m@ == (if !self.distills()
                && bound_and_sound(self.dir) {
                "Cannot merge without the state of every file"@
            } else {
                unbound_reason(self.dir)
            }),
    {
        if !self.full && self.probed {
            self.dup_all(listing)
        } else {
            plain_merge(&self.dir, found)
        }
    }
}

} // verus!
