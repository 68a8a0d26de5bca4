//! The flavours as one closed set, and what is asked of every flavour.

use super::git::GitFacts;
use super::{
    bound_and_sound, fits, unbound_reason, plain_dup, plain_merge, plain_prepare, single, Cargo, Category, Cmake,
    Compared, Dir, DirView, Flutter, Git, Meson, Ninja, Prepared, Simple, Svn, SyncMethod, Sysroot,
    TargetState, Yocto,
};
use crate::utils::{stages, tasks, RawEntry, Stage, StageView, SyncError};
use vstd::prelude::*;

verus! {

/// A flavour: how directories of one kind are detected and backed up.
#[derive(Debug)]
pub enum Flavour {
    Yocto(Yocto),
    Sysroot(Sysroot),
    Cmake(Cmake),
    Flutter(Flutter),
    Meson(Meson),
    Ninja(Ninja),
    Cargo(Cargo),
    Git(Git),
    Svn(Svn),
    Simple(Simple),
}

/// What was found on disk for the directory that is to be processed.
#[derive(Debug)]
pub struct Found {
    /// What the target directory holds.
    pub listing: Vec<RawEntry>,
    /// Each file of the directory, and its copy in the target.
    pub compared: Vec<Compared>,
    /// What was read from the repository, where the directory is one.
    pub git: GitFacts,
}

/// What is to be read from the disk before a directory is processed.
#[derive(PartialEq, Eq, Clone, Copy, Debug, Structural)]
pub struct Reads {
    /// The stashes, the status and the branches of the repository.
    pub git: bool,
    /// The state of each file and of its copy in the target.
    pub compared: bool,
}

impl Flavour {
    /// Whether the flavour distills its directory rather than backing it up
    /// file by file: a Git repository and the root of a Subversion working
    /// copy are distilled unless a full backup is asked for.
    pub open spec fn distills(self) -> bool {
        match self {
            Flavour::Git(g) => !g.full,
            Flavour::Svn(s) => s.distills(),
            _ => false,
        }
    }

    /// Tells what is to be read before the directory is processed by
    /// `method`: the repository where a Git repository is distilled, and the
    /// state of the files where the directory is merged file by file.
    pub fn reads(&self, method: SyncMethod) -> (r: Reads)
        ensures
            r.git == (self is Git && self.distills()),
            r.compared == (!self.distills() && method == SyncMethod::Merge),
    {
        let distills = match self {
            Flavour::Git(g) => !g.full,
            Flavour::Svn(s) => !s.full && s.probed,
            _ => false,
        };
        let git = match self {
            Flavour::Git(_) => distills,
            _ => false,
        };
        Reads { git, compared: !distills && method == SyncMethod::Merge }
    }

    /// The directory that the flavour is bound to.
    pub open spec fn dir_of(self) -> Option<Dir> {
        match self {
            Flavour::Yocto(f) => f.dir,
            Flavour::Sysroot(f) => f.dir,
            Flavour::Cmake(f) => f.dir,
            Flavour::Flutter(f) => f.dir,
            Flavour::Meson(f) => f.dir,
            Flavour::Ninja(f) => f.dir,
            Flavour::Cargo(f) => f.dir,
            Flavour::Git(f) => f.dir,
            Flavour::Svn(f) => f.dir,
            Flavour::Simple(f) => f.dir,
        }
    }

    /// The name of the flavour.
    pub open spec fn name_of(self) -> Seq<char> {
        match self {
            Flavour::Yocto(f) => "Yocto"@,
            Flavour::Sysroot(f) => "Sysroot"@,
            Flavour::Cmake(f) => "Cmake"@,
            Flavour::Flutter(f) => "Flutter"@,
            Flavour::Meson(f) => "Meson"@,
            Flavour::Ninja(f) => "Ninja"@,
            Flavour::Cargo(f) => "Cargo"@,
            Flavour::Git(f) => "Git"@,
            Flavour::Svn(f) => "Subversion"@,
            Flavour::Simple(f) => "Directory"@,
        }
    }

    /// The category of the flavour.
    pub open spec fn category_of(self) -> Category {
        match self {
            Flavour::Yocto(f) => Category::Special,
            Flavour::Sysroot(f) => Category::Special,
            Flavour::Cmake(f) => Category::Build,
            Flavour::Flutter(f) => Category::Build,
            Flavour::Meson(f) => Category::Build,
            Flavour::Ninja(f) => Category::Build,
            Flavour::Cargo(f) => Category::Build,
            Flavour::Git(f) => Category::Repository,
            Flavour::Svn(f) => Category::Repository,
            Flavour::Simple(f) => Category::Plain,
        }
    }

    /// Whether the directories below a directory of this flavour keep the
    /// flavour without being probed.
    pub open spec fn stays(self) -> bool {
        match self {
            Flavour::Yocto(f) => true,
            Flavour::Sysroot(f) => true,
            Flavour::Cmake(f) => true,
            Flavour::Flutter(f) => true,
            Flavour::Meson(f) => true,
            Flavour::Ninja(f) => true,
            Flavour::Cargo(f) => true,
            Flavour::Git(f) => false,
            Flavour::Svn(f) => !f.full,
            Flavour::Simple(f) => false,
        }
    }

    /// Whether the scan descends into a directory of this flavour.
    pub open spec fn recurses(self) -> bool {
        match self {
            Flavour::Yocto(f) => !f.ignore,
            Flavour::Sysroot(f) => !f.ignore,
            Flavour::Cmake(f) => !f.ignore,
            Flavour::Flutter(f) => !f.ignore,
            Flavour::Meson(f) => !f.ignore,
            Flavour::Ninja(f) => !f.ignore,
            Flavour::Cargo(f) => !f.ignore,
            Flavour::Git(f) => f.full,
            Flavour::Svn(f) => !f.ignore,
            Flavour::Simple(f) => true,
        }
    }

    /// Whether a directory of this flavour is left out of the backup.
    pub open spec fn skips(self) -> bool {
        match self {
            Flavour::Yocto(f) => f.ignore,
            Flavour::Sysroot(f) => f.ignore,
            Flavour::Cmake(f) => f.ignore,
            Flavour::Flutter(f) => f.ignore,
            Flavour::Meson(f) => f.ignore,
            Flavour::Ninja(f) => f.ignore,
            Flavour::Cargo(f) => f.ignore,
            Flavour::Git(f) => f.ignore,
            Flavour::Svn(f) => f.ignore,
            Flavour::Simple(f) => false,
        }
    }

    /// Whether the flavour takes the directory for one of its kind.
    pub open spec fn matches(self, d: DirView) -> bool {
        match self {
            Flavour::Yocto(f) => Yocto::matches(d),
            Flavour::Sysroot(f) => Sysroot::matches(d),
            Flavour::Cmake(f) => Cmake::matches(d),
            Flavour::Flutter(f) => Flutter::matches(d),
            Flavour::Meson(f) => Meson::matches(d),
            Flavour::Ninja(f) => Ninja::matches(d),
            Flavour::Cargo(f) => Cargo::matches(d),
            Flavour::Git(f) => Git::matches(d),
            Flavour::Svn(f) => Svn::matches(d),
            Flavour::Simple(f) => Simple::matches(d),
        }
    }

    /// Whether both are flavours of the same kind with the same options.
    pub open spec fn options_of(self, other: Flavour) -> bool {
        match (self, other) {
            (Flavour::Yocto(a), Flavour::Yocto(b)) => a.same_options(b),
            (Flavour::Sysroot(a), Flavour::Sysroot(b)) => a.ignore == b.ignore,
            (Flavour::Cmake(a), Flavour::Cmake(b)) => a.ignore == b.ignore,
            (Flavour::Flutter(a), Flavour::Flutter(b)) => a.ignore == b.ignore,
            (Flavour::Meson(a), Flavour::Meson(b)) => a.ignore == b.ignore,
            (Flavour::Ninja(a), Flavour::Ninja(b)) => a.ignore == b.ignore,
            (Flavour::Cargo(a), Flavour::Cargo(b)) => a.ignore == b.ignore,
            (Flavour::Git(a), Flavour::Git(b)) => a.same_options(b),
            (Flavour::Svn(a), Flavour::Svn(b)) => a.same_options(b),
            (Flavour::Simple(a), Flavour::Simple(b)) => true,
            _ => false,
        }
    }

    /// Whether `self` is what `template` builds: the same flavour with the
    /// same options, and no directory or files.
    pub open spec fn built_from(self, template: Flavour) -> bool {
        self.dir_of() is None && self.options_of(template) && (self matches Flavour::Svn(s)
            ==> s.blank())
    }

    /// Whether this is the template of its flavour that the arguments ask
    /// for.
    pub open spec fn is_template_of(self, args: getopts::Matches) -> bool {
        match self {
            Flavour::Yocto(f) => f.is_template_of(args),
            Flavour::Sysroot(f) => f.is_template_of(args),
            Flavour::Cmake(f) => f.is_template_of(args),
            Flavour::Flutter(f) => f.is_template_of(args),
            Flavour::Meson(f) => f.is_template_of(args),
            Flavour::Ninja(f) => f.is_template_of(args),
            Flavour::Cargo(f) => f.is_template_of(args),
            Flavour::Git(f) => f.is_template_of(args),
            Flavour::Svn(f) => f.is_template_of(args),
            Flavour::Simple(f) => f.is_template_of(args),
        }
    }

    /// Whether the instance came of a probe rather than of a build. Only
    /// Subversion tells the two apart.
    pub open spec fn probed(self) -> bool {
        match self {
            Flavour::Svn(f) => f.probed,
            _ => true,
        }
    }

    /// Probe if the flavour matches the given directory.
    pub fn probe(&self, d: &Dir) -> (r: Option<Flavour>)
        ensures
            r.is_some() == self.matches(d@),
            r matches Some(f) ==> f.built_from(*self) && f.policies_of(*self) && (f matches Flavour::Svn(
                s,
            ) ==> s.probed),
    {
        match self {
            Flavour::Yocto(f) => match f.probe(d) {
                Some(b) => Some(Flavour::Yocto(b)),
                None => None,
            },
            Flavour::Sysroot(f) => match f.probe(d) {
                Some(b) => Some(Flavour::Sysroot(b)),
                None => None,
            },
            Flavour::Cmake(f) => match f.probe(d) {
                Some(b) => Some(Flavour::Cmake(b)),
                None => None,
            },
            Flavour::Flutter(f) => match f.probe(d) {
                Some(b) => Some(Flavour::Flutter(b)),
                None => None,
            },
            Flavour::Meson(f) => match f.probe(d) {
                Some(b) => Some(Flavour::Meson(b)),
                None => None,
            },
            Flavour::Ninja(f) => match f.probe(d) {
                Some(b) => Some(Flavour::Ninja(b)),
                None => None,
            },
            Flavour::Cargo(f) => match f.probe(d) {
                Some(b) => Some(Flavour::Cargo(b)),
                None => None,
            },
            Flavour::Git(f) => match f.probe(d) {
                Some(b) => Some(Flavour::Git(b)),
                None => None,
            },
            Flavour::Svn(f) => match f.probe(d) {
                Some(b) => Some(Flavour::Svn(b)),
                None => None,
            },
            Flavour::Simple(f) => match f.probe(d) {
                Some(b) => Some(Flavour::Simple(b)),
                None => None,
            },
        }
    }

    /// Both flavours answer alike when asked for their name, their
    /// category and their policies.
    pub open spec fn policies_of(self, other: Flavour) -> bool {
        &&& self.name_of() == other.name_of()
        &&& self.category_of() == other.category_of()
        &&& self.stays() == other.stays()
        &&& self.recurses() == other.recurses()
        &&& self.skips() == other.skips()
    }

    /// Build the flavour: an instance with the options of this one and no
    /// directory.
    pub fn build(&self) -> (r: Flavour)
        ensures
            r.built_from(*self),
            r.policies_of(*self),
            r matches Flavour::Svn(s) ==> !s.probed,
    {
        match self {
            Flavour::Yocto(f) => Flavour::Yocto(f.build()),
            Flavour::Sysroot(f) => Flavour::Sysroot(f.build()),
            Flavour::Cmake(f) => Flavour::Cmake(f.build()),
            Flavour::Flutter(f) => Flavour::Flutter(f.build()),
            Flavour::Meson(f) => Flavour::Meson(f.build()),
            Flavour::Ninja(f) => Flavour::Ninja(f.build()),
            Flavour::Cargo(f) => Flavour::Cargo(f.build()),
            Flavour::Git(f) => Flavour::Git(f.build()),
            Flavour::Svn(f) => Flavour::Svn(f.build()),
            Flavour::Simple(f) => Flavour::Simple(f.build()),
        }
    }

    /// What binding to `d` makes of the directory: a Yocto flavour leaves
    /// out the subdirectories that its options rule out.
    pub open spec fn bound_dir(self, d: DirView) -> DirView {
        match self {
            Flavour::Yocto(f) => DirView {
                dirs: super::yocto::yocto_dirs(d.dirs, f.ignore_downloads, f.ignore_build),
                ..d
            },
            _ => d,
        }
    }

    /// Set the directory on the flavour.
    pub fn set_dir(&mut self, d: Dir)
        ensures
            final(self).dir_of() matches Some(b) && b@ == old(self).bound_dir(d@),
            final(self).policies_of(*old(self)),
            final(self).options_of(*old(self)),
            final(self).probed() == old(self).probed(),
    {
        match self {
            Flavour::Yocto(f) => f.set_dir(d),
            Flavour::Sysroot(f) => f.set_dir(d),
            Flavour::Cmake(f) => f.set_dir(d),
            Flavour::Flutter(f) => f.set_dir(d),
            Flavour::Meson(f) => f.set_dir(d),
            Flavour::Ninja(f) => f.set_dir(d),
            Flavour::Cargo(f) => f.set_dir(d),
            Flavour::Git(f) => f.set_dir(d),
            Flavour::Svn(f) => f.set_dir(d),
            Flavour::Simple(f) => f.set_dir(d),
        }
    }

    /// Get the directory from the flavour.
    pub fn dir(&self) -> (d: &Option<Dir>)
        ensures
            *d == self.dir_of(),
    {
        match self {
            Flavour::Yocto(f) => f.dir(),
            Flavour::Sysroot(f) => f.dir(),
            Flavour::Cmake(f) => f.dir(),
            Flavour::Flutter(f) => f.dir(),
            Flavour::Meson(f) => f.dir(),
            Flavour::Ninja(f) => f.dir(),
            Flavour::Cargo(f) => f.dir(),
            Flavour::Git(f) => f.dir(),
            Flavour::Svn(f) => f.dir(),
            Flavour::Simple(f) => f.dir(),
        }
    }

    /// Get the flavour name.
    pub fn name(&self) -> (n: &'static str)
        ensures
            n@ == self.name_of(),
    {
        match self {
            Flavour::Yocto(f) => f.name(),
            Flavour::Sysroot(f) => f.name(),
            Flavour::Cmake(f) => f.name(),
            Flavour::Flutter(f) => f.name(),
            Flavour::Meson(f) => f.name(),
            Flavour::Ninja(f) => f.name(),
            Flavour::Cargo(f) => f.name(),
            Flavour::Git(f) => f.name(),
            Flavour::Svn(f) => f.name(),
            Flavour::Simple(f) => f.name(),
        }
    }

    /// Get the flavour category.
    pub fn category(&self) -> (c: Category)
        ensures
            c == self.category_of(),
    {
        match self {
            Flavour::Yocto(f) => f.category(),
            Flavour::Sysroot(f) => f.category(),
            Flavour::Cmake(f) => f.category(),
            Flavour::Flutter(f) => f.category(),
            Flavour::Meson(f) => f.category(),
            Flavour::Ninja(f) => f.category(),
            Flavour::Cargo(f) => f.category(),
            Flavour::Git(f) => f.category(),
            Flavour::Svn(f) => f.category(),
            Flavour::Simple(f) => f.category(),
        }
    }

    /// Don't re-scan for sub-directories but keep this flavour.
    pub fn stay(&self) -> (b: bool)
        ensures
            b == self.stays(),
    {
        match self {
            Flavour::Yocto(f) => f.stay(),
            Flavour::Sysroot(f) => f.stay(),
            Flavour::Cmake(f) => f.stay(),
            Flavour::Flutter(f) => f.stay(),
            Flavour::Meson(f) => f.stay(),
            Flavour::Ninja(f) => f.stay(),
            Flavour::Cargo(f) => f.stay(),
            Flavour::Git(f) => f.stay(),
            Flavour::Svn(f) => f.stay(),
            Flavour::Simple(f) => f.stay(),
        }
    }

    /// If the scan shall recurse through the subdirectories.
    pub fn recurse(&self) -> (b: bool)
        ensures
            b == self.recurses(),
    {
        match self {
            Flavour::Yocto(f) => f.recurse(),
            Flavour::Sysroot(f) => f.recurse(),
            Flavour::Cmake(f) => f.recurse(),
            Flavour::Flutter(f) => f.recurse(),
            Flavour::Meson(f) => f.recurse(),
            Flavour::Ninja(f) => f.recurse(),
            Flavour::Cargo(f) => f.recurse(),
            Flavour::Git(f) => f.recurse(),
            Flavour::Svn(f) => f.recurse(),
            Flavour::Simple(f) => f.recurse(),
        }
    }

    /// If this directory shall be skipped, not synced.
    pub fn skip(&self) -> (b: bool)
        ensures
            b == self.skips(),
    {
        match self {
            Flavour::Yocto(f) => f.skip(),
            Flavour::Sysroot(f) => f.skip(),
            Flavour::Cmake(f) => f.skip(),
            Flavour::Flutter(f) => f.skip(),
            Flavour::Meson(f) => f.skip(),
            Flavour::Ninja(f) => f.skip(),
            Flavour::Cargo(f) => f.skip(),
            Flavour::Git(f) => f.skip(),
            Flavour::Svn(f) => f.skip(),
            Flavour::Simple(f) => f.skip(),
        }
    }

    /// Prepare for backup: the target directory is created where it is
    /// missing.
    pub fn prepare(&self, state: TargetState) -> (r: Result<Prepared, SyncError>)
        ensures
            r.is_ok() == self.dir_of().is_some(),
            r matches Ok(p) ==> p.method == (if state == TargetState::Present {
                SyncMethod::Merge
            } else {
                SyncMethod::Duplicate
            }) && tasks(p.plan@) == self.dir_of().unwrap()@.target_plan(state),
            r matches Err(e) ==> e matches SyncError::Failed(m) && m@
                == "Cannot prepare synchronization without directory"@,
    {
        plain_prepare(self.dir(), state)
    }

    /// The stages that back the directory up by `method`, given what was
    /// found on disk; nothing where the flavour cannot do so. A Git
    /// repository and the root of a Subversion working copy are distilled
    /// unless a full backup is asked for; any other directory is
    /// duplicated or merged file by file.
    pub open spec fn planned(self, method: SyncMethod, found: Found) -> Option<Seq<StageView>> {
        match self {
            Flavour::Git(g) if self.distills() => if g.dir is Some {
                Some(g.distilled(g.dir.unwrap()@, found.listing@, found.git))
            } else {
                None
            },
            Flavour::Svn(s) if self.distills() => if s.wf() {
                Some(single(s.distilled(found.listing@)))
            } else {
                None
            },
            _ => match method {
                SyncMethod::Duplicate => if bound_and_sound(self.dir_of()) {
                    Some(single(self.dir_of().unwrap()@.dup_plan()))
                } else {
                    None
                },
                SyncMethod::Merge => if fits(self.dir_of(), found.compared@) {
                    Some(single(self.dir_of().unwrap()@.merge_plan(found.compared@)))
                } else {
                    None
                },
            },
        }
    }

    /// Why the flavour cannot back its directory up, where it cannot.
    pub open spec fn refusal(self, method: SyncMethod) -> Seq<char> {
        if !self.distills() && method == SyncMethod::Merge && bound_and_sound(self.dir_of()) {
            "Cannot merge without the state of every file"@
        } else {
            unbound_reason(self.dir_of())
        }
    }

    /// Simply duplicate files for backup.
    pub fn dup(&self, found: &Found) -> (r: Result<Vec<Stage>, SyncError>)
        ensures
            r.is_ok() == self.planned(SyncMethod::Duplicate, *found).is_some(),
            r matches Ok(v) ==> stages(v@) == self.planned(SyncMethod::Duplicate, *found).unwrap(),
            r matches Err(e) ==> e matches SyncError::Failed(m) && m@ == self.refusal(
                SyncMethod::Duplicate,
            ),
    {
        match self {
            Flavour::Git(g) => g.dup(&found.listing, &found.git),
            Flavour::Svn(s) => s.dup(&found.listing),
            _ => plain_dup(self.dir()),
        }
    }

    /// Check if a file update is necessary before doing the backup.
    pub fn merge(&self, found: &Found) -> (r: Result<Vec<Stage>, SyncError>)
        ensures
            r.is_ok() == self.planned(SyncMethod::Merge, *found).is_some(),
            r matches Ok(v) ==> stages(v@) == self.planned(SyncMethod::Merge, *found).unwrap(),
            r matches Err(e) ==> e matches SyncError::Failed(m) && m@ == self.refusal(
                SyncMethod::Merge,
            ),
    {
        match self {
            Flavour::Git(g) => g.merge(&found.listing, &found.git, &found.compared),
            Flavour::Svn(s) => s.merge(&found.listing, &found.compared),
            _ => plain_merge(self.dir(), &found.compared),
        }
    }
}

} // verus!
