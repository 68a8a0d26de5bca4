//! Cargo build directories.

use super::{has_named, named_in, Category, Dir, DirView};
use crate::args::{declare_flag, declared_options, flag, flag_set};
use vstd::prelude::*;

verus! {

/// The flavour of a Cargo build directory. Such a directory is skipped
/// unless `--cargo-sync` asks for it.
#[derive(Debug)]
pub struct Cargo {
    /// The directory that the flavour is bound to.
    pub dir: Option<Dir>,
    /// Whether directories of this flavour are left out of the backup.
    pub ignore: bool,
}

impl Cargo {
    /// A file named `CACHEDIR.TAG` marks a Cargo build directory.
    pub open spec fn matches(d: DirView) -> bool {
        named_in(d.files, "CACHEDIR.TAG"@)
    }

    /// Declares the command line options of this flavour.
    pub fn init_opts(opts: &mut getopts::Options)
        ensures
            declared_options(*final(opts)) == declared_options(*old(opts)).insert("cargo-sync"@),
    {
        proof {
            reveal_strlit("cargo-sync");
        }
        declare_flag(opts, "cargo-sync", "Sync Cargo build directories");
    }

    /// Whether this is the template that the arguments ask for: without
    /// directory, and left out of the backup unless `--cargo-sync` is set.
    pub open spec fn is_template_of(self, args: getopts::Matches) -> bool {
        self.dir is None && self.ignore == !flag_set(args, "cargo-sync"@)
    }

    /// Builds the template of this flavour from the parsed arguments.
    pub fn template(args: &getopts::Matches) -> (t: Self)
        ensures
            t.is_template_of(*args),
    {
        Cargo { dir: None, ignore: !flag(args, "cargo-sync") }
    }

    /// Probes whether the flavour matches the directory; if it does, an
    /// instance for the directory comes back.
    pub fn probe(&self, d: &Dir) -> (r: Option<Cargo>)
        ensures
            r.is_some() == Self::matches(d@),
            r matches Some(f) ==> f.dir is None && f.ignore == self.ignore,
    {
        if has_named(&d.files, "CACHEDIR.TAG") {
            Some(self.build())
        } else {
            None
        }
    }

    /// Builds an instance with the options of this one and no directory.
    pub fn build(&self) -> (f: Cargo)
        ensures
            f.dir is None,
            f.ignore == self.ignore,
    {
        Cargo { dir: None, ignore: self.ignore }
    }

    /// Binds the flavour to a directory.
    pub fn set_dir(&mut self, d: Dir)
        ensures
            final(self).dir == Some(d),
            final(self).ignore == old(self).ignore,
    {
        self.dir = Some(d);
    }

    /// The directory that the flavour is bound to.
    pub fn dir(&self) -> (d: &Option<Dir>)
        ensures
            *d == self.dir,
    {
        &self.dir
    }

    /// The name of the flavour.
    pub fn name(&self) -> (n: &'static str)
        ensures
            n@ == "Cargo"@,
    {
        "Cargo"
    }

    /// The category of the flavour.
    pub fn category(&self) -> (c: Category)
        ensures
            c == Category::Build,
    {
        Category::Build
    }

    /// Whether the directories below keep this flavour without being
    /// probed again.
    pub fn stay(&self) -> (b: bool)
        ensures
            b,
    {
        true
    }

    /// Recurse if `--cargo-sync` is set.
    pub fn recurse(&self) -> (b: bool)
        ensures
            b == !self.ignore,
    {
        !self.skip()
    }

    /// Skip if `--cargo-sync` is not set.
    pub fn skip(&self) -> (b: bool)
        ensures
            b == self.ignore,
    {
        self.ignore
    }
}

} // verus!
