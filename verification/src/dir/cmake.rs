//! CMake build directories.

use super::{has_named, named_in, Category, Dir, DirView};
use crate::args::{declare_flag, declared_options, flag, flag_set};
use vstd::prelude::*;

verus! {

/// The flavour of a CMake build directory. Such a directory is skipped
/// unless `--cmake-sync` asks for it.
#[derive(Debug)]
pub struct Cmake {
    /// The directory that the flavour is bound to.
    pub dir: Option<Dir>,
    /// Whether directories of this flavour are left out of the backup.
    pub ignore: bool,
}

impl Cmake {
    /// A file named `CMakeCache.txt` marks a CMake build directory.
    pub open spec fn matches(d: DirView) -> bool {
        named_in(d.files, "CMakeCache.txt"@)
    }

    /// Declares the command line options of this flavour.
    pub fn init_opts(opts: &mut getopts::Options)
        ensures
            declared_options(*final(opts)) == declared_options(*old(opts)).insert("cmake-sync"@),
    {
        proof {
            reveal_strlit("cmake-sync");
        }
        declare_flag(opts, "cmake-sync", "Sync CMake build directories");
    }

    /// Whether this is the template that the arguments ask for: without
    /// directory, and left out of the backup unless `--cmake-sync` is set.
    pub open spec fn is_template_of(self, args: getopts::Matches) -> bool {
        self.dir is None && self.ignore == !flag_set(args, "cmake-sync"@)
    }

    /// Builds the template of this flavour from the parsed arguments.
    pub fn template(args: &getopts::Matches) -> (t: Self)
        ensures
            t.is_template_of(*args),
    {
        Cmake { dir: None, ignore: !flag(args, "cmake-sync") }
    }

    /// Probes whether the flavour matches the directory; if it does, an
    /// instance for the directory comes back.
    pub fn probe(&self, d: &Dir) -> (r: Option<Cmake>)
        ensures
            r.is_some() == Self::matches(d@),
            r matches Some(f) ==> f.dir is None && f.ignore == self.ignore,
    {
        if has_named(&d.files, "CMakeCache.txt") {
            Some(self.build())
        } else {
            None
        }
    }

    /// Builds an instance with the options of this one and no directory.
    pub fn build(&self) -> (f: Cmake)
        ensures
            f.dir is None,
            f.ignore == self.ignore,
    {
        Cmake { dir: None, ignore: self.ignore }
    }

    /// Binds the flavour to a directory.
    pub fn set_dir(&mut self, d: Dir)
        ensures
            final(self).dir == Some(d),
            final(self).ignore == old(self).ignore,
    {
        self.dir = Some(d);
    }

    /// The directory that the flavour is bound to.
    pub fn dir(&self) -> (d: &Option<Dir>)
        ensures
            *d == self.dir,
    {
        &self.dir
    }

    /// The name of the flavour.
    pub fn name(&self) -> (n: &'static str)
        ensures
            n@ == "Cmake"@,
    {
        "Cmake"
    }

    /// The category of the flavour.
    pub fn category(&self) -> (c: Category)
        ensures
            c == Category::Build,
    {
        Category::Build
    }

    /// Whether the directories below keep this flavour without being
    /// probed again.
    pub fn stay(&self) -> (b: bool)
        ensures
            b,
    {
        true
    }

    /// Recurse if `--cmake-sync` is set.
    pub fn recurse(&self) -> (b: bool)
        ensures
            b == !self.ignore,
    {
        !self.skip()
    }

    /// Skip if `--cmake-sync` is not set.
    pub fn skip(&self) -> (b: bool)
        ensures
            b == self.ignore,
    {
        self.ignore
    }
}

} // verus!
