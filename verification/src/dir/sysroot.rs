//! Sysroot directories.

use super::{has_named, named_in, Category, Dir, DirView};
use crate::args::{declare_flag, declared_options, flag, flag_set};
use vstd::prelude::*;

verus! {

/// The flavour of a sysroot: the root of a system's file tree. Such a
/// directory is skipped unless `--sysroot-sync` asks for it.
#[derive(Debug)]
pub struct Sysroot {
    /// The directory that the flavour is bound to.
    pub dir: Option<Dir>,
    /// Whether directories of this flavour are left out of the backup.
    pub ignore: bool,
}

impl Sysroot {
    /// The directories `bin`, `etc`, `lib`, `usr` and `var` together mark a
    /// sysroot.
    pub open spec fn matches(d: DirView) -> bool {
        &&& named_in(d.dirs, "bin"@)
        &&& named_in(d.dirs, "etc"@)
        &&& named_in(d.dirs, "lib"@)
        &&& named_in(d.dirs, "usr"@)
        &&& named_in(d.dirs, "var"@)
    }

    /// Declares the command line options of this flavour.
    pub fn init_opts(opts: &mut getopts::Options)
        ensures
            declared_options(*final(opts)) == declared_options(*old(opts)).insert(
                "sysroot-sync"@,
            ),
    {
        proof {
            reveal_strlit("sysroot-sync");
        }
        declare_flag(opts, "sysroot-sync", "Sync Sysroot directories");
    }

    /// Whether this is the template that the arguments ask for: without
    /// directory, and left out of the backup unless `--sysroot-sync` is set.
    pub open spec fn is_template_of(self, args: getopts::Matches) -> bool {
        self.dir is None && self.ignore == !flag_set(args, "sysroot-sync"@)
    }

    /// Builds the template of this flavour from the parsed arguments.
    pub fn template(args: &getopts::Matches) -> (t: Self)
        ensures
            t.is_template_of(*args),
    {
        Sysroot { dir: None, ignore: !flag(args, "sysroot-sync") }
    }

    /// Probes whether the flavour matches the directory; if it does, an
    /// instance for the directory comes back.
    pub fn probe(&self, d: &Dir) -> (r: Option<Sysroot>)
        ensures
            r.is_some() == Self::matches(d@),
            r matches Some(f) ==> f.dir is None && f.ignore == self.ignore,
    {
        if has_named(&d.dirs, "bin") && has_named(&d.dirs, "etc") && has_named(&d.dirs, "lib")
            && has_named(&d.dirs, "usr") && has_named(&d.dirs, "var") {
            Some(self.build())
        } else {
            None
        }
    }

    /// Builds an instance with the options of this one and no directory.
    pub fn build(&self) -> (f: Sysroot)
        ensures
            f.dir is None,
            f.ignore == self.ignore,
    {
        Sysroot { dir: None, ignore: self.ignore }
    }

    /// Binds the flavour to a directory. Nothing of a sysroot is left out.
    pub fn set_dir(&mut self, d: Dir)
        ensures
            final(self).dir == Some(d),
            final(self).ignore == old(self).ignore,
    {
        self.dir = Some(d);
    }

    /// The directory that the flavour is bound to.
    pub fn dir(&self) -> (d: &Option<Dir>)
        ensures
            *d == self.dir,
    {
        &self.dir
    }

    /// The name of the flavour.
    pub fn name(&self) -> (n: &'static str)
        ensures
            n@ == "Sysroot"@,
    {
        "Sysroot"
    }

    /// The category of the flavour.
    pub fn category(&self) -> (c: Category)
        ensures
            c == Category::Special,
    {
        Category::Special
    }

    /// Whether the directories below keep this flavour without being
    /// probed again.
    pub fn stay(&self) -> (b: bool)
        ensures
            b,
    {
        true
    }

    /// Recurse if `--sysroot-sync` is set.
    pub fn recurse(&self) -> (b: bool)
        ensures
            b == !self.ignore,
    {
        !self.skip()
    }

    /// Skip if `--sysroot-sync` is not set.
    pub fn skip(&self) -> (b: bool)
        ensures
            b == self.ignore,
    {
        self.ignore
    }
}

} // verus!
