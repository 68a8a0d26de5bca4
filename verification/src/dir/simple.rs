//! Plain directories.

use super::{Category, Dir, DirView};
use vstd::prelude::*;

verus! {

/// The flavour of a plain directory: every directory that is nothing else.
#[derive(Debug)]
pub struct Simple {
    /// The directory that the flavour is bound to.
    pub dir: Option<Dir>,
}

impl Simple {
    /// Every directory is a plain directory.
    pub open spec fn matches(d: DirView) -> bool {
        true
    }

    /// A plain directory has no command line options.
    pub fn init_opts(opts: &mut getopts::Options)
        ensures
            *final(opts) == *old(opts),
    {
    }

    /// Whether this is the template that the arguments ask for: any
    /// arguments ask for the same.
    pub open spec fn is_template_of(self, args: getopts::Matches) -> bool {
        self.dir is None
    }

    /// Builds the template of this flavour.
    pub fn template(args: &getopts::Matches) -> (t: Self)
        ensures
            t.is_template_of(*args),
    {
        Simple { dir: None }
    }

    /// No probing, just return the constructed flavour.
    pub fn probe(&self, d: &Dir) -> (r: Option<Simple>)
        ensures
            r matches Some(f) && f.dir is None,
    {
        Some(self.build())
    }

    /// Builds an instance with no directory.
    pub fn build(&self) -> (f: Simple)
        ensures
            f.dir is None,
    {
        Simple { dir: None }
    }

    /// Binds the flavour to a directory.
    pub fn set_dir(&mut self, d: Dir)
        ensures
            final(self).dir == Some(d),
    {
        self.dir = Some(d);
    }

    /// The directory that the flavour is bound to.
    pub fn dir(&self) -> (d: &Option<Dir>)
        ensures
            *d == self.dir,
    {
        &self.dir
    }

    /// The name of the flavour.
    pub fn name(&self) -> (n: &'static str)
        ensures
            n@ == "Directory"@,
    {
        "Directory"
    }

    /// The category of the flavour.
    pub fn category(&self) -> (c: Category)
        ensures
            c == Category::Plain,
    {
        Category::Plain
    }

    /// The directories below are probed anew.
    pub fn stay(&self) -> (b: bool)
        ensures
            !b,
    {
        false
    }

    /// A plain directory is always descended into.
    pub fn recurse(&self) -> (b: bool)
        ensures
            b,
    {
        true
    }

    /// A plain directory is never skipped.
    pub fn skip(&self) -> (b: bool)
        ensures
            !b,
    {
        false
    }
}

} // verus!
