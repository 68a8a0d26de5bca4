//! Yocto directories.

use super::{has_named, has_prefixed, named_in, prefixed_in, Category, Dir, DirView};
use crate::args::{declare_flag, declared_options, flag, flag_set};
use crate::path::{lemma_paths_push, paths, PathView, SyncPath};
use vstd::prelude::*;

verus! {

/// The flavour of a Yocto project directory.
#[derive(Debug)]
pub struct Yocto {
    /// The directory that the flavour is bound to.
    pub dir: Option<Dir>,
    /// Whether Yocto directories are left out of the backup.
    pub ignore: bool,
    /// Whether the downloads directory is left out.
    pub ignore_downloads: bool,
    /// Whether the build directories are left out.
    pub ignore_build: bool,
}

/// Whether `name` is the name of a build directory of Yocto.
pub open spec fn is_build_name(name: Option<Seq<char>>) -> bool {
    name == Some("build"@) || name == Some("BUILD"@) || name == Some("cache"@) || name == Some(
        "sstate-cache"@,
    ) || name == Some("buildhistory"@)
}

/// The index of the first path named `downloads`; the length of the
/// sequence if there is none.
pub open spec fn first_downloads(dirs: Seq<PathView>) -> int
    decreases dirs.len(),
{
    if dirs.len() == 0 {
        0
    } else if dirs[0].file_name() == Some("downloads"@) {
        0
    } else {
        1 + first_downloads(dirs.drop_first())
    }
}

/// The subdirectories without the first one named `downloads`: the last
/// subdirectory takes its place.
pub open spec fn without_downloads(dirs: Seq<PathView>) -> Seq<PathView> {
    let i = first_downloads(dirs);
    if i < dirs.len() {
        dirs.update(i, dirs.last()).drop_last()
    } else {
        dirs
    }
}

/// The subdirectories that are no build directories, in order.
pub open spec fn without_build(dirs: Seq<PathView>) -> Seq<PathView>
    decreases dirs.len(),
{
    if dirs.len() == 0 {
        dirs
    } else {
        let before = without_build(dirs.drop_last());
        if is_build_name(dirs.last().file_name()) {
            before
        } else {
            before.push(dirs.last())
        }
    }
}

/// The subdirectories that a Yocto flavour with these options descends
/// into.
pub open spec fn yocto_dirs(dirs: Seq<PathView>, ignore_downloads: bool, ignore_build: bool)
    -> Seq<PathView> {
    let a = if ignore_downloads {
        without_downloads(dirs)
    } else {
        dirs
    };
    if ignore_build {
        without_build(a)
    } else {
        a
    }
}

/// `first_downloads` finds a path of that name, and none stands before it.
pub proof fn lemma_first_downloads(dirs: Seq<PathView>)
    ensures
        0 <= first_downloads(dirs) <= dirs.len(),
        first_downloads(dirs) < dirs.len() ==> dirs[first_downloads(dirs)].file_name() == Some(
            "downloads"@,
        ),
        forall|k: int|
            0 <= k < first_downloads(dirs) ==> (#[trigger] dirs[k]).file_name() != Some(
                "downloads"@,
            ),
    decreases dirs.len(),
{
    if dirs.len() > 0 && dirs[0].file_name() != Some("downloads"@) {
        let rest = dirs.drop_first();
        lemma_first_downloads(rest);
        assert forall|k: int| 0 <= k < first_downloads(dirs) implies (#[trigger] dirs[k]).file_name()
            != Some("downloads"@) by {
            if k > 0 {
                assert(dirs[k] == rest[k - 1]);
            }
        }
        if first_downloads(dirs) < dirs.len() {
            assert(dirs[first_downloads(dirs)] == rest[first_downloads(rest)]);
        }
    }
}

/// No build directory is left among the subdirectories once they are
/// taken out.
pub proof fn lemma_without_build(dirs: Seq<PathView>)
    ensures
        forall|k: int|
            0 <= k < without_build(dirs).len() ==> !is_build_name(
                (#[trigger] without_build(dirs)[k]).file_name(),
            ),
    decreases dirs.len(),
{
    if dirs.len() > 0 {
        lemma_without_build(dirs.drop_last());
    }
}

/// Whether the last name of `p` is that of a build directory.
fn is_build_dir(p: &SyncPath) -> (r: bool)
    ensures
        r == is_build_name(p@.file_name()),
{
    p.is_named("build") || p.is_named("BUILD") || p.is_named("cache") || p.is_named(
        "sstate-cache",
    ) || p.is_named("buildhistory")
}

impl Yocto {
    /// The directories `bitbake` and `scripts` and one whose name starts
    /// with `meta` together mark a Yocto directory.
    pub open spec fn matches(d: DirView) -> bool {
        &&& named_in(d.dirs, "bitbake"@)
        &&& named_in(d.dirs, "scripts"@)
        &&& prefixed_in(d.dirs, "meta"@)
    }

    /// Declares the command line options of this flavour.
    pub fn init_opts(opts: &mut getopts::Options)
        ensures
            declared_options(*final(opts)) == declared_options(*old(opts)).insert(
                "yocto-ignore"@,
            ).insert("yocto-downloads-sync"@).insert("yocto-build-sync"@),
    {
        proof {
            reveal_strlit("yocto-ignore");
            reveal_strlit("yocto-downloads-sync");
            reveal_strlit("yocto-build-sync");
        }
        declare_flag(opts, "yocto-ignore", "Ignore Yocto directories");
        declare_flag(opts, "yocto-downloads-sync", "Sync downloads directory");
        declare_flag(opts, "yocto-build-sync", "Sync build directory");
    }

    /// Whether this is the template that the arguments ask for.
    pub open spec fn is_template_of(self, args: getopts::Matches) -> bool {
        &&& self.dir is None
        &&& self.ignore == flag_set(args, "yocto-ignore"@)
        &&& self.ignore_downloads == !flag_set(args, "yocto-downloads-sync"@)
        &&& self.ignore_build == !flag_set(args, "yocto-build-sync"@)
    }

    /// Builds the template of this flavour from the parsed arguments.
    pub fn template(args: &getopts::Matches) -> (t: Self)
        ensures
            t.is_template_of(*args),
    {
        Yocto {
            dir: None,
            ignore: flag(args, "yocto-ignore"),
            ignore_downloads: !flag(args, "yocto-downloads-sync"),
            ignore_build: !flag(args, "yocto-build-sync"),
        }
    }

    /// Probes whether the flavour matches the directory; if it does, an
    /// instance for the directory comes back.
    pub fn probe(&self, d: &Dir) -> (r: Option<Yocto>)
        ensures
            r.is_some() == Self::matches(d@),
            r matches Some(f) ==> f.same_options(*self) && f.dir is None,
    {
        if has_named(&d.dirs, "bitbake") && has_named(&d.dirs, "scripts") && has_prefixed(
            &d.dirs,
            "meta",
        ) {
            Some(self.build())
        } else {
            None
        }
    }

    /// Both flavours were given the same options.
    pub open spec fn same_options(self, other: Yocto) -> bool {
        self.ignore == other.ignore && self.ignore_downloads == other.ignore_downloads
            && self.ignore_build == other.ignore_build
    }

    /// Builds an instance with the options of this one and no directory.
    pub fn build(&self) -> (f: Yocto)
        ensures
            f.dir is None,
            f.same_options(*self),
    {
        Yocto {
            dir: None,
            ignore: self.ignore,
            ignore_downloads: self.ignore_downloads,
            ignore_build: self.ignore_build,
        }
    }

    /// Binds the flavour to a directory. The subdirectories that the
    /// options leave out are taken from the directory first: the downloads
    /// directory, and the build directories.
    pub fn set_dir(&mut self, d: Dir)
        ensures
            final(self).same_options(*old(self)),
            final(self).dir matches Some(b) && b@ == (DirView {
                dirs: yocto_dirs(d@.dirs, old(self).ignore_downloads, old(self).ignore_build),
                ..d@
            }),
    {
        let mut d = d;
        let ghost given = d@;
        if self.ignore_downloads {
            let mut i: usize = 0;
            let mut found = false;
            while i < d.dirs.len()
                invariant_except_break
                    !found,
                invariant
                    i <= d.dirs.len(),
                    d@ == given,
                    forall|k: int|
                        0 <= k < i ==> (#[trigger] given.dirs[k]).file_name() != Some(
                            "downloads"@,
                        ),
                ensures
                    d@ == given,
                    i <= d.dirs.len(),
                    found ==> i < d.dirs.len() && given.dirs[i as int].file_name() == Some(
                        "downloads"@,
                    ),
                    !found ==> i == d.dirs.len(),
                    forall|k: int|
                        0 <= k < i ==> (#[trigger] given.dirs[k]).file_name() != Some(
                            "downloads"@,
                        ),
                decreases d.dirs.len() - i,
            {
                if d.dirs[i].is_named("downloads") {
                    assert(given.dirs[i as int] == d.dirs@[i as int]@);
                    found = true;
                    break;
                }
                assert(given.dirs[i as int] == d.dirs@[i as int]@);
                i = i + 1;
            }
            proof {
                lemma_first_downloads(given.dirs);
                let at = first_downloads(given.dirs);
                if found {
                    if at > i {
                        assert(given.dirs[i as int].file_name() != Some("downloads"@));
                    }
                    assert(at == i);
                } else if at < given.dirs.len() {
                    assert(given.dirs[at].file_name() != Some("downloads"@));
                }
            }
            if found {
                d.dirs.swap_remove(i);
                assert(paths(d.dirs@) =~= without_downloads(given.dirs));
            }
        }
        let ghost mid = paths(d.dirs@);
        if self.ignore_build {
            let mut kept: Vec<SyncPath> = Vec::new();
            let mut j: usize = 0;
            assert(mid.subrange(0, 0) =~= Seq::<PathView>::empty());
            assert(paths(kept@) =~= Seq::<PathView>::empty());
            while j < d.dirs.len()
                invariant
                    j <= d.dirs.len(),
                    mid == paths(d.dirs@),
                    paths(kept@) == without_build(mid.subrange(0, j as int)),
                decreases d.dirs.len() - j,
            {
                proof {
                    assert(mid.subrange(0, j + 1).drop_last() =~= mid.subrange(0, j as int));
                    assert(mid.subrange(0, j + 1).last() == d.dirs@[j as int]@);
                }
                if !is_build_dir(&d.dirs[j]) {
                    let p = d.dirs[j].clone();
                    proof {
                        lemma_paths_push(kept@, p);
                    }
                    kept.push(p);
                }
                j = j + 1;
            }
            assert(mid.subrange(0, j as int) =~= mid);
            d.dirs = kept;
        }
        self.dir = Some(d);
    }

    /// The directory that the flavour is bound to.
    pub fn dir(&self) -> (d: &Option<Dir>)
        ensures
            *d == self.dir,
    {
        &self.dir
    }

    /// The name of the flavour.
    pub fn name(&self) -> (n: &'static str)
        ensures
            n@ == "Yocto"@,
    {
        "Yocto"
    }

    /// The category of the flavour.
    pub fn category(&self) -> (c: Category)
        ensures
            c == Category::Special,
    {
        Category::Special
    }

    /// Whether the directories below keep this flavour without being
    /// probed again.
    pub fn stay(&self) -> (b: bool)
        ensures
            b,
    {
        true
    }

    /// Recurse unless `--yocto-ignore` is set.
    pub fn recurse(&self) -> (b: bool)
        ensures
            b == !self.ignore,
    {
        !self.skip()
    }

    /// Skip if `--yocto-ignore` is set.
    pub fn skip(&self) -> (b: bool)
        ensures
            b == self.ignore,
    {
        self.ignore
    }
}

} // verus!
