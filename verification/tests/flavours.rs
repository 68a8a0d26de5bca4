use devsync::dir::git::Git;
use devsync::dir::svn::Svn;
use devsync::dir::{
    Cargo, Category, Cmake, Dir, Flavour, Flutter, Meson, Ninja, Simple, Sysroot, Yocto,
};
use devsync::path::SyncPath;
use devsync::Config;

fn p(s: &str) -> SyncPath {
    SyncPath::parse(s)
}

fn dir(dirs: &[&str], files: &[&str]) -> Dir {
    let mut d = Dir::new(0, Config::new(1, false, false, false, vec![]).unwrap())
        .set_src_path(p("/s"))
        .set_target_path(p("/t"));
    d.dirs = dirs.iter().map(|n| p("/s").child(n)).collect();
    d.files = files.iter().map(|n| p("/s").child(n)).collect();
    d
}

fn parse(args: &[&str]) -> getopts::Matches {
    let mut opts = getopts::Options::new();
    Yocto::init_opts(&mut opts);
    Sysroot::init_opts(&mut opts);
    Cmake::init_opts(&mut opts);
    Flutter::init_opts(&mut opts);
    Meson::init_opts(&mut opts);
    Ninja::init_opts(&mut opts);
    Cargo::init_opts(&mut opts);
    Git::init_opts(&mut opts);
    Svn::init_opts(&mut opts);
    Simple::init_opts(&mut opts);
    opts.parse(args).unwrap()
}

#[test]
fn probe_cmake() {
    let t = Cmake::template(&parse(&[]));
    assert!(t.probe(&dir(&[], &["CMakeCache.txt", "Makefile"])).is_some());
    assert!(t.probe(&dir(&["CMakeCache.txt"], &["Makefile"])).is_none());
    assert!(t.probe(&dir(&[], &["cmakecache.txt"])).is_none());
    assert!(t.probe(&dir(&[], &[])).is_none());
}

#[test]
fn probe_meson() {
    let t = Meson::template(&parse(&[]));
    assert!(t.probe(&dir(&[], &["meson-private", "meson-info", "x", "meson-logs"])).is_some());
    assert!(t.probe(&dir(&[], &["meson-info", "meson-logs"])).is_none());
    assert!(t.probe(&dir(&["meson-info", "meson-logs", "meson-private"], &[])).is_none());
}

#[test]
fn probe_ninja_and_cargo() {
    let n = Ninja::template(&parse(&[]));
    assert!(n.probe(&dir(&[], &["build.ninja"])).is_some());
    assert!(n.probe(&dir(&[], &["build.ninja.bak"])).is_none());
    let c = Cargo::template(&parse(&[]));
    assert!(c.probe(&dir(&["debug"], &["CACHEDIR.TAG"])).is_some());
    assert!(c.probe(&dir(&["debug"], &[])).is_none());
}

#[test]
fn probe_flutter() {
    let t = Flutter::template(&parse(&[]));
    assert!(t.probe(&dir(&[], &["a", "app.cache.dill.track.dill"])).is_some());
    assert!(t.probe(&dir(&[], &[".cache.dill.track.dill"])).is_some());
    assert!(t.probe(&dir(&[], &["app.cache.dill"])).is_none());
    assert!(t.probe(&dir(&["app.cache.dill.track.dill"], &[])).is_none());
}

#[test]
fn probe_git_and_svn() {
    let g = Git::template(&parse(&[]));
    assert!(g.probe(&dir(&["src", ".git"], &[])).is_some());
    assert!(g.probe(&dir(&["src"], &[".git"])).is_none());
    let s = Svn::template(&parse(&[]));
    let hit = s.probe(&dir(&[".svn"], &[])).unwrap();
    assert!(hit.probed);
    assert!(!s.build().probed);
    assert!(s.probe(&dir(&[".git"], &[])).is_none());
}

#[test]
fn probe_yocto() {
    let t = Yocto::template(&parse(&[]));
    assert!(t.probe(&dir(&["bitbake", "meta-foo", "scripts"], &[])).is_some());
    assert!(t.probe(&dir(&["scripts", "meta", "bitbake"], &[])).is_some());
    assert!(t.probe(&dir(&["bitbake", "scripts"], &[])).is_none());
    assert!(t.probe(&dir(&["bitbake", "meta-foo"], &[])).is_none());
    assert!(t.probe(&dir(&["scripts", "meta-foo"], &[])).is_none());
    assert!(t.probe(&dir(&["bitbake", "scripts", "metadata"], &[])).is_some());
    assert!(t.probe(&dir(&[], &["bitbake", "scripts", "meta-foo"])).is_none());
}

#[test]
fn probe_sysroot() {
    let t = Sysroot::template(&parse(&[]));
    assert!(t.probe(&dir(&["var", "usr", "lib", "etc", "bin", "home"], &[])).is_some());
    assert!(t.probe(&dir(&["usr", "lib", "etc", "bin"], &[])).is_none());
    assert!(t.probe(&dir(&["var", "usr", "lib", "etc"], &["bin"])).is_none());
}

#[test]
fn probe_plain_always_hits() {
    let t = Simple::template(&parse(&[]));
    assert!(t.probe(&dir(&[], &[])).is_some());
    assert!(t.probe(&dir(&[".git"], &["CMakeCache.txt"])).is_some());
}

#[test]
fn build_kinds_are_skipped_unless_asked_for() {
    let off = parse(&[]);
    let on = parse(&["--cmake-sync", "--meson-sync", "--ninja-sync", "--cargo-sync", "--flutter-sync"]);
    let c = Cmake::template(&off);
    assert!(c.skip() && !c.recurse() && c.stay());
    assert_eq!((c.name(), c.category()), ("Cmake", Category::Build));
    let c = Cmake::template(&on);
    assert!(!c.skip() && c.recurse() && c.stay());
    assert!(Meson::template(&off).skip() && !Meson::template(&on).skip());
    assert!(Ninja::template(&off).skip() && !Ninja::template(&on).skip());
    assert!(Cargo::template(&off).skip() && !Cargo::template(&on).skip());
    assert!(Flutter::template(&off).skip() && !Flutter::template(&on).skip());
    assert_eq!(Meson::template(&off).name(), "Meson");
    assert_eq!(Ninja::template(&off).name(), "Ninja");
    assert_eq!(Cargo::template(&off).name(), "Cargo");
    assert_eq!(Flutter::template(&off).name(), "Flutter");
    // one flag switches one flavour
    let one = parse(&["--ninja-sync"]);
    assert!(Cmake::template(&one).skip() && !Ninja::template(&one).skip());
}

#[test]
fn policies_of_git() {
    let g = Git::template(&parse(&[]));
    assert!(!g.skip() && !g.recurse() && !g.stay());
    assert_eq!((g.name(), g.category()), ("Git", Category::Repository));
    let g = Git::template(&parse(&["--git-full", "--git-ignore"]));
    assert!(g.skip() && g.recurse() && !g.stay());
    let g = Git::template(&parse(&["--git-ignore-stashes", "--git-ignore-unpushed"]));
    assert!(g.ignore_stashes && g.ignore_unpushed && !g.ignore_untracked && !g.ignore_unstaged);
    let g = Git::template(&parse(&["--git-ignore-untracked", "--git-ignore-unstaged"]));
    assert!(!g.ignore_stashes && !g.ignore_unpushed && g.ignore_untracked && g.ignore_unstaged);
}

#[test]
fn policies_of_svn() {
    let s = Svn::template(&parse(&[]));
    assert!(!s.skip() && s.recurse() && s.stay());
    assert_eq!((s.name(), s.category()), ("Subversion", Category::Repository));
    let s = Svn::template(&parse(&["--svn-full"]));
    assert!(!s.skip() && s.recurse() && !s.stay());
    let s = Svn::template(&parse(&["--svn-ignore", "--svn-ignore-modified"]));
    assert!(s.skip() && !s.recurse() && s.ignore_modified && !s.ignore_unversioned);
    let s = Svn::template(&parse(&["--svn-ignore-unversioned"]));
    assert!(!s.ignore_modified && s.ignore_unversioned);
}

#[test]
fn policies_of_yocto_sysroot_and_plain() {
    let y = Yocto::template(&parse(&[]));
    assert!(!y.skip() && y.recurse() && y.stay() && y.ignore_downloads && y.ignore_build);
    assert_eq!((y.name(), y.category()), ("Yocto", Category::Special));
    let y = Yocto::template(&parse(&["--yocto-ignore", "--yocto-downloads-sync"]));
    assert!(y.skip() && !y.recurse() && !y.ignore_downloads && y.ignore_build);
    let y = Yocto::template(&parse(&["--yocto-build-sync"]));
    assert!(y.ignore_downloads && !y.ignore_build);
    let s = Sysroot::template(&parse(&[]));
    assert!(s.skip() && !s.recurse() && s.stay());
    assert_eq!((s.name(), s.category()), ("Sysroot", Category::Special));
    assert!(!Sysroot::template(&parse(&["--sysroot-sync"])).skip());
    let d = Simple::template(&parse(&[]));
    assert!(!d.skip() && d.recurse() && !d.stay());
    assert_eq!((d.name(), d.category()), ("Directory", Category::Plain));
}

#[test]
fn a_flag_that_was_never_declared_counts_as_off() {
    let mut opts = getopts::Options::new();
    Cmake::init_opts(&mut opts);
    let m = opts.parse(["--cmake-sync"]).unwrap();
    assert!(!Cmake::template(&m).skip());
    assert!(!Git::template(&m).full);
    assert!(Ninja::template(&m).skip());
}

#[test]
fn yocto_leaves_downloads_and_build_directories_out() {
    let given = dir(&["downloads", "meta-a", "build", "bitbake", "cache", "scripts", "sstate-cache",
        "BUILD", "buildhistory", "sources"], &[]);
    let mut y = Yocto::template(&parse(&[]));
    y.set_dir(given.duplicate());
    let left: Vec<String> = y.dir().as_ref().unwrap().dirs.iter().map(|d| d.file_name().unwrap()).collect();
    // the last directory takes the place of downloads; the build
    // directories leave in order
    assert_eq!(left, vec!["sources", "meta-a", "bitbake", "scripts"]);
    let mut y = Yocto::template(&parse(&["--yocto-downloads-sync"]));
    y.set_dir(given.duplicate());
    let left: Vec<String> = y.dir().as_ref().unwrap().dirs.iter().map(|d| d.file_name().unwrap()).collect();
    assert_eq!(left, vec!["downloads", "meta-a", "bitbake", "scripts", "sources"]);
    let mut y = Yocto::template(&parse(&["--yocto-downloads-sync", "--yocto-build-sync"]));
    y.set_dir(given.duplicate());
    assert_eq!(y.dir().as_ref().unwrap().dirs, given.dirs);
    let mut y = Yocto::template(&parse(&["--yocto-build-sync"]));
    y.set_dir(dir(&["a", "downloads", "b", "downloads"], &[]));
    let left: Vec<String> = y.dir().as_ref().unwrap().dirs.iter().map(|d| d.file_name().unwrap()).collect();
    assert_eq!(left, vec!["a", "downloads", "b"]);
}

#[test]
fn the_enum_answers_like_its_flavour() {
    let m = parse(&["--git-full"]);
    let g = Flavour::Git(Git::template(&m));
    assert_eq!((g.name(), g.category()), ("Git", Category::Repository));
    assert!(g.recurse() && !g.skip() && !g.stay());
    let b = g.build();
    assert!(matches!(&b, Flavour::Git(x) if x.full && x.dir.is_none()));
    let mut s = Flavour::Simple(Simple::template(&m));
    assert!(s.dir().is_none());
    s.set_dir(dir(&["a"], &["b"]));
    assert_eq!(s.dir().as_ref().unwrap().dirs, vec![p("/s/a")]);
    assert!(s.probe(&dir(&[], &[])).is_some());
    assert!(Flavour::Cmake(Cmake::template(&m)).probe(&dir(&[], &[])).is_none());
}
