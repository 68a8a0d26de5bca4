use vstd::prelude::*;

verus! {

/// `getopts::Matches`: the arguments of a command line, parsed. Nothing is
/// known of a value but what the functions below tell.
#[verifier::external_type_specification]
#[verifier::external_body]
pub struct ExMatches(getopts::Matches);

/// `getopts::Options`: the options that a command line may hold.
#[verifier::external_type_specification]
#[verifier::external_body]
pub struct ExOptions(getopts::Options);

/// The long names of the options that `opts` declares.
pub uninterp spec fn declared_options(opts: getopts::Options) -> Set<Seq<char>>;

/// The names under which `args` can be asked for an option: those that the
/// options it was parsed with had declared.
pub uninterp spec fn defined_options(args: getopts::Matches) -> Set<Seq<char>>;

/// The names of the options that occur in the parsed arguments.
pub uninterp spec fn given_options(args: getopts::Matches) -> Set<Seq<char>>;

/// `getopts::Options::optflag` with no short name: declares the optional
/// flag `--long`, which takes no argument. The call refuses a long name of
/// one character, and an option without any name fails later, when
/// arguments are parsed; both are left out here.
#[verifier::external_body]
pub(crate) fn declare_flag(opts: &mut getopts::Options, long: &str, desc: &str)
    requires
        long@.len() > 1,
    ensures
        declared_options(*final(opts)) == declared_options(*old(opts)).insert(long@),
{
    opts.optflag("", long, desc);
}

/// `getopts::Matches::opt_defined`: whether `name` can be asked for.
#[verifier::external_body]
fn opt_defined(args: &getopts::Matches, name: &str) -> (b: bool)
    ensures
        b == defined_options(*args).contains(name@),
{
    args.opt_defined(name)
}

/// `getopts::Matches::opt_present`: whether the option `name` occurs in the
/// parsed arguments. The call panics on a name that is not defined.
#[verifier::external_body]
fn opt_present(args: &getopts::Matches, name: &str) -> (b: bool)
    requires
        defined_options(*args).contains(name@),
    ensures
        b == given_options(*args).contains(name@),
{
    args.opt_present(name)
}

/// Whether the flag `name` is switched on in `args`.
pub open spec fn flag_set(args: getopts::Matches, name: Seq<char>) -> bool {
    defined_options(args).contains(name) && given_options(args).contains(name)
}

/// Reads one flag. A flag that the options never declared counts as off.
pub fn flag(args: &getopts::Matches, name: &str) -> (b: bool)
    ensures
        b == flag_set(*args, name@),
{
    opt_defined(args, name) && opt_present(args, name)
}

} // verus!
