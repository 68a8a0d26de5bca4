//! The session file: the arguments of a run, kept so that the run can be
//! repeated without naming them again.

use crate::text::{free_of, glued, lemma_glued_round_trip, pieces, same, split, texts};
use vstd::prelude::*;

verus! {

/// The byte that separates the arguments in the session file.
pub const SEPARATOR: char = '\0';

/// What was written to the session file reads back as it was: arguments
/// that hold no separator, glued and cut again, are the same arguments.
pub proof fn lemma_session_round_trip(args: Seq<Seq<char>>)
    requires
        args.len() >= 1,
        free_of(args, SEPARATOR),
    ensures
        pieces(glued(args, SEPARATOR), SEPARATOR) == args,
{
    lemma_glued_round_trip(args, SEPARATOR);
}

/// Writes the arguments as one text, separated by NUL.
pub fn encode(args: &Vec<String>) -> (s: String)
    ensures
        s@ == glued(texts(args@), SEPARATOR),
{
    let mut out = String::new();
    let mut i: usize = 0;
    let ghost all = texts(args@);
    assert(all.subrange(0, 0) =~= Seq::<Seq<char>>::empty());
    while i < args.len()
        invariant
            i <= args.len(),
            all == texts(args@),
            out@ == glued(all.subrange(0, i as int), SEPARATOR),
        decreases args.len() - i,
    {
        proof {
            let next = all.subrange(0, i + 1);
            assert(next.drop_last() =~= all.subrange(0, i as int));
            assert(next.last() == args@[i as int]@);
            reveal_strlit("\0");
            assert("\0"@ =~= seq![SEPARATOR]);
            if i > 0 {
                assert(out@ + seq![SEPARATOR] =~= out@.push(SEPARATOR));
            } else {
                assert(out@ + args@[i as int]@ =~= args@[i as int]@);
            }
        }
        if i > 0 {
            out.append("\0");
        }
        out.append(args[i].as_str());
        i = i + 1;
    }
    assert(all.subrange(0, i as int) =~= all);
    out
}

/// Reads the arguments back from the text of a session file.
pub fn decode(s: &str) -> (args: Vec<String>)
    ensures
        texts(args@) == pieces(s@, SEPARATOR),
{
    split(s, '\0')
}

/// The place of the first argument that is `short` or `long`; the number
/// of arguments if there is none.
pub open spec fn option_at(args: Seq<Seq<char>>, short: Seq<char>, long: Seq<char>) -> int
    decreases args.len(),
{
    if args.len() == 0 {
        0
    } else if args[0] == short || args[0] == long {
        0
    } else {
        1 + option_at(args.drop_first(), short, long)
    }
}

/// The arguments with the value of an option replaced: the argument behind
/// the first `short` or `long` becomes `value`. Without such an option, or
/// without an argument behind it, nothing changes.
pub open spec fn with_value(
    args: Seq<Seq<char>>,
    short: Seq<char>,
    long: Seq<char>,
    value: Seq<char>,
) -> Seq<Seq<char>> {
    let i = option_at(args, short, long);
    if i + 1 < args.len() {
        args.update(i + 1, value)
    } else {
        args
    }
}

/// Replaces the value of an option among the arguments, so that the
/// session file names a path in full.
pub fn set_option(args: &mut Vec<String>, short: &str, long: &str, value: &str)
    ensures
        texts(final(args)@) == with_value(texts(old(args)@), short@, long@, value@),
{
    let ghost all = texts(args@);
    let mut i: usize = 0;
    assert(all.subrange(0, all.len() as int) =~= all);
    while i < args.len()
        invariant
            i <= args.len(),
            args@ == old(args)@,
            all == texts(args@),
            option_at(all, short@, long@) == i + option_at(
                all.subrange(i as int, all.len() as int),
                short@,
                long@,
            ),
        decreases args.len() - i,
    {
        let ghost rest = all.subrange(i as int, all.len() as int);
        proof {
            assert(rest[0] == args@[i as int]@);
            assert(rest.drop_first() =~= all.subrange(i + 1, all.len() as int));
        }
        if same(args[i].as_str(), short) || same(args[i].as_str(), long) {
            if i + 1 < args.len() {
                let v = value.to_string();
                args[i + 1] = v;
                assert(texts(args@) =~= all.update(i + 1, value@));
            }
            return ;
        }
        i = i + 1;
    }
}

} // verus!
