//! Paths as the engine sees them: a root marker and a sequence of names.
//! Every rule of the engine that speaks of a path (what lies below what,
//! where a file lands in the target, which name an entry has) is a rule on
//! such a sequence.

use crate::text::{
    chars_of, copy_texts, free_of, glued, lemma_glued_round_trip, lemma_texts_push, pieces, same,
    split, texts,
};
use vstd::prelude::*;

verus! {

/// What a path is: whether it starts at the root, and its names in order.
pub struct PathView {
    pub absolute: bool,
    pub parts: Seq<Seq<char>>,
}

/// The names of `parts`, written one after the other with `/` between them.
pub open spec fn joined(parts: Seq<Seq<char>>) -> Seq<char> {
    glued(parts, '/')
}

/// The pieces of `s` that are not empty.
pub open spec fn nonempty_pieces(s: Seq<Seq<char>>) -> Seq<Seq<char>> {
    s.filter(|p: Seq<char>| p.len() > 0)
}

/// The path that a text denotes: it starts at the root if the text starts
/// with `/`, and its names are what stands between the slashes.
pub open spec fn parsed(s: Seq<char>) -> PathView {
    PathView { absolute: s.len() > 0 && s[0] == '/', parts: nonempty_pieces(pieces(s, '/')) }
}

impl PathView {
    /// The last name, if there is one.
    pub open spec fn file_name(self) -> Option<Seq<char>> {
        if self.parts.len() > 0 {
            Some(self.parts.last())
        } else {
            None
        }
    }

    /// The path without its last name.
    pub open spec fn parent(self) -> Option<PathView> {
        if self.parts.len() > 0 {
            Some(PathView { absolute: self.absolute, parts: self.parts.drop_last() })
        } else {
            None
        }
    }

    /// The entry `name` directly below this path.
    pub open spec fn child(self, name: Seq<char>) -> PathView {
        PathView { absolute: self.absolute, parts: self.parts.push(name) }
    }

    /// `rel` seen from this path. A `rel` that starts at the root stands for
    /// itself.
    pub open spec fn join(self, rel: PathView) -> PathView {
        if rel.absolute {
            rel
        } else {
            PathView { absolute: self.absolute, parts: self.parts + rel.parts }
        }
    }

    /// Whether this path is `base` or lies below it.
    pub open spec fn starts_with(self, base: PathView) -> bool {
        &&& self.absolute == base.absolute
        &&& base.parts.len() <= self.parts.len()
        &&& self.parts.subrange(0, base.parts.len() as int) == base.parts
    }

    /// The way from `base` down to this path.
    pub open spec fn strip_prefix(self, base: PathView) -> PathView
        recommends
            self.starts_with(base),
    {
        PathView {
            absolute: false,
            parts: self.parts.subrange(base.parts.len() as int, self.parts.len() as int),
        }
    }

    /// The path as text.
    pub open spec fn rendered(self) -> Seq<char> {
        if self.absolute {
            seq!['/'] + joined(self.parts)
        } else {
            joined(self.parts)
        }
    }
}

impl PathView {
    /// Whether the path can be written down and read again: every name
    /// holds at least one character and no slash.
    pub open spec fn plain(self) -> bool {
        free_of(self.parts, '/') && forall|i: int|
            0 <= i < self.parts.len() ==> (#[trigger] self.parts[i]).len() > 0
    }
}

/// Filtering keeps a sequence as it is if every element passes.
proof fn lemma_filter_keeps_all(s: Seq<Seq<char>>, pred: spec_fn(Seq<char>) -> bool)
    requires
        forall|i: int| 0 <= i < s.len() ==> pred(#[trigger] s[i]),
    ensures
        s.filter(pred) == s,
    decreases s.len(),
{
    reveal(Seq::filter);
    if s.len() > 0 {
        assert forall|i: int| 0 <= i < s.drop_last().len() implies pred(
            #[trigger] s.drop_last()[i],
        ) by {
            assert(s.drop_last()[i] == s[i]);
        }
        lemma_filter_keeps_all(s.drop_last(), pred);
        assert(pred(s[s.len() - 1]));
        assert(s.drop_last().push(s.last()) =~= s);
    } else {
        assert(s.filter(pred) =~= s);
    }
}

/// Names glued behind an empty name read as a separator and the names.
proof fn lemma_glued_behind_empty(parts: Seq<Seq<char>>, sep: char)
    requires
        parts.len() >= 1,
    ensures
        glued(seq![Seq::<char>::empty()] + parts, sep) == seq![sep] + glued(parts, sep),
    decreases parts.len(),
{
    let all = seq![Seq::<char>::empty()] + parts;
    assert(all.drop_last() =~= seq![Seq::<char>::empty()] + parts.drop_last());
    assert(all.last() == parts.last());
    if parts.len() == 1 {
        assert(all.drop_last() =~= seq![Seq::<char>::empty()]);
        assert(glued(all.drop_last(), sep) =~= Seq::<char>::empty());
        assert(glued(all, sep) =~= seq![sep] + parts[0]);
    } else {
        lemma_glued_behind_empty(parts.drop_last(), sep);
        assert(glued(all, sep) =~= seq![sep] + glued(parts, sep));
    }
}

/// Glued names start with the first character of the first name.
proof fn lemma_glued_head(parts: Seq<Seq<char>>, sep: char)
    requires
        parts.len() >= 1,
        parts[0].len() > 0,
    ensures
        glued(parts, sep).len() > 0,
        glued(parts, sep)[0] == parts[0][0],
    decreases parts.len(),
{
    if parts.len() > 1 {
        assert(parts.drop_last()[0] == parts[0]);
        lemma_glued_head(parts.drop_last(), sep);
    }
}

/// A path reads back as it was written: rendering a path whose names are
/// plain, and parsing the text, gives the path.
pub proof fn lemma_path_round_trip(p: PathView)
    requires
        p.plain(),
    ensures
        parsed(p.rendered()) == p,
{
    let keep = |q: Seq<char>| q.len() > 0;
    let none = Seq::<char>::empty();
    let text = p.rendered();
    if p.parts.len() == 0 {
        reveal_with_fuel(Seq::filter, 3);
        if p.absolute {
            assert(text =~= seq!['/']);
            assert(text.drop_last() =~= none);
            assert(text.last() == '/');
            assert(pieces(none, '/') =~= seq![none]);
            assert(pieces(text, '/') == pieces(text.drop_last(), '/').push(none));
            assert(pieces(text, '/') =~= seq![none, none]);
            assert(seq![none, none].drop_last() =~= seq![none]);
            assert(seq![none].drop_last() =~= Seq::<Seq<char>>::empty());
            assert(seq![none, none].filter(keep) =~= Seq::<Seq<char>>::empty());
        } else {
            assert(text =~= none);
            assert(seq![none].drop_last() =~= Seq::<Seq<char>>::empty());
            assert(seq![none].filter(keep) =~= Seq::<Seq<char>>::empty());
        }
        assert(parsed(text).parts =~= p.parts);
    } else {
        lemma_filter_keeps_all(p.parts, keep);
        if p.absolute {
            let all = seq![none] + p.parts;
            lemma_glued_behind_empty(p.parts, '/');
            assert forall|i: int, j: int| 0 <= i < all.len() && 0 <= j < all[i].len() implies
                #[trigger] all[i][j] != '/' by {
                if i > 0 {
                    assert(all[i] == p.parts[i - 1]);
                    assert(p.parts[i - 1][j] != '/');
                }
            }
            lemma_glued_round_trip(all, '/');
            assert(pieces(text, '/') == all);
            Seq::filter_distributes_over_add(seq![none], p.parts, keep);
            reveal_with_fuel(Seq::filter, 2);
            assert(seq![none].drop_last() =~= Seq::<Seq<char>>::empty());
            assert(seq![none].filter(keep) =~= Seq::<Seq<char>>::empty());
            assert(all.filter(keep) =~= p.parts);
            assert(text[0] == '/');
        } else {
            lemma_glued_round_trip(p.parts, '/');
            lemma_glued_head(p.parts, '/');
            assert(p.parts[0][0] != '/');
        }
    }
}

/// A path of the source or of the target tree.
#[derive(Debug, PartialEq, Eq)]
pub struct SyncPath {
    pub absolute: bool,
    pub parts: Vec<String>,
}

impl View for SyncPath {
    type V = PathView;

    open spec fn view(&self) -> PathView {
        PathView { absolute: self.absolute, parts: texts(self.parts@) }
    }
}

/// The views of a sequence of paths.
pub open spec fn paths(v: Seq<SyncPath>) -> Seq<PathView> {
    v.map_values(|p: SyncPath| p@)
}

/// `paths` of a sequence that grew by one path.
pub proof fn lemma_paths_push(v: Seq<SyncPath>, p: SyncPath)
    ensures
        paths(v.push(p)) == paths(v).push(p@),
{
    assert(paths(v.push(p)) =~= paths(v).push(p@));
}

/// Joining a path with the way down to one of its descendants gives the
/// descendant back.
pub proof fn lemma_join_strip(p: PathView, base: PathView)
    requires
        p.starts_with(base),
    ensures
        base.join(p.strip_prefix(base)) == p,
{
    assert(base.parts + p.strip_prefix(base).parts =~= p.parts);
}

/// The way from a path down to something joined below it is what was joined.
pub proof fn lemma_strip_join(base: PathView, rel: PathView)
    requires
        !rel.absolute,
    ensures
        base.join(rel).starts_with(base),
        base.join(rel).strip_prefix(base) == rel,
{
    let j = base.join(rel);
    assert(j.parts.subrange(0, base.parts.len() as int) =~= base.parts);
    assert(j.parts.subrange(base.parts.len() as int, j.parts.len() as int) =~= rel.parts);
}

impl Clone for SyncPath {
    fn clone(&self) -> (r: Self)
        ensures
            r@ == self@,
    {
        SyncPath { absolute: self.absolute, parts: copy_texts(&self.parts) }
    }
}

impl SyncPath {
    /// A path from its names.
    pub fn new(absolute: bool, parts: Vec<String>) -> (r: Self)
        ensures
            r@ == (PathView { absolute, parts: texts(parts@) }),
    {
        SyncPath { absolute, parts }
    }

    /// Reads a path from text: names stand between slashes, and a leading
    /// slash makes the path start at the root.
    pub fn parse(s: &str) -> (r: Self)
        ensures
            r@ == parsed(s@),
    {
        let cs = chars_of(s);
        let absolute = cs.len() > 0 && cs[0] == '/';
        let all = split(s, '/');
        let mut parts: Vec<String> = Vec::new();
        let mut i: usize = 0;
        let ghost keep = |p: Seq<char>| p.len() > 0;
        while i < all.len()
            invariant
                i <= all.len(),
                keep == (|p: Seq<char>| p.len() > 0),
                texts(parts@) == texts(all@).subrange(0, i as int).filter(keep),
            decreases all.len() - i,
        {
            let ghost before = texts(all@).subrange(0, i as int);
            let ghost next = texts(all@).subrange(0, i + 1);
            proof {
                assert(next.drop_last() =~= before);
                assert(next.last() == all@[i as int]@);
                reveal(Seq::filter);
            }
            let n = all[i].as_str().unicode_len();
            if n > 0 {
                let name = all[i].clone();
                proof {
                    lemma_texts_push(parts@, name);
                }
                parts.push(name);
            }
            i = i + 1;
        }
        assert(texts(all@).subrange(0, i as int) =~= texts(all@));
        SyncPath { absolute, parts }
    }

    /// Writes the path as text, names separated by `/`.
    pub fn render(&self) -> (r: String)
        ensures
            r@ == self@.rendered(),
    {
        let mut out = String::new();
        let mut i: usize = 0;
        while i < self.parts.len()
            invariant
                i <= self.parts.len(),
                out@ == joined(texts(self.parts@).subrange(0, i as int)),
            decreases self.parts.len() - i,
        {
            let ghost before = texts(self.parts@).subrange(0, i as int);
            let ghost next = texts(self.parts@).subrange(0, i + 1);
            proof {
                assert(next.drop_last() =~= before);
                assert(next.last() == self.parts@[i as int]@);
                reveal_strlit("/");
                assert("/"@ =~= seq!['/']);
                if i == 0 {
                    assert(before =~= Seq::<Seq<char>>::empty());
                    assert(joined(next) =~= out@ + self.parts@[i as int]@);
                } else {
                    assert(out@ + seq!['/'] =~= out@.push('/'));
                }
            }
            if i > 0 {
                out.append("/");
            }
            out.append(self.parts[i].as_str());
            i = i + 1;
        }
        assert(texts(self.parts@).subrange(0, i as int) =~= texts(self.parts@));
        if self.absolute {
            let mut all = String::new();
            proof {
                reveal_strlit("/");
                assert("/"@ =~= seq!['/']);
            }
            all.append("/");
            all.append(out.as_str());
            assert(all@ =~= seq!['/'] + out@);
            all
        } else {
            out
        }
    }

    /// How many names the path has.
    pub fn depth(&self) -> (n: usize)
        ensures
            n == self@.parts.len(),
    {
        self.parts.len()
    }

    /// The last name, if there is one.
    pub fn file_name(&self) -> (r: Option<String>)
        ensures
            r.is_some() == self@.file_name().is_some(),
            r.is_some() ==> r.unwrap()@ == self@.file_name().unwrap(),
    {
        if self.parts.len() > 0 {
            Some(self.parts[self.parts.len() - 1].clone())
        } else {
            None
        }
    }

    /// Whether the last name is `name`.
    pub fn is_named(&self, name: &str) -> (r: bool)
        ensures
            r == (self@.file_name() == Some(name@)),
    {
        if self.parts.len() > 0 {
            same(self.parts[self.parts.len() - 1].as_str(), name)
        } else {
            false
        }
    }

    /// Whether both paths have the same last name, or neither has one.
    pub fn same_name(&self, other: &SyncPath) -> (r: bool)
        ensures
            r == (self@.file_name() == other@.file_name()),
    {
        if self.parts.len() > 0 && other.parts.len() > 0 {
            same(
                self.parts[self.parts.len() - 1].as_str(),
                other.parts[other.parts.len() - 1].as_str(),
            )
        } else {
            self.parts.len() == 0 && other.parts.len() == 0
        }
    }

    /// The path without its last name.
    pub fn parent(&self) -> (r: Option<SyncPath>)
        ensures
            r.is_some() == self@.parent().is_some(),
            r.is_some() ==> r.unwrap()@ == self@.parent().unwrap(),
    {
        if self.parts.len() > 0 {
            let mut parts = copy_texts(&self.parts);
            parts.pop();
            assert(texts(parts@) =~= texts(self.parts@).drop_last());
            Some(SyncPath { absolute: self.absolute, parts })
        } else {
            None
        }
    }

    /// The entry `name` directly below this path.
    pub fn child(&self, name: &str) -> (r: SyncPath)
        ensures
            r@ == self@.child(name@),
    {
        let mut parts = copy_texts(&self.parts);
        let s = name.to_string();
        proof {
            lemma_texts_push(parts@, s);
        }
        parts.push(s);
        SyncPath { absolute: self.absolute, parts }
    }

    /// `rel` seen from this path.
    pub fn join(&self, rel: &SyncPath) -> (r: SyncPath)
        ensures
            r@ == self@.join(rel@),
    {
        if rel.absolute {
            return rel.clone();
        }
        let mut parts = copy_texts(&self.parts);
        let mut i: usize = 0;
        while i < rel.parts.len()
            invariant
                i <= rel.parts.len(),
                texts(parts@) == texts(self.parts@) + texts(rel.parts@).subrange(0, i as int),
            decreases rel.parts.len() - i,
        {
            let s = rel.parts[i].clone();
            proof {
                lemma_texts_push(parts@, s);
                assert(texts(rel.parts@).subrange(0, i + 1) =~= texts(rel.parts@).subrange(
                    0,
                    i as int,
                ).push(s@));
                assert(texts(self.parts@) + texts(rel.parts@).subrange(0, i + 1) =~= (texts(
                    self.parts@,
                ) + texts(rel.parts@).subrange(0, i as int)).push(s@));
            }
            parts.push(s);
            i = i + 1;
        }
        assert(texts(rel.parts@).subrange(0, i as int) =~= texts(rel.parts@));
        SyncPath { absolute: self.absolute, parts }
    }

    /// Whether this path is `base` or lies below it.
    pub fn starts_with(&self, base: &SyncPath) -> (r: bool)
        ensures
            r == self@.starts_with(base@),
    {
        if self.absolute != base.absolute || base.parts.len() > self.parts.len() {
            return false;
        }
        let mut i: usize = 0;
        while i < base.parts.len()
            invariant
                base.parts.len() <= self.parts.len(),
                i <= base.parts.len(),
                texts(self.parts@).subrange(0, i as int) == texts(base.parts@).subrange(0, i as int),
            decreases base.parts.len() - i,
        {
            if !same(self.parts[i].as_str(), base.parts[i].as_str()) {
                assert(texts(self.parts@).subrange(0, base.parts.len() as int)[i as int] != texts(
                    base.parts@,
                )[i as int]);
                return false;
            }
            assert(texts(self.parts@).subrange(0, i + 1) =~= texts(self.parts@).subrange(
                0,
                i as int,
            ).push(self.parts@[i as int]@));
            assert(texts(base.parts@).subrange(0, i + 1) =~= texts(base.parts@).subrange(
                0,
                i as int,
            ).push(base.parts@[i as int]@));
            i = i + 1;
        }
        assert(texts(base.parts@).subrange(0, i as int) =~= texts(base.parts@));
        true
    }

    /// Whether both paths are the same.
    pub fn same(&self, other: &SyncPath) -> (r: bool)
        ensures
            r == (self@ == other@),
    {
        let r = self.parts.len() == other.parts.len() && self.starts_with(other);
        proof {
            if r {
                assert(texts(self.parts@).subrange(0, other.parts.len() as int) =~= texts(
                    self.parts@,
                ));
            }
            if self@ == other@ {
                assert(texts(self.parts@).len() == texts(other.parts@).len());
                assert(texts(self.parts@).subrange(0, other.parts.len() as int) =~= texts(
                    self.parts@,
                ));
            }
        }
        r
    }

    /// The way from `base` down to this path, if this path is `base` or lies
    /// below it.
    pub fn strip_prefix(&self, base: &SyncPath) -> (r: Option<SyncPath>)
        ensures
            r.is_some() == self@.starts_with(base@),
            r.is_some() ==> r.unwrap()@ == self@.strip_prefix(base@),
    {
        if !self.starts_with(base) {
            return None;
        }
        let mut parts: Vec<String> = Vec::new();
        let start = base.parts.len();
        let mut i: usize = start;
        while i < self.parts.len()
            invariant
                start == base.parts.len(),
                start <= i <= self.parts.len(),
                texts(parts@) == texts(self.parts@).subrange(start as int, i as int),
            decreases self.parts.len() - i,
        {
            let s = self.parts[i].clone();
            proof {
                lemma_texts_push(parts@, s);
                assert(texts(self.parts@).subrange(start as int, i + 1) =~= texts(
                    self.parts@,
                ).subrange(start as int, i as int).push(s@));
            }
            parts.push(s);
            i = i + 1;
        }
        Some(SyncPath { absolute: false, parts })
    }
}

/// A copy of a list of paths.
pub fn copy_paths(v: &Vec<SyncPath>) -> (out: Vec<SyncPath>)
    ensures
        paths(out@) == paths(v@),
{
    let mut out: Vec<SyncPath> = Vec::new();
    let mut i: usize = 0;
    while i < v.len()
        invariant
            i <= v.len(),
            paths(out@) == paths(v@.subrange(0, i as int)),
        decreases v.len() - i,
    {
        let p = v[i].clone();
        proof {
            lemma_paths_push(out@, p);
            assert(paths(v@.subrange(0, i + 1)) =~= paths(v@.subrange(0, i as int)).push(v@[i as int]@));
        }
        out.push(p);
        i = i + 1;
    }
    assert(v@.subrange(0, i as int) =~= v@);
    out
}

} // verus!
