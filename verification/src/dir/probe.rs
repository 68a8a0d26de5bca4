//! What a probe looks for among the entries of a directory.

use crate::path::{paths, PathView, SyncPath};
use crate::text::{ends_with, is_prefix, is_suffix, starts_with};
use vstd::prelude::*;

verus! {

/// Whether one of the paths has the last name `name`.
pub open spec fn named_in(v: Seq<PathView>, name: Seq<char>) -> bool {
    exists|i: int| 0 <= i < v.len() && (#[trigger] v[i]).file_name() == Some(name)
}

/// Whether one of the paths has a last name that starts with `prefix`.
pub open spec fn prefixed_in(v: Seq<PathView>, prefix: Seq<char>) -> bool {
    exists|i: int|
        0 <= i < v.len() && (#[trigger] v[i]).file_name() is Some && is_prefix(
            prefix,
            v[i].file_name().unwrap(),
        )
}

/// Whether one of the paths has a last name that ends with `suffix`.
pub open spec fn suffixed_in(v: Seq<PathView>, suffix: Seq<char>) -> bool {
    exists|i: int|
        0 <= i < v.len() && (#[trigger] v[i]).file_name() is Some && is_suffix(
            suffix,
            v[i].file_name().unwrap(),
        )
}

/// Whether one of the paths has the last name `name`.
pub fn has_named(v: &Vec<SyncPath>, name: &str) -> (r: bool)
    ensures
        r == named_in(paths(v@), name@),
{
    let mut i: usize = 0;
    while i < v.len()
        invariant
            i <= v.len(),
            forall|k: int| 0 <= k < i ==> (#[trigger] paths(v@)[k]).file_name() != Some(name@),
        decreases v.len() - i,
    {
        if v[i].is_named(name) {
            assert(paths(v@)[i as int].file_name() == Some(name@));
            return true;
        }
        i = i + 1;
    }
    false
}

/// Whether one of the paths has a last name that starts with `prefix`.
pub fn has_prefixed(v: &Vec<SyncPath>, prefix: &str) -> (r: bool)
    ensures
        r == prefixed_in(paths(v@), prefix@),
{
    let mut i: usize = 0;
    while i < v.len()
        invariant
            i <= v.len(),
            forall|k: int|
                0 <= k < i ==> !((#[trigger] paths(v@)[k]).file_name() is Some && is_prefix(
                    prefix@,
                    paths(v@)[k].file_name().unwrap(),
                )),
        decreases v.len() - i,
    {
        match v[i].file_name() {
            Some(n) => {
                if starts_with(n.as_str(), prefix) {
                    assert(paths(v@)[i as int].file_name() is Some);
                    return true;
                }
            },
            None => {},
        }
        i = i + 1;
    }
    false
}

/// Whether one of the paths has a last name that ends with `suffix`.
pub fn has_suffixed(v: &Vec<SyncPath>, suffix: &str) -> (r: bool)
    ensures
        r == suffixed_in(paths(v@), suffix@),
{
    let mut i: usize = 0;
    while i < v.len()
        invariant
            i <= v.len(),
            forall|k: int|
                0 <= k < i ==> !((#[trigger] paths(v@)[k]).file_name() is Some && is_suffix(
                    suffix@,
                    paths(v@)[k].file_name().unwrap(),
                )),
        decreases v.len() - i,
    {
        match v[i].file_name() {
            Some(n) => {
                if ends_with(n.as_str(), suffix) {
                    assert(paths(v@)[i as int].file_name() is Some);
                    return true;
                }
            },
            None => {},
        }
        i = i + 1;
    }
    false
}

} // verus!
