//! Merging a patch onto a configuration, leaf by leaf.
//!
//! A configuration is taken apart into its leaves: each value that is not
//! a table, under the path of keys that leads to it. A patch is a list of
//! leaves too. Merging replaces the value of every leaf that the patch
//! names; a patch that names a leaf which the configuration does not have is
//! refused as a whole.

use vstd::prelude::*;

verus! {

/// One leaf of a configuration: the path of keys that leads to it, joined
/// by dots, and its value as text.
#[derive(Clone, Debug, PartialEq, Eq)]
pub struct ConfigLeaf {
    pub path: String,
    pub value: String,
}

/// Why a patch was refused.
#[derive(Clone, Debug, PartialEq, Eq)]
pub enum MergeError {
    /// The patch names a leaf, by this path, that the configuration lacks.
    UnknownKey(String),
}

/// Whether some leaf has the path `path`.
pub open spec fn has_path(leaves: Seq<ConfigLeaf>, path: Seq<char>) -> bool {
    exists|i: int| 0 <= i < leaves.len() && (#[trigger] leaves[i]).path@ == path
}

/// The value that the first `n` leaves of `patch` give the leaf at `path`:
/// that of the last of them with this path, or `fallback` where there is
/// none.
pub open spec fn patched_value(
    patch: Seq<ConfigLeaf>,
    path: Seq<char>,
    n: int,
    fallback: Seq<char>,
) -> Seq<char>
    decreases n,
{
    if n <= 0 {
        fallback
    } else if patch[n - 1].path@ == path {
        patch[n - 1].value@
    } else {
        patched_value(patch, path, n - 1, fallback)
    }
}

/// Whether `merged` is `base` with the first `n` leaves of `patch` merged
/// onto it: the same paths in the same order, each with its patched value.
pub open spec fn is_merged(
    base: Seq<ConfigLeaf>,
    patch: Seq<ConfigLeaf>,
    n: int,
    merged: Seq<ConfigLeaf>,
) -> bool {
    &&& merged.len() == base.len()
    &&& forall|i: int|
        0 <= i < base.len() ==> (#[trigger] merged[i]).path@ == base[i].path@ && merged[i].value@
            == patched_value(patch, base[i].path@, n, base[i].value@)
}

/// Whether leaf `j` is the first of `patch` whose path `base` lacks.
pub open spec fn first_unknown(base: Seq<ConfigLeaf>, patch: Seq<ConfigLeaf>, j: int) -> bool {
    &&& 0 <= j < patch.len()
    &&& !has_path(base, patch[j].path@)
    &&& forall|k: int| 0 <= k < j ==> has_path(base, (#[trigger] patch[k]).path@)
}

/// Merges `patch` onto `base`. Where every leaf of the patch names a leaf
/// of the base, the result has the leaves of the base with their patched
/// values. Else the patch is refused, with the first path that it names in
/// vain.
pub fn merge_leaves(base: Vec<ConfigLeaf>, patch: &Vec<ConfigLeaf>) -> (r: Result<
    Vec<ConfigLeaf>,
    MergeError,
>)
    ensures
        match r {
            Ok(merged) => {
                &&& forall|j: int| 0 <= j < patch@.len() ==> has_path(base@, (#[trigger] patch@[j]).path@)
                &&& is_merged(base@, patch@, patch@.len() as int, merged@)
            },
            Err(MergeError::UnknownKey(path)) => exists|j: int|
                #[trigger] first_unknown(base@, patch@, j) && path@ == patch@[j].path@,
        },
{
    let mut merged = base;
    let mut n: usize = 0;
    while n < patch.len()
        invariant
            n <= patch@.len(),
            is_merged(base@, patch@, n as int, merged@),
            forall|k: int| 0 <= k < n ==> has_path(base@, (#[trigger] patch@[k]).path@),
        decreases patch@.len() - n,
    {
        let mut found = false;
        let mut i: usize = 0;
        while i < merged.len()
            invariant
                i <= merged@.len(),
                n < patch@.len(),
                merged@.len() == base@.len(),
                forall|m: int|
                    0 <= m < i ==> (#[trigger] merged@[m]).path@ == base@[m].path@ && merged@[m].value@
                        == patched_value(patch@, base@[m].path@, n as int + 1, base@[m].value@),
                forall|m: int|
                    i <= m < merged@.len() ==> (#[trigger] merged@[m]).path@ == base@[m].path@
                        && merged@[m].value@ == patched_value(
                        patch@,
                        base@[m].path@,
                        n as int,
                        base@[m].value@,
                    ),
                found == (exists|m: int| 0 <= m < i && (#[trigger] base@[m]).path@ == patch@[n as int].path@),
            decreases merged@.len() - i,
        {
            if merged[i].path == patch[n].path {
                merged[i].value = patch[n].value.clone();
                found = true;
                assert(base@[i as int].path@ == patch@[n as int].path@);
            }
            i += 1;
        }
        if !found {
            proof {
                assert(first_unknown(base@, patch@, n as int));
            }
            return Err(MergeError::UnknownKey(patch[n].path.clone()));
        }
        assert(has_path(base@, patch@[n as int].path@));
        n += 1;
    }
    Ok(merged)
}

} // verus!
