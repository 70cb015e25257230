//! Walking up the directory tree from a start directory.
//!
//! The caller lists the start directory and its ancestors, nearest first,
//! and says for each what it observed there; the functions here decide
//! where the walk stops and what it found.

use vstd::prelude::*;

verus! {

/// How many directories (the start one included) a walk looks at, at most.
pub const MAX_TRAVERSAL_DEPTH: usize = 20;

/// What the caller observed in one directory of the walk.
#[derive(Clone, Copy, Debug, PartialEq, Eq, Structural)]
pub struct DirProbe {
    /// The file the walk looks for exists in this directory.
    pub target_exists: bool,
    /// This directory holds a `.git` entry: the walk does not go above it.
    pub has_git: bool,
}

/// The walk may look at directory `i`: it is within the depth limit and within
/// the listed directories.
pub open spec fn in_walk(probes: Seq<DirProbe>, i: int) -> bool {
    0 <= i < probes.len() && i < MAX_TRAVERSAL_DEPTH
}

/// No directory before `i` is a repository root, so the walk reaches `i`.
pub open spec fn below_boundary(probes: Seq<DirProbe>, i: int) -> bool {
    forall|j: int| 0 <= j < i ==> !(#[trigger] probes[j]).has_git
}

/// Directory `i` is the one a walk for the target file stops at.
pub open spec fn is_first_target(probes: Seq<DirProbe>, i: int) -> bool {
    &&& in_walk(probes, i)
    &&& below_boundary(probes, i)
    &&& probes[i].target_exists
    &&& forall|j: int| 0 <= j < i ==> !(#[trigger] probes[j]).target_exists
}

/// The walk for the target file finds nothing.
pub open spec fn no_target(probes: Seq<DirProbe>) -> bool {
    forall|i: int|
        in_walk(probes, i) && below_boundary(probes, i) ==> !(#[trigger] probes[i]).target_exists
}

/// Looks for the target file from `probes[0]` upwards. In each directory the
/// target is checked first; a directory holding `.git` ends the walk after it
/// was checked; at most `MAX_TRAVERSAL_DEPTH` directories are looked at.
/// Returns the index of the directory where the target was found.
pub fn walk_ancestors(probes: &Vec<DirProbe>) -> (found: Option<usize>)
    ensures
        found matches Some(i) ==> is_first_target(probes@, i as int),
        found is None <==> no_target(probes@),
{
    let mut depth: usize = 0;
    while depth < probes.len() && depth < MAX_TRAVERSAL_DEPTH
        invariant
            depth <= probes.len(),
            depth <= MAX_TRAVERSAL_DEPTH,
            below_boundary(probes@, depth as int),
            forall|j: int| 0 <= j < depth ==> !(#[trigger] probes@[j]).target_exists,
        decreases probes.len() - depth,
    {
        let probe = probes[depth];
        if probe.target_exists {
            return Some(depth);
        }
        if probe.has_git {
            assert forall|i: int| in_walk(probes@, i) && below_boundary(probes@, i) implies
                !(#[trigger] probes@[i]).target_exists by {
                if i > depth {
                    assert(probes@[depth as int].has_git);
                }
            }
            return None;
        }
        depth = depth + 1;
    }
    assert forall|i: int| in_walk(probes@, i) && below_boundary(probes@, i) implies
        !(#[trigger] probes@[i]).target_exists by {}
    None
}

/// Directory `i` is the nearest repository root in the walk.
pub open spec fn is_first_boundary(probes: Seq<DirProbe>, i: int) -> bool {
    &&& in_walk(probes, i)
    &&& probes[i].has_git
    &&& below_boundary(probes, i)
}

/// Finds the nearest directory holding `.git`, looking at no more than
/// `MAX_TRAVERSAL_DEPTH` directories.
pub fn nearest_boundary(probes: &Vec<DirProbe>) -> (found: Option<usize>)
    ensures
        found matches Some(i) ==> is_first_boundary(probes@, i as int),
        found is None <==> forall|i: int| in_walk(probes@, i) ==> !(#[trigger] probes@[i]).has_git,
{
    let mut depth: usize = 0;
    while depth < probes.len() && depth < MAX_TRAVERSAL_DEPTH
        invariant
            depth <= probes.len(),
            depth <= MAX_TRAVERSAL_DEPTH,
            below_boundary(probes@, depth as int),
        decreases probes.len() - depth,
    {
        if probes[depth].has_git {
            return Some(depth);
        }
        depth = depth + 1;
    }
    None
}

} // verus!
