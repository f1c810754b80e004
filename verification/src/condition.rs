//! Path predicates guarding configuration layers.

use vstd::prelude::*;
use crate::paths::{is_under, path_is_under};

verus! {

/// A pure predicate over a normalized file path: containment in a root
/// directory, or the disjunction of a list of conditions. Evaluating a
/// condition never mutates anything.
pub enum Condition {
    /// Matches any path contained in the root, at segment granularity.
    InPath(String),
    /// Matches if any member matches: a pure, short-circuiting OR.
    Any(Vec<Condition>),
}

/// What a condition means on a given path.
pub open spec fn cond_matches(c: Condition, p: Seq<char>) -> bool
    decreases c,
{
    match c {
        Condition::InPath(root) => is_under(root@, p),
        Condition::Any(cs) => exists|i: int| 0 <= i < cs@.len() && cond_matches(cs@[i], p),
    }
}

/// Evaluates a condition on a path. Members of `Any` are tried in listed
/// order and the first match ends the scan, though the result is a pure OR.
#[verifier::loop_isolation(false)]
pub fn matches(c: &Condition, p: &str) -> (r: bool)
    ensures
        r == cond_matches(*c, p@),
    decreases *c,
{
    match c {
        Condition::InPath(root) => path_is_under(root.as_str(), p),
        Condition::Any(cs) => {
            let n = cs.len();
            let mut i: usize = 0;
            while i < n
                invariant
                    n == cs@.len(),
                    i <= n,
                    forall|j: int| 0 <= j < i ==> !cond_matches(cs@[j], p@),
                decreases n - i,
            {
                proof {
                    assert(decreases_to!(*cs => cs@[i as int]));
                }
                if matches(&cs[i], p) {
                    proof {
                        assert(cond_matches(cs@[i as int], p@));
                        assert(exists|j: int|
                            0 <= j < cs@.len() && cond_matches(cs@[j], p@));
                    }
                    return true;
                }
                i += 1;
            }
            false
        },
    }
}

} // verus!
