//! The configuration cascade: a base settings record plus ordered,
//! condition-guarded children, resolved first-match-wins.

use vstd::prelude::*;
use crate::condition::{cond_matches, Condition};

verus! {

/// A configuration node, generic over the settings record it carries.
/// Inheritance between a parent and a child is baked in when the tree is
/// built — the parent's fields are copied into the child's `own` and then
/// selectively overridden — never merged at lookup time. A node is immutable
/// once constructed.
pub struct ConfigNode<S> {
    /// The settings effective when no child condition matches.
    pub own: S,
    /// Ordered condition-guarded overrides, evaluated strictly in listed
    /// order; the first match wins.
    pub children: Vec<(Condition, ConfigNode<S>)>,
}

/// The index of the first child whose condition matches `p`, if any.
pub open spec fn spec_first_match<S>(
    children: Seq<(Condition, ConfigNode<S>)>,
    p: Seq<char>,
) -> Option<int>
    decreases children.len(),
{
    if children.len() == 0 {
        None
    } else if cond_matches(children[0].0, p) {
        Some(0int)
    } else {
        match spec_first_match(children.subrange(1, children.len() as int), p) {
            Some(i) => Some(i + 1),
            None => None,
        }
    }
}

/// The settings that the cascade yields for `p`: recurse into the first
/// matching child, else bottom out at `own`.
pub open spec fn spec_resolve<S>(node: ConfigNode<S>, p: Seq<char>) -> S
    decreases node,
{
    match spec_first_match(node.children@, p) {
        Some(i) => if 0 <= i < node.children@.len() {
            spec_resolve(node.children@[i].1, p)
        } else {
            node.own
        },
        None => node.own,
    }
}

/// `spec_first_match` returns exactly the earliest matching index: in range,
/// matching, with every earlier condition failing; `None` means nothing
/// matches.
pub proof fn lemma_first_match<S>(children: Seq<(Condition, ConfigNode<S>)>, p: Seq<char>)
    ensures
        match spec_first_match(children, p) {
            Some(i) => 0 <= i < children.len() && cond_matches(children[i].0, p)
                && forall|j: int| 0 <= j < i ==> !cond_matches(children[j].0, p),
            None => forall|j: int|
                0 <= j < children.len() ==> !cond_matches(children[j].0, p),
        },
    decreases children.len(),
{
    if children.len() > 0 && !cond_matches(children[0].0, p) {
        let rest = children.subrange(1, children.len() as int);
        lemma_first_match(rest, p);
        assert(forall|j: int| 1 <= j < children.len() ==> children[j] == rest[j - 1]);
    }
}

/// Resolves the effective settings for a path: children are tried strictly
/// in listed order, the first whose condition matches is entered and the
/// parent's fields are not reconsulted; with no match the node's own
/// settings stand. Resolution never fails and never mutates the tree.
#[verifier::loop_isolation(false)]
pub fn resolve<'a, S>(node: &'a ConfigNode<S>, p: &str) -> (r: &'a S)
    ensures
        *r == spec_resolve(*node, p@),
    decreases *node,
{
    let n = node.children.len();
    let mut i: usize = 0;
    while i < n
        invariant
            i <= n,
            forall|j: int| 0 <= j < i ==> !cond_matches(node.children@[j].0, p@),
        decreases n - i,
    {
        if crate::condition::matches(&node.children[i].0, p) {
            proof {
                lemma_first_match::<S>(node.children@, p@);
                assert(decreases_to!(*node => node.children@[i as int]));
            }
            return resolve(&node.children[i].1, p);
        }
        i += 1;
    }
    proof {
        lemma_first_match::<S>(node.children@, p@);
    }
    &node.own
}

/// Ordering law: for any path and any sibling list, resolution commits to
/// the first listed matching child — never a later one, even when several
/// match.
pub proof fn lemma_resolve_first_match<S>(node: ConfigNode<S>, p: Seq<char>, i: int)
    requires
        0 <= i < node.children@.len(),
        cond_matches(node.children@[i].0, p),
        forall|j: int| 0 <= j < i ==> !cond_matches(node.children@[j].0, p),
    ensures
        spec_resolve(node, p) == spec_resolve(node.children@[i].1, p),
{
    lemma_first_match::<S>(node.children@, p);
    let m = spec_first_match(node.children@, p);
    match m {
        Some(k) => {
            if k < i {
                assert(cond_matches(node.children@[k].0, p));
            }
            if k > i {
                assert(!cond_matches(node.children@[i].0, p));
            }
            assert(k == i);
        },
        None => {
            assert(!cond_matches(node.children@[i].0, p));
        },
    }
}

/// Fallback law: when no child condition matches, resolution yields the
/// node's own settings.
pub proof fn lemma_resolve_fallback<S>(node: ConfigNode<S>, p: Seq<char>)
    requires
        forall|j: int|
            0 <= j < node.children@.len() ==> !cond_matches(node.children@[j].0, p),
    ensures
        spec_resolve(node, p) == node.own,
{
    lemma_first_match::<S>(node.children@, p);
}

/// Nesting law: in a three-level tree whose embedded layer hangs under a
/// branch of the first split, a path that matches the branch condition and
/// the embedded condition resolves to the embedded settings — regardless of
/// which other sibling conditions the path also matches further down the
/// lists.
pub proof fn lemma_nested_resolution<S>(root: ConfigNode<S>, p: Seq<char>, bi: int, ei: int)
    requires
        0 <= bi < root.children@.len(),
        cond_matches(root.children@[bi].0, p),
        forall|j: int| 0 <= j < bi ==> !cond_matches(root.children@[j].0, p),
        0 <= ei < root.children@[bi].1.children@.len(),
        cond_matches(root.children@[bi].1.children@[ei].0, p),
        forall|j: int|
            0 <= j < ei ==> !cond_matches(root.children@[bi].1.children@[j].0, p),
        forall|j: int|
            0 <= j < root.children@[bi].1.children@[ei].1.children@.len()
                ==> !cond_matches(root.children@[bi].1.children@[ei].1.children@[j].0, p),
    ensures
        spec_resolve(root, p) == root.children@[bi].1.children@[ei].1.own,
{
    let branch = root.children@[bi].1;
    let embedded = branch.children@[ei].1;
    lemma_resolve_first_match(root, p, bi);
    lemma_resolve_first_match(branch, p, ei);
    lemma_resolve_fallback(embedded, p);
}

} // verus!
