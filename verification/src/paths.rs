//! Normalized-path containment and joining, the primitives behind the
//! path-guarded conditions and the derived output roots.

use vstd::prelude::*;

verus! {

/// A path `p` lies under `root` when it is `root` itself, or extends it at a
/// path-segment boundary: the character right after the shared prefix is `/`.
/// Partial-segment matches do not count.
pub open spec fn is_under(root: Seq<char>, p: Seq<char>) -> bool {
    p == root || (p.len() > root.len() && p.subrange(0, root.len() as int) == root
        && p[root.len() as int] == '/')
}

/// The path formed by appending the relative part `rel` below `base`.
pub open spec fn joined(base: Seq<char>, rel: Seq<char>) -> Seq<char> {
    base + seq!['/'] + rel
}

/// Path containment at segment granularity: the test behind `InPath`.
pub fn path_is_under(root: &str, p: &str) -> (r: bool)
    ensures
        r == is_under(root@, p@),
{
    let rl = root.unicode_len();
    let pl = p.unicode_len();
    if pl < rl {
        return false;
    }
    if pl > rl && p.get_char(rl) != '/' {
        return false;
    }
    let mut i: usize = 0;
    while i < rl
        invariant
            i <= rl,
            rl == root@.len(),
            pl == p@.len(),
            rl <= pl,
            pl > rl ==> p@[rl as int] == '/',
            forall|j: int| 0 <= j < i ==> root@[j] == p@[j],
        decreases rl - i,
    {
        if root.get_char(i) != p.get_char(i) {
            proof {
                assert(p@ != root@);
                assert(p@.len() > root@.len() ==> p@.subrange(0, root@.len() as int)[i as int]
                    == p@[i as int]);
            }
            return false;
        }
        i += 1;
    }
    proof {
        if pl == rl {
            assert(p@ =~= root@);
        } else {
            assert(p@.subrange(0, rl as int) =~= root@);
        }
    }
    true
}

/// Appends one relative path below `base`, as the chunk and asset output
/// roots are formed from the client root.
pub fn join_path(base: &str, rel: &str) -> (r: String)
    ensures
        r@ == joined(base@, rel@),
{
    proof {
        reveal_strlit("/");
        assert("/"@ =~= seq!['/']);
    }
    let mut s = base.to_owned();
    s.append("/");
    s.append(rel);
    s
}

} // verus!
