//! Joining a host-side base path with an absolute sandbox-relative path. A
//! bind-mount destination is always interpreted relative to the sandbox root,
//! never relative to the host root, so the leading separator of the right-hand
//! side is stripped before the two are joined.

use vstd::prelude::*;

verus! {

/// An absolute path: non-empty and rooted at the separator.
pub open spec fn absolute_path(p: Seq<char>) -> bool {
    p.len() > 0 && p[0] == '/'
}

/// What joining the absolute path `rhs` under the absolute base `lhs`
/// yields: `rhs` keeps its leading separator when `lhs` does not already end
/// in one, and drops it when `lhs` does.
pub open spec fn join_absolute(lhs: Seq<char>, rhs: Seq<char>) -> Seq<char> {
    if lhs.len() > 0 && lhs.last() == '/' {
        lhs + rhs.skip(1)
    } else {
        lhs + rhs
    }
}

/// Concatenates `lhs` and `rhs` as-if `rhs` was a relative path.
pub fn concat_absolute(lhs: &str, rhs: &str) -> (r: String)
    requires
        absolute_path(lhs@),
        absolute_path(rhs@),
    ensures
        r@ == join_absolute(lhs@, rhs@),
{
    let lhs_len = lhs.unicode_len();
    if lhs_len > 0 && lhs.get_char(lhs_len - 1) == '/' {
        let stripped = rhs.substring_char(1, rhs.unicode_len());
        proof {
            assert(stripped@ =~= rhs@.skip(1));
        }
        String::from_str(lhs).concat(stripped)
    } else {
        String::from_str(lhs).concat(rhs)
    }
}

} // verus!
