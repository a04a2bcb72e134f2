//! The guard that keeps a static-asset path inside its root directory.
//!
//! The asset server joins the part of the path below the mount prefix to
//! the root directory on disk. A relative path escapes the root exactly
//! when one of its `/`-separated segments is `..`; such a path is
//! rejected before anything touches the file system.

use vstd::prelude::*;
use vstd::string::StrSliceExecFns;

verus! {

/// Position `i` of `p` starts a segment that is exactly `..`.
pub open spec fn dotdot_at(p: Seq<char>, i: int) -> bool {
    &&& 0 <= i
    &&& i + 2 <= p.len()
    &&& p[i] == '.'
    &&& p[i + 1] == '.'
    &&& (i == 0 || p[i - 1] == '/')
    &&& (i + 2 == p.len() || p[i + 2] == '/')
}

/// A relative path escapes its root when some segment is `..`.
pub open spec fn escapes_root(p: Seq<char>) -> bool {
    exists|i: int| dotdot_at(p, i)
}

/// Accept a path below the static mount only when no `/`-separated
/// segment of it is `..`.
pub fn is_safe_subpath(p: &str) -> (r: bool)
    ensures
        r == !escapes_root(p@),
{
    let n = p.unicode_len();
    let mut i: usize = 0;
    while i < n
        invariant
            n == p@.len(),
            i <= n,
            forall|j: int| j < i ==> !dotdot_at(p@, j),
        decreases n - i,
    {
        if p.get_char(i) == '.' && i + 1 < n && p.get_char(i + 1) == '.' && (i == 0
            || p.get_char(i - 1) == '/') && (i + 2 == n || p.get_char(i + 2) == '/') {
            assert(dotdot_at(p@, i as int));
            return false;
        }
        assert(!dotdot_at(p@, i as int));
        i = i + 1;
    }
    assert(forall|j: int| j >= n ==> !dotdot_at(p@, j));
    true
}

} // verus!
