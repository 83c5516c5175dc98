//! Deciding whether a path carries a given file extension.
//!
//! Paths are plain strings here; only the suffix matters for the rebuild
//! decision, so nothing more of path structure is modelled.

use vstd::prelude::*;

verus! {

/// `path` ends in `.` followed by `ext`, where that dot is neither the first
/// character of the final path component nor preceded by a `/`.
///
/// This is the usual reading of "the file's extension" for a plain
/// extension `ext` (one containing neither `.` nor `/`): the portion of the
/// final component after its last dot, where a dot that starts the component
/// (a hidden file such as `.env`) begins no extension.
pub open spec fn has_extension(path: Seq<char>, ext: Seq<char>) -> bool {
    let d = path.len() - ext.len() - 1;
    &&& path.len() > ext.len()
    &&& path[d] == '.'
    &&& d > 0
    &&& path[d - 1] != '/'
    &&& path.subrange(d + 1, path.len() as int) == ext
}

/// Decides [`has_extension`] on string slices.
pub fn path_has_extension(path: &str, ext: &str) -> (r: bool)
    ensures
        r == has_extension(path@, ext@),
{
    let n = path.unicode_len();
    let m = ext.unicode_len();
    if n <= m {
        return false;
    }
    let d = n - m - 1;
    if path.get_char(d) != '.' {
        return false;
    }
    if d == 0 {
        return false;
    }
    if path.get_char(d - 1) == '/' {
        return false;
    }
    let mut i: usize = 0;
    while i < m
        invariant
            n == path@.len(),
            m == ext@.len(),
            m < n,
            d == n - m - 1,
            0 < d < n,
            i <= m,
            path@[d as int] == '.',
            path@[d - 1] != '/',
            forall|j: int| 0 <= j < i ==> path@[d + 1 + j] == ext@[j],
        decreases m - i,
    {
        if path.get_char(d + 1 + i) != ext.get_char(i) {
            proof {
                let suffix = path@.subrange(d + 1, n as int);
                assert(suffix[i as int] == path@[d + 1 + i]);
                assert(suffix != ext@);
            }
            return false;
        }
        i += 1;
    }
    proof {
        assert(path@.subrange(d + 1, n as int) =~= ext@);
    }
    true
}

} // verus!
