//! Locating the pulled artifact in the output of `cloudbuild.sh`.

use vstd::prelude::*;
use vstd::string::*;
use crate::text::{chars_of, find_char, first_index_of, has_prefix, prefix_at, trim, trim_range};

verus! {

/// The path that one output line announces, if any: after trimming, the line
/// starts with `pulled:` (or else `artifact:`) and the trimmed rest is not empty.
pub open spec fn artifact_on_line(line: Seq<char>) -> Option<Seq<char>> {
    let t = trim(line);
    let rest = if has_prefix(t, "pulled:"@) {
        Some(t.skip("pulled:"@.len() as int))
    } else if has_prefix(t, "artifact:"@) {
        Some(t.skip("artifact:"@.len() as int))
    } else {
        None
    };
    match rest {
        Some(r) => if trim(r).len() > 0 {
            Some(trim(r))
        } else {
            None
        },
        None => None,
    }
}

/// The first path that a line of `out` announces (lines end at `'\n'`).
pub open spec fn artifact_in(out: Seq<char>) -> Option<Seq<char>>
    decreases out.len(),
{
    let k = first_index_of(out, '\n');
    match artifact_on_line(out.take(k)) {
        Some(p) => Some(p),
        None => if 0 <= k < out.len() {
            artifact_in(out.skip(k + 1))
        } else {
            None
        },
    }
}

/// Attempt to extract an artifact path from cloudbuild stdout.
/// Looks for lines like `pulled: /path/to/binary` or `artifact: /path`.
pub fn extract_artifact_path(stdout: &str) -> (r: Option<String>)
    ensures
        match r {
            Some(p) => artifact_in(stdout@) == Some(p@),
            None => artifact_in(stdout@) is None,
        },
{
    let v = chars_of(stdout);
    let pulled = chars_of("pulled:");
    let artifact = chars_of("artifact:");
    let n = v.len();
    let mut lo: usize = 0;
    assert(v@.skip(0) =~= v@);
    loop
        invariant
            v@ == stdout@,
            n == v.len(),
            lo <= n,
            pulled@ == "pulled:"@,
            artifact@ == "artifact:"@,
            artifact_in(stdout@) == artifact_in(v@.skip(lo as int)),
        decreases n - lo,
    {
        let ghost s = v@.skip(lo as int);
        assert(s =~= v@.subrange(lo as int, n as int));
        let k = find_char(&v, lo, n, '\n');
        assert(s.take(k as int) =~= v@.subrange(lo as int, lo + k));
        let (a, b) = trim_range(&v, lo, lo + k);
        let ghost t = v@.subrange(a as int, b as int);
        let mut start = b;
        let mut found = false;
        if prefix_at(&v, a, b, &pulled) {
            start = a + pulled.len();
            found = true;
        } else if prefix_at(&v, a, b, &artifact) {
            start = a + artifact.len();
            found = true;
        }
        if found {
            assert(t.skip(start - a) =~= v@.subrange(start as int, b as int));
            let (c, d) = trim_range(&v, start, b);
            if c < d {
                let p = stdout.substring_char(c, d);
                return Some(String::from_str(p));
            }
        }
        if lo + k < n {
            assert(s.skip(k + 1) =~= v@.skip(lo + k + 1));
            lo = lo + k + 1;
        } else {
            return None;
        }
    }
}

} // verus!
