//! Deriving a crate's name from its `Cargo.toml` text or its directory name.

use vstd::prelude::*;
use vstd::string::*;
use crate::text::{
    chars_of, find_char, opt_str, first_index_of, has_prefix, prefix_at, strip_both, strip_range, trim,
    trim_range,
};

verus! {

/// Why a crate's name, and so its plan, could not be had.
#[derive(Clone, Copy, Debug, PartialEq, Eq, Structural)]
pub enum PlanError {
    /// The crate directory does not exist.
    CrateDirNotFound,
    /// The manifest names no crate and the directory has no readable basename.
    NoReadableBasename,
}

/// The value that one manifest line assigns, if the line (trimmed) starts with
/// `name`, holds an `=`, and what follows the first `=` is, once trimmed and
/// stripped of surrounding `"` characters, not empty.
pub open spec fn name_on_line(line: Seq<char>) -> Option<Seq<char>> {
    let t = trim(line);
    if has_prefix(t, "name"@) {
        let rest = t.skip("name"@.len() as int);
        let e = first_index_of(rest, '=');
        if 0 <= e < rest.len() {
            let value = strip_both(trim(rest.skip(e + 1)), '"');
            if value.len() > 0 {
                Some(value)
            } else {
                None
            }
        } else {
            None
        }
    } else {
        None
    }
}

/// The value of the first line of `text` (lines end at `'\n'`) that assigns a name.
pub open spec fn manifest_name(text: Seq<char>) -> Option<Seq<char>>
    decreases text.len(),
{
    let k = first_index_of(text, '\n');
    match name_on_line(text.take(k)) {
        Some(n) => Some(n),
        None => if 0 <= k < text.len() {
            manifest_name(text.skip(k + 1))
        } else {
            None
        },
    }
}

/// The crate name named by a `Cargo.toml` text, if a line of it names one.
pub fn name_from_manifest(contents: &str) -> (r: Option<String>)
    ensures
        match r {
            Some(n) => manifest_name(contents@) == Some(n@),
            None => manifest_name(contents@) is None,
        },
{
    let v = chars_of(contents);
    let name = chars_of("name");
    let n = v.len();
    let mut lo: usize = 0;
    assert(v@.skip(0) =~= v@);
    loop
        invariant
            v@ == contents@,
            n == v.len(),
            lo <= n,
            name@ == "name"@,
            manifest_name(contents@) == manifest_name(v@.skip(lo as int)),
        decreases n - lo,
    {
        let ghost s = v@.skip(lo as int);
        assert(s =~= v@.subrange(lo as int, n as int));
        let k = find_char(&v, lo, n, '\n');
        assert(s.take(k as int) =~= v@.subrange(lo as int, lo + k));
        let (a, b) = trim_range(&v, lo, lo + k);
        if prefix_at(&v, a, b, &name) {
            let ghost rest = v@.subrange(a as int, b as int).skip(name@.len() as int);
            let start = a + name.len();
            assert(rest =~= v@.subrange(start as int, b as int));
            let e = find_char(&v, start, b, '=');
            if start + e < b {
                assert(rest.skip(e + 1) =~= v@.subrange(start + e + 1, b as int));
                let (c, d) = trim_range(&v, start + e + 1, b);
                let (f, g) = strip_range(&v, c, d, '"');
                if f < g {
                    let value = contents.substring_char(f, g);
                    return Some(String::from_str(value));
                }
            }
        }
        if lo + k < n {
            assert(s.skip(k + 1) =~= v@.skip(lo + k + 1));
            lo = lo + k + 1;
        } else {
            return None;
        }
    }
}

/// The crate name of an existing directory: the name that the manifest text
/// assigns, where there is a manifest and a line of it names one; otherwise the
/// directory's basename.
pub open spec fn derived_name(manifest: Option<Seq<char>>, basename: Option<Seq<char>>) -> Option<
    Seq<char>,
> {
    match manifest {
        Some(m) if manifest_name(m) is Some => manifest_name(m),
        _ => basename,
    }
}

/// What deriving the crate name gives: an error for a missing directory, the
/// derived name, or an error where there is none.
pub open spec fn derivation(
    dir_exists: bool,
    manifest: Option<Seq<char>>,
    basename: Option<Seq<char>>,
) -> Result<Seq<char>, PlanError> {
    if !dir_exists {
        Err(PlanError::CrateDirNotFound)
    } else {
        match derived_name(manifest, basename) {
            Some(n) => Ok(n),
            None => Err(PlanError::NoReadableBasename),
        }
    }
}

/// Derive the crate name of the directory (`dir_exists` tells whether it
/// exists) from the text of its `Cargo.toml` (`None` where it does not exist or
/// cannot be read), falling back to the directory's basename (`None` where it
/// has none or it is not valid UTF-8).
///
/// Returns an error if the directory does not exist or neither gives a name.
pub fn derive_crate_name(dir_exists: bool, manifest: Option<&str>, basename: Option<&str>) -> (r:
    Result<String, PlanError>)
    ensures
        match r {
            Ok(n) => derivation(dir_exists, opt_str(manifest), opt_str(basename)) == Ok::<
                Seq<char>,
                PlanError,
            >(n@),
            Err(e) => derivation(dir_exists, opt_str(manifest), opt_str(basename)) == Err::<
                Seq<char>,
                PlanError,
            >(e),
        },
{
    if !dir_exists {
        return Err(PlanError::CrateDirNotFound);
    }
    if let Some(m) = manifest {
        if let Some(n) = name_from_manifest(m) {
            return Ok(n);
        }
    }
    match basename {
        Some(b) => Ok(String::from_str(b)),
        None => Err(PlanError::NoReadableBasename),
    }
}

} // verus!
