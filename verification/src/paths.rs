//! Where `cloudbuild.sh` lives: the configured path, with a leading `~/`
//! expanded against the home directory.

use vstd::prelude::*;
use vstd::string::*;
use crate::text::{chars_of, has_prefix, opt_str, prefix_at};

verus! {

/// Default path to `cloudbuild.sh`, overridden by the `HEADWAY_CLOUDBUILD` variable.
pub const DEFAULT_CLOUDBUILD_PATH: &'static str = "~/.local/share/cloudbuild/cloudbuild.sh";

/// `rest` appended to the path `base` as `PathBuf::join` does on Unix: an
/// absolute `rest` replaces `base`; otherwise a `/` separates the two unless
/// `base` is empty or already ends with one.
pub open spec fn join_path(base: Seq<char>, rest: Seq<char>) -> Seq<char> {
    if rest.len() > 0 && rest[0] == '/' {
        rest
    } else if base.len() > 0 && base.last() != '/' {
        base + "/"@ + rest
    } else {
        base + rest
    }
}

/// `p` with a leading `~/` replaced by the home directory, where there is one.
pub open spec fn expanded(p: Seq<char>, home: Option<Seq<char>>) -> Seq<char> {
    if has_prefix(p, "~/"@) && home is Some {
        join_path(home->0, p.skip("~/"@.len() as int))
    } else {
        p
    }
}

/// The path `cloudbuild.sh` is run from: the configured path (the value of
/// `HEADWAY_CLOUDBUILD`, where set) or else the default, expanded.
pub open spec fn resolved_path(configured: Option<Seq<char>>, home: Option<Seq<char>>) -> Seq<
    char,
> {
    match configured {
        Some(c) => expanded(c, home),
        None => expanded(DEFAULT_CLOUDBUILD_PATH@, home),
    }
}

/// Naively expand a leading `~/` to `$HOME/`; `home` is the value of `HOME`,
/// `None` where it is unset or not valid UTF-8.
pub fn expand_tilde(p: &str, home: Option<&str>) -> (r: String)
    ensures
        r@ == expanded(p@, opt_str(home)),
{
    let v = chars_of(p);
    let tilde = chars_of("~/");
    if prefix_at(&v, 0, v.len(), &tilde) {
        assert(v@.subrange(0, v.len() as int) =~= p@);
        if let Some(h) = home {
            let k = tilde.len();
            let rest = p.substring_char(k, v.len());
            assert(rest@ =~= p@.skip(k as int));
            if k < v.len() && v[k] == '/' {
                return String::from_str(rest);
            }
            let hv = chars_of(h);
            let mut r = String::from_str(h);
            if hv.len() > 0 && hv[hv.len() - 1] != '/' {
                r.append("/");
            }
            r.append(rest);
            return r;
        }
    }
    assert(v@.subrange(0, v.len() as int) =~= p@);
    String::from_str(p)
}

/// Resolve `HEADWAY_CLOUDBUILD` (`configured`, `None` where unset or not valid
/// UTF-8) or the default path, expanding `~` against `home`.
pub fn resolve_cloudbuild_path_pub(configured: Option<&str>, home: Option<&str>) -> (r: String)
    ensures
        r@ == resolved_path(opt_str(configured), opt_str(home)),
{
    match configured {
        Some(c) => expand_tilde(c, home),
        None => expand_tilde(DEFAULT_CLOUDBUILD_PATH, home),
    }
}

} // verus!
