//! Properties of the text operations: what trimming removes, what decimal
//! notation denotes, how a text's lines decide what the parsers find, and
//! what a line of the usual shape yields.

use vstd::prelude::*;
use crate::artifact::{artifact_in, artifact_on_line};
use crate::format::{decimal, digit_char};
use crate::manifest::{derivation, manifest_name, name_on_line, PlanError};
use crate::text::{
    first_index_of, is_ws, lemma_first_index_unique, strip_both, strip_end, strip_start, trim,
    trim_end, trim_start,
};

verus! {

proof fn lemma_trim_start(s: Seq<char>) -> (i: int)
    ensures
        0 <= i <= s.len(),
        trim_start(s) == s.skip(i),
        forall|k: int| 0 <= k < i ==> is_ws(s[k]),
        i < s.len() ==> !is_ws(s[i]),
    decreases s.len(),
{
    if s.len() > 0 && is_ws(s[0]) {
        let j = lemma_trim_start(s.drop_first());
        assert(s.drop_first().skip(j) =~= s.skip(j + 1));
        assert forall|k: int| 0 <= k < j + 1 implies is_ws(s[k]) by {
            if k > 0 {
                assert(s[k] == s.drop_first()[k - 1]);
            }
        }
        j + 1
    } else {
        assert(s.skip(0) =~= s);
        0
    }
}

proof fn lemma_trim_end(s: Seq<char>) -> (j: int)
    ensures
        0 <= j <= s.len(),
        trim_end(s) == s.take(j),
        forall|k: int| j <= k < s.len() ==> is_ws(s[k]),
        j > 0 ==> !is_ws(s[j - 1]),
    decreases s.len(),
{
    if s.len() > 0 && is_ws(s.last()) {
        let j = lemma_trim_end(s.drop_last());
        assert(s.drop_last().take(j) =~= s.take(j));
        assert forall|k: int| j <= k < s.len() implies is_ws(s[k]) by {
            if k < s.len() - 1 {
                assert(s[k] == s.drop_last()[k]);
            }
        }
        j
    } else {
        assert(s.take(s.len() as int) =~= s);
        s.len() as int
    }
}

/// Trimming removes whitespace from the two ends and nothing else: the result
/// is a contiguous part of the text, everything cut off is whitespace, and the
/// result neither starts nor ends with whitespace.
pub proof fn trim_removes_only_edge_whitespace(s: Seq<char>)
    ensures
        exists|i: int, j: int|
            0 <= i <= j <= s.len() && trim(s) == s.subrange(i, j) && (forall|k: int|
                0 <= k < i ==> is_ws(#[trigger] s[k])) && (forall|k: int|
                j <= k < s.len() ==> is_ws(#[trigger] s[k])),
        trim(s).len() > 0 ==> !is_ws(trim(s)[0]) && !is_ws(trim(s).last()),
{
    let i = lemma_trim_start(s);
    let t = s.skip(i);
    let j = lemma_trim_end(t);
    assert(t.take(j) =~= s.subrange(i, i + j));
    assert forall|k: int| i + j <= k < s.len() implies is_ws(#[trigger] s[k]) by {
        assert(s[k] == t[k - i]);
    }
    if j > 0 {
        assert(trim(s)[0] == s[i]);
        assert(trim(s).last() == t[j - 1]);
    }
}

/// The number that a sequence of decimal digits denotes.
pub open spec fn digits_value(d: Seq<char>) -> int
    decreases d.len(),
{
    if d.len() == 0 {
        0
    } else {
        digits_value(d.drop_last()) * 10 + (d.last() as int - '0' as int)
    }
}

proof fn lemma_digit_char(d: nat)
    requires
        d < 10,
    ensures
        digit_char(d) as int == '0' as int + d,
{
}

/// Decimal notation is a non-empty string of digits, without a leading zero
/// unless it is `0` itself, that denotes the number.
pub proof fn decimal_denotes_number(n: nat)
    ensures
        decimal(n).len() > 0,
        digits_value(decimal(n)) == n,
        forall|i: int| 0 <= i < decimal(n).len() ==> '0' <= #[trigger] decimal(n)[i] <= '9',
        n > 0 ==> decimal(n)[0] != '0',
    decreases n,
{
    if n < 10 {
        lemma_digit_char(n);
        assert(decimal(n).drop_last() =~= Seq::<char>::empty());
        assert(digits_value(Seq::<char>::empty()) == 0);
        assert(digits_value(decimal(n)) == 0 * 10 + (decimal(n).last() as int - '0' as int));
    } else {
        let m = n / 10;
        decimal_denotes_number(m);
        lemma_digit_char(n % 10);
        let d = decimal(n);
        assert(d.drop_last() =~= decimal(m));
        assert(m * 10 + n % 10 == n) by (nonlinear_arith)
            requires
                m == n / 10,
        ;
        assert forall|i: int| 0 <= i < d.len() implies '0' <= #[trigger] d[i] <= '9' by {
            if i < decimal(m).len() {
                assert(d[i] == decimal(m)[i]);
            }
        }
        assert(d[0] == decimal(m)[0]);
        assert(d.last() == digit_char(n % 10));
        assert(digits_value(d) == digits_value(decimal(m)) * 10 + (d.last() as int - '0' as int));
    }
}

/// `a` holds no line break.
pub open spec fn single_line(a: Seq<char>) -> bool {
    forall|i: int| 0 <= i < a.len() ==> a[i] != '\n'
}

proof fn lemma_split_first_line(a: Seq<char>, b: Seq<char>)
    requires
        single_line(a),
    ensures
        first_index_of(a + "\n"@ + b, '\n') == a.len(),
        (a + "\n"@ + b).take(a.len() as int) == a,
        (a + "\n"@ + b).skip(a.len() as int + 1) == b,
        a.len() < (a + "\n"@ + b).len(),
{
    reveal_strlit("\n");
    let s = a + "\n"@ + b;
    assert(s[a.len() as int] == '\n');
    lemma_first_index_unique(s, '\n', a.len() as int);
    assert(s.take(a.len() as int) =~= a);
    assert(s.skip(a.len() as int + 1) =~= b);
}

proof fn lemma_whole_line(a: Seq<char>)
    requires
        single_line(a),
    ensures
        first_index_of(a, '\n') == a.len(),
        a.take(a.len() as int) == a,
{
    lemma_first_index_unique(a, '\n', a.len() as int);
    assert(a.take(a.len() as int) =~= a);
}

/// Text with no `'\n'` is one line: its artifact is what that line announces.
pub proof fn artifact_of_single_line(a: Seq<char>)
    requires
        single_line(a),
    ensures
        artifact_in(a) == artifact_on_line(a),
{
    lemma_whole_line(a);
}

/// The first line that announces a path decides the artifact: a first line
/// `a` that announces one gives it, whatever follows; one that does not leaves
/// the artifact to the rest of the text, wherever in it the announcing line is.
pub proof fn artifact_first_announcing_line(a: Seq<char>, b: Seq<char>)
    requires
        single_line(a),
    ensures
        artifact_on_line(a) is Some ==> artifact_in(a + "\n"@ + b) == artifact_on_line(a),
        artifact_on_line(a) is None ==> artifact_in(a + "\n"@ + b) == artifact_in(b),
{
    lemma_split_first_line(a, b);
}

/// Trimming leaves alone a text that starts and ends with non-whitespace.
pub proof fn trim_keeps_untrimmed(s: Seq<char>)
    requires
        s.len() > 0,
        !is_ws(s[0]),
        !is_ws(s.last()),
    ensures
        trim(s) == s,
{
}

/// Trimming drops one leading space before such a text.
pub proof fn trim_drops_leading_space(q: Seq<char>)
    requires
        q.len() > 0,
        !is_ws(q[0]),
        !is_ws(q.last()),
    ensures
        trim(seq![' '] + q) == q,
{
    let s = seq![' '] + q;
    assert(s.drop_first() =~= q);
    assert(trim_start(s) == trim_start(q));
}

/// A line `pulled: <p>` or `artifact: <p>`, with `p` neither starting nor
/// ending with whitespace, announces `p`.
pub proof fn artifact_line_announces_path(p: Seq<char>)
    requires
        p.len() > 0,
        !is_ws(p[0]),
        !is_ws(p.last()),
    ensures
        artifact_on_line("pulled: "@ + p) == Some(p),
        artifact_on_line("artifact: "@ + p) == Some(p),
{
    reveal_strlit("pulled: ");
    reveal_strlit("pulled:");
    reveal_strlit("artifact: ");
    reveal_strlit("artifact:");
    let l1 = "pulled: "@ + p;
    assert("pulled: "@ =~= seq!['p', 'u', 'l', 'l', 'e', 'd', ':', ' ']);
    assert("pulled:"@ =~= seq!['p', 'u', 'l', 'l', 'e', 'd', ':']);
    trim_keeps_untrimmed(l1);
    assert(l1.take(7) =~= "pulled:"@);
    assert(l1.skip(7) =~= seq![' '] + p);
    trim_drops_leading_space(p);
    let l2 = "artifact: "@ + p;
    assert("artifact: "@ =~= seq!['a', 'r', 't', 'i', 'f', 'a', 'c', 't', ':', ' ']);
    assert("artifact:"@ =~= seq!['a', 'r', 't', 'i', 'f', 'a', 'c', 't', ':']);
    trim_keeps_untrimmed(l2);
    assert(l2.take(7)[0] != "pulled:"@[0]);
    assert(l2.take(9) =~= "artifact:"@);
    assert(l2.skip(9) =~= seq![' '] + p);
}


/// Text with no `'\n'` is one line: the manifest's name is what that line assigns.
pub proof fn manifest_name_of_single_line(a: Seq<char>)
    requires
        single_line(a),
    ensures
        manifest_name(a) == name_on_line(a),
{
    lemma_whole_line(a);
}

/// The first line that assigns a name decides the manifest's name: a first
/// line `a` that assigns one gives it, whatever follows; one that does not
/// leaves the name to the rest of the text.
pub proof fn manifest_first_naming_line(a: Seq<char>, b: Seq<char>)
    requires
        single_line(a),
    ensures
        name_on_line(a) is Some ==> manifest_name(a + "\n"@ + b) == name_on_line(a),
        name_on_line(a) is None ==> manifest_name(a + "\n"@ + b) == manifest_name(b),
{
    lemma_split_first_line(a, b);
}

/// A line `name = "<n>"` assigns `n`, for any non-empty `n` that neither
/// starts nor ends with `"`.
pub proof fn name_line_assigns(n: Seq<char>)
    requires
        n.len() > 0,
        n[0] != '"',
        n.last() != '"',
    ensures
        name_on_line("name = \""@ + n + "\""@) == Some(n),
{
    reveal_strlit("name = \"");
    reveal_strlit("\"");
    reveal_strlit("name");
    assert("name = \""@ =~= seq!['n', 'a', 'm', 'e', ' ', '=', ' ', '"']);
    assert("\""@ =~= seq!['"']);
    assert("name"@ =~= seq!['n', 'a', 'm', 'e']);
    let line = "name = \""@ + n + "\""@;
    trim_keeps_untrimmed(line);
    assert(line.take(4) =~= "name"@);
    let rest = line.skip(4);
    assert(rest =~= seq![' ', '=', ' ', '"'] + n + seq!['"']);
    lemma_first_index_unique(rest, '=', 1);
    let after = rest.skip(2);
    assert(after =~= seq![' '] + (seq!['"'] + n + seq!['"']));
    let quoted = seq!['"'] + n + seq!['"'];
    trim_drops_leading_space(quoted);
    assert(quoted.drop_first() =~= n + seq!['"']);
    assert(strip_start(quoted, '"') == strip_start(n + seq!['"'], '"'));
    assert((n + seq!['"'])[0] == n[0]);
    assert(strip_start(n + seq!['"'], '"') == n + seq!['"']);
    assert((n + seq!['"']).drop_last() =~= n);
    assert(strip_end(n + seq!['"'], '"') == strip_end(n, '"'));
    assert(strip_both(quoted, '"') == n);
}

/// A manifest whose first line is a table header such as `[package]` and whose
/// second line is `name = "<n>"` names `n`.
pub proof fn manifest_with_package_name(header: Seq<char>, n: Seq<char>, rest: Seq<char>)
    requires
        single_line(header),
        header.len() > 0,
        header[0] == '[',
        !is_ws(header.last()),
        single_line(n),
        n.len() > 0,
        n[0] != '"',
        n.last() != '"',
    ensures
        manifest_name(header + "\n"@ + ("name = \""@ + n + "\""@) + "\n"@ + rest) == Some(n),
{
    reveal_strlit("\n");
    reveal_strlit("name = \"");
    reveal_strlit("\"");
    reveal_strlit("name");
    let line = "name = \""@ + n + "\""@;
    assert(single_line(line)) by {
        assert("name = \""@ =~= seq!['n', 'a', 'm', 'e', ' ', '=', ' ', '"']);
        assert("\""@ =~= seq!['"']);
        assert forall|i: int| 0 <= i < line.len() implies line[i] != '\n' by {
            if 8 <= i < 8 + n.len() {
                assert(line[i] == n[i - 8]);
            }
        }
    }
    trim_keeps_untrimmed(header);
    assert(name_on_line(header) is None) by {
        assert("name"@ =~= seq!['n', 'a', 'm', 'e']);
        if header.len() >= 4 {
            assert(header.take(4)[0] == header[0]);
            assert(header.take(4)[0] != "name"@[0]);
        }
    }
    let tail = line + "\n"@ + rest;
    assert(header + "\n"@ + line + "\n"@ + rest =~= header + "\n"@ + tail);
    manifest_first_naming_line(header, tail);
    name_line_assigns(n);
    manifest_first_naming_line(line, rest);
}

/// An existing directory's crate name is the name its manifest assigns, where
/// the manifest assigns one, whatever the basename.
pub proof fn derivation_prefers_manifest(
    manifest: Seq<char>,
    basename: Option<Seq<char>>,
    n: Seq<char>,
)
    requires
        manifest_name(manifest) == Some(n),
    ensures
        derivation(true, Some(manifest), basename) == Ok::<Seq<char>, PlanError>(n),
{
}

/// An existing directory whose manifest is absent or assigns no name is named
/// by its basename, where it has one; with neither, there is no name.
pub proof fn derivation_falls_back_to_basename(manifest: Option<Seq<char>>, basename: Seq<char>)
    requires
        manifest is None || manifest_name(manifest->0) is None,
    ensures
        derivation(true, manifest, Some(basename)) == Ok::<Seq<char>, PlanError>(basename),
        derivation(true, manifest, None) == Err::<Seq<char>, PlanError>(
            PlanError::NoReadableBasename,
        ),
{
}

/// A missing directory has no crate name, whatever its manifest and basename.
pub proof fn derivation_needs_directory(manifest: Option<Seq<char>>, basename: Option<Seq<char>>)
    ensures
        derivation(false, manifest, basename) == Err::<Seq<char>, PlanError>(
            PlanError::CrateDirNotFound,
        ),
{
}

} // verus!
