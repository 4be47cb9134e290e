//! Output-path derivation: a pure, total mapping from an input path and a
//! target format extension to the output path `{parent}/{stem}_compressed.{ext}`.

use vstd::prelude::*;
use vstd::string::*;

verus! {

/// Index of the last occurrence of `c` in `s`, if any.
pub open spec fn last_index_of_char(s: Seq<char>, c: char) -> Option<int>
    decreases s.len(),
{
    if s.len() == 0 {
        None
    } else if s[s.len() - 1] == c {
        Some(s.len() - 1)
    } else {
        last_index_of_char(s.drop_last(), c)
    }
}

/// The directory part of `path`: everything before the last `/`, or `.` when
/// the path has no directory component.
pub open spec fn dir_prefix_of(path: Seq<char>) -> Seq<char> {
    match last_index_of_char(path, '/') {
        None => "."@,
        Some(k) => path.subrange(0, k),
    }
}

/// The final component of `path`: everything after the last `/`.
pub open spec fn filename_of(path: Seq<char>) -> Seq<char> {
    match last_index_of_char(path, '/') {
        None => path,
        Some(k) => path.subrange(k + 1, path.len() as int),
    }
}

/// The filename without its extension. A name with no dot, or whose only dot
/// leads it, is its own stem; an empty name falls back to `compressed`.
pub open spec fn stem_of(name: Seq<char>) -> Seq<char> {
    if name.len() == 0 {
        "compressed"@
    } else {
        match last_index_of_char(name, '.') {
            None => name,
            Some(k) => if k == 0 {
                name
            } else {
                name.subrange(0, k)
            },
        }
    }
}

/// The derived output path: `{parent}/{stem}_compressed.{ext}`.
pub open spec fn output_path_spec(path: Seq<char>, ext: Seq<char>) -> Seq<char> {
    dir_prefix_of(path) + "/"@ + stem_of(filename_of(path)) + "_compressed."@ + ext
}

proof fn lemma_last_index_of_char_some(s: Seq<char>, c: char, i: int)
    requires
        0 <= i < s.len(),
        s[i] == c,
        forall|j: int| i < j < s.len() ==> s[j] != c,
    ensures
        last_index_of_char(s, c) == Some(i),
    decreases s.len(),
{
    if i == s.len() - 1 {
    } else {
        assert(s.drop_last() =~= s.subrange(0, s.len() - 1));
        lemma_last_index_of_char_some(s.drop_last(), c, i);
    }
}

proof fn lemma_last_index_of_char_none(s: Seq<char>, c: char)
    requires
        forall|j: int| 0 <= j < s.len() ==> s[j] != c,
    ensures
        last_index_of_char(s, c) is None,
    decreases s.len(),
{
    if s.len() > 0 {
        lemma_last_index_of_char_none(s.drop_last(), c);
    }
}

/// Scans `s` from the end for the last occurrence of `c`.
fn rfind_char(s: &str, c: char) -> (r: Option<usize>)
    ensures
        r matches Some(i) ==> i < s@.len() && last_index_of_char(s@, c) == Some(i as int),
        r is None ==> last_index_of_char(s@, c) is None,
{
    let n = s.unicode_len();
    let mut i: usize = n;
    while i > 0
        invariant
            n == s@.len(),
            0 <= i <= n,
            forall|j: int| i <= j < n ==> s@[j] != c,
        decreases i,
    {
        i = i - 1;
        if s.get_char(i) == c {
            proof {
                lemma_last_index_of_char_some(s@, c, i as int);
            }
            return Some(i);
        }
    }
    proof {
        lemma_last_index_of_char_none(s@, c);
    }
    None
}

/// Computes the output path for `original` under the target format extension
/// `format`: the input's parent directory (`.` when it has none), then the
/// input's stem (`compressed` when it has none) suffixed with `_compressed`,
/// then the new extension. Pure and total: it never fails.
pub fn generate_output_path(original: &str, format: &str) -> (r: String)
    ensures
        r@ == output_path_spec(original@, format@),
{
    let n = original.unicode_len();
    let mut out: String;
    let name: &str;
    match rfind_char(original, '/') {
        Some(k) => {
            out = String::from_str(original.substring_char(0, k));
            name = original.substring_char(k + 1, n);
        },
        None => {
            out = String::from_str(".");
            name = original;
        },
    }
    assert(out@ == dir_prefix_of(original@));
    assert(name@ == filename_of(original@));
    out.append("/");
    let name_len = name.unicode_len();
    if name_len == 0 {
        out.append("compressed");
    } else {
        match rfind_char(name, '.') {
            Some(k) => {
                if k == 0 {
                    out.append(name);
                } else {
                    out.append(name.substring_char(0, k));
                }
            },
            None => {
                out.append(name);
            },
        }
    }
    out.append("_compressed.");
    out.append(format);
    proof {
        assert(out@ =~= output_path_spec(original@, format@));
    }
    out
}

} // verus!
