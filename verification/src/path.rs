//! The paths of listed entries.

use vstd::prelude::*;
use vstd::string::*;

verus! {

/// The separator between the parts of a path.
pub open spec fn separator() -> char {
    '/'
}

/// `s` without the separators it starts with.
pub open spec fn strip_leading_separators(s: Seq<char>) -> Seq<char>
    decreases s.len(),
{
    if s.len() > 0 && s[0] == separator() {
        strip_leading_separators(s.drop_first())
    } else {
        s
    }
}

/// The path of a file `name` below a directory whose path without leading
/// separators is `prefix`.
pub open spec fn spec_file_path(prefix: Seq<char>, name: Seq<char>) -> Seq<char> {
    prefix + name
}

/// The path of a directory `name` below a directory whose path without
/// leading separators is `prefix`: it ends in a separator.
pub open spec fn spec_dir_path(prefix: Seq<char>, name: Seq<char>) -> Seq<char> {
    prefix + name + seq![separator()]
}

/// Stripping removes exactly the run of separators at the front: where the
/// first `k` characters are separators and the next one, if any, is not,
/// the rest from `k` on is left.
pub proof fn lemma_strip_is_skip(s: Seq<char>, k: int)
    requires
        0 <= k <= s.len(),
        forall|j: int| 0 <= j < k ==> s[j] == separator(),
        k < s.len() ==> s[k] != separator(),
    ensures
        strip_leading_separators(s) == s.subrange(k, s.len() as int),
    decreases k,
{
    if k == 0 {
        assert(s.subrange(0, s.len() as int) =~= s);
    } else {
        let t = s.drop_first();
        assert forall|j: int| 0 <= j < k - 1 implies t[j] == separator() by {
            assert(t[j] == s[j + 1]);
        }
        lemma_strip_is_skip(t, k - 1);
        assert(t.subrange(k - 1, t.len() as int) =~= s.subrange(k, s.len() as int));
    }
}

/// Removes the separators that `path` starts with.
pub fn trim_leading_separators(path: &str) -> (r: &str)
    ensures
        r@ == strip_leading_separators(path@),
{
    let n: usize = path.unicode_len();
    let mut i: usize = 0;
    while i < n && path.get_char(i) == '/'
        invariant
            i <= n,
            n == path@.len(),
            forall|j: int| 0 <= j < i ==> path@[j] == separator(),
        decreases n - i,
    {
        i += 1;
    }
    proof {
        lemma_strip_is_skip(path@, i as int);
    }
    path.substring_char(i, n)
}

/// The path of the file `name` below a directory whose path without
/// leading separators is `prefix`.
pub fn file_path(prefix: &str, name: &str) -> (r: String)
    ensures
        r@ == spec_file_path(prefix@, name@),
{
    let mut out: String = prefix.to_owned();
    out.append(name);
    out
}

/// The path of the directory `name` below a directory whose path without
/// leading separators is `prefix`.
pub fn dir_path(prefix: &str, name: &str) -> (r: String)
    ensures
        r@ == spec_dir_path(prefix@, name@),
{
    let mut out: String = prefix.to_owned();
    out.append(name);
    proof {
        reveal_strlit("/");
    }
    out.append("/");
    assert("/"@ =~= seq![separator()]);
    out
}

} // verus!
