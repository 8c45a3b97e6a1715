//! Path-string logic of the handlers: parent-directory extraction before a
//! write, and joining a directory with a relative path.
//!
//! Paths are plain strings of `/`-separated components, as the frontend hands
//! them over. The parent of a path is everything before its last separator
//! (the root `/` alone when the last separator is the leading one); a path
//! without a separator has no parent and nothing need be created for it.

use vstd::prelude::*;

verus! {

/// Whether `s` contains a `/` separator.
pub open spec fn has_sep(s: Seq<char>) -> bool {
    exists|i: int| 0 <= i < s.len() && s[i] == '/'
}

/// The index of the last `/` in `s`, or `-1` if there is none.
pub open spec fn last_sep(s: Seq<char>) -> int
    decreases s.len(),
{
    if s.len() == 0 {
        -1
    } else if s[s.len() - 1] == '/' {
        s.len() - 1
    } else {
        last_sep(s.subrange(0, s.len() - 1))
    }
}

/// The parent directory of `path`: the prefix before the last separator,
/// `/` itself when that separator is the leading character, and nothing
/// when the path has no separator at all.
pub open spec fn parent_spec(path: Seq<char>) -> Option<Seq<char>> {
    if !has_sep(path) {
        None
    } else if last_sep(path) == 0 {
        Some(seq!['/'])
    } else {
        Some(path.subrange(0, last_sep(path)))
    }
}

/// If everything from `j` on is not a separator and `j` is the start or
/// preceded by one, the last separator is exactly at `j - 1`.
proof fn lemma_last_sep_at(s: Seq<char>, j: int)
    requires
        0 <= j <= s.len(),
        forall|k: int| j <= k < s.len() ==> s[k] != '/',
        j > 0 ==> s[j - 1] == '/',
    ensures
        last_sep(s) == j - 1,
        has_sep(s) == (j > 0),
    decreases s.len() - j,
{
    if j == s.len() {
        if j > 0 {
            assert(has_sep(s));
        }
    } else {
        let t = s.subrange(0, s.len() - 1);
        lemma_last_sep_at(t, j);
        assert(s[s.len() - 1] != '/');
        if j > 0 {
            assert(has_sep(t) ==> has_sep(s));
            assert(t[j - 1] == '/');
            assert(has_sep(s));
        } else {
            assert(!has_sep(t));
            assert forall|k: int| 0 <= k < s.len() implies s[k] != '/' by {
                if k < s.len() - 1 {
                    assert(t[k] != '/');
                }
            }
            assert(!has_sep(s));
        }
    }
}

/// The parent directory of `path`, if it has one: what must be created
/// before a file at `path` can be written.
pub fn parent_dir(path: &str) -> (r: Option<String>)
    ensures
        (match (r, parent_spec(path@)) {
            (Some(p), Some(q)) => p@ == q,
            (None, None) => true,
            _ => false,
        }),
{
    let n: usize = path.unicode_len();
    let mut j: usize = n;
    while j > 0 && path.get_char(j - 1) != '/'
        invariant
            0 <= j <= n,
            n == path@.len(),
            forall|k: int| j <= k < n ==> path@[k] != '/',
        decreases j,
    {
        j = j - 1;
    }
    proof {
        lemma_last_sep_at(path@, j as int);
    }
    if j == 0 {
        None
    } else if j == 1 {
        proof {
            reveal_strlit("/");
        }
        assert("/"@ =~= seq!['/']);
        Some("/".to_owned())
    } else {
        let r: &str = path.substring_char(0, j - 1);
        Some(r.to_owned())
    }
}

/// `base` and `rel` joined with a single separator: `rel` alone when `base`
/// is empty, no separator added when `base` already ends in one.
pub open spec fn join_spec(base: Seq<char>, rel: Seq<char>) -> Seq<char> {
    if base.len() == 0 {
        rel
    } else if base[base.len() - 1] == '/' {
        base + rel
    } else {
        base + seq!['/'] + rel
    }
}

/// A file joined under a directory lies in that directory: for a non-empty
/// base that does not end in a separator and a non-empty relative name
/// without one, the parent of the joined path is the base itself.
pub proof fn lemma_parent_of_join(base: Seq<char>, rel: Seq<char>)
    requires
        base.len() > 0,
        base[base.len() - 1] != '/',
        rel.len() > 0,
        !has_sep(rel),
    ensures
        parent_spec(join_spec(base, rel)) == Some(base),
{
    let j = base + seq!['/'] + rel;
    assert forall|k: int| base.len() + 1 <= k < j.len() implies j[k] != '/' by {
        if j[k] == '/' {
            assert(rel[k - base.len() - 1] == '/');
            assert(has_sep(rel));
        }
    }
    assert(j[base.len() as int] == '/');
    lemma_last_sep_at(j, (base.len() + 1) as int);
    assert(j.subrange(0, base.len() as int) =~= base);
}

/// Joins a directory path with a relative path.
pub fn join_path(base: &str, rel: &str) -> (r: String)
    ensures
        r@ == join_spec(base@, rel@),
{
    let n: usize = base.unicode_len();
    if n == 0 {
        rel.to_owned()
    } else if base.get_char(n - 1) == '/' {
        let mut r: String = base.to_owned();
        r.append(rel);
        r
    } else {
        proof {
            reveal_strlit("/");
        }
        assert("/"@ =~= seq!['/']);
        let mut r: String = base.to_owned();
        r.append("/");
        r.append(rel);
        r
    }
}

} // verus!
