//! Whitespace trimming for captured command output.
//!
//! The command-lookup handler returns the path printed by the lookup tool
//! with surrounding whitespace (in particular the trailing newline) removed.

use vstd::prelude::*;

verus! {

/// A character with the Unicode `White_Space` property.
pub open spec fn is_ws(c: char) -> bool {
    let u = c as u32;
    (0x9 <= u && u <= 0xD) || u == 0x20 || u == 0x85 || u == 0xA0 || u == 0x1680
        || (0x2000 <= u && u <= 0x200A) || u == 0x2028 || u == 0x2029 || u == 0x202F
        || u == 0x205F || u == 0x3000
}

/// Executable mirror of [`is_ws`].
pub fn is_ws_char(c: char) -> (b: bool)
    ensures
        b == is_ws(c),
{
    let u: u32 = c as u32;
    (0x9 <= u && u <= 0xD) || u == 0x20 || u == 0x85 || u == 0xA0 || u == 0x1680
        || (0x2000 <= u && u <= 0x200A) || u == 0x2028 || u == 0x2029 || u == 0x202F
        || u == 0x205F || u == 0x3000
}

/// The sequence with its leading whitespace removed.
pub open spec fn drop_leading_ws(s: Seq<char>) -> Seq<char>
    decreases s.len(),
{
    if s.len() == 0 {
        s
    } else if is_ws(s[0]) {
        drop_leading_ws(s.subrange(1, s.len() as int))
    } else {
        s
    }
}

/// The sequence with its trailing whitespace removed.
pub open spec fn drop_trailing_ws(s: Seq<char>) -> Seq<char>
    decreases s.len(),
{
    if s.len() == 0 {
        s
    } else if is_ws(s[s.len() - 1]) {
        drop_trailing_ws(s.subrange(0, s.len() - 1))
    } else {
        s
    }
}

/// The sequence with both leading and trailing whitespace removed.
pub open spec fn trim_spec(s: Seq<char>) -> Seq<char> {
    drop_trailing_ws(drop_leading_ws(s))
}

/// If everything before `i` is whitespace and `i` is past the end or
/// non-whitespace, the leading whitespace is exactly the prefix up to `i`.
proof fn lemma_drop_leading_at(s: Seq<char>, i: int)
    requires
        0 <= i <= s.len(),
        forall|k: int| 0 <= k < i ==> is_ws(s[k]),
        i < s.len() ==> !is_ws(s[i]),
    ensures
        drop_leading_ws(s) == s.subrange(i, s.len() as int),
    decreases i,
{
    if i == 0 {
        assert(s.subrange(0, s.len() as int) =~= s);
    } else {
        let t = s.subrange(1, s.len() as int);
        lemma_drop_leading_at(t, i - 1);
        assert(t.subrange(i - 1, t.len() as int) =~= s.subrange(i, s.len() as int));
    }
}

/// If everything from `j` on is whitespace and `j` is the start or preceded by
/// a non-whitespace character, the trailing whitespace is exactly the suffix
/// from `j` on.
proof fn lemma_drop_trailing_at(s: Seq<char>, j: int)
    requires
        0 <= j <= s.len(),
        forall|k: int| j <= k < s.len() ==> is_ws(s[k]),
        j > 0 ==> !is_ws(s[j - 1]),
    ensures
        drop_trailing_ws(s) == s.subrange(0, j),
    decreases s.len() - j,
{
    if j == s.len() {
        assert(s.subrange(0, s.len() as int) =~= s);
    } else {
        let t = s.subrange(0, s.len() - 1);
        lemma_drop_trailing_at(t, j);
        assert(t.subrange(0, j) =~= s.subrange(0, j));
    }
}

/// What leading-whitespace removal leaves either is empty or starts with a
/// non-whitespace character.
proof fn lemma_drop_leading_head(s: Seq<char>)
    ensures
        drop_leading_ws(s).len() == 0 || !is_ws(drop_leading_ws(s)[0]),
    decreases s.len(),
{
    if s.len() > 0 && is_ws(s[0]) {
        lemma_drop_leading_head(s.subrange(1, s.len() as int));
    }
}

/// What trailing-whitespace removal leaves either is empty or ends with a
/// non-whitespace character.
proof fn lemma_drop_trailing_last(s: Seq<char>)
    ensures
        drop_trailing_ws(s).len() == 0 || !is_ws(
            drop_trailing_ws(s)[drop_trailing_ws(s).len() - 1],
        ),
    decreases s.len(),
{
    if s.len() > 0 && is_ws(s[s.len() - 1]) {
        lemma_drop_trailing_last(s.subrange(0, s.len() - 1));
    }
}

/// Trailing-whitespace removal leaves a prefix of its input.
proof fn lemma_drop_trailing_prefix(s: Seq<char>)
    ensures
        drop_trailing_ws(s).len() <= s.len(),
        drop_trailing_ws(s) == s.subrange(0, drop_trailing_ws(s).len() as int),
    decreases s.len(),
{
    if s.len() == 0 {
        assert(s.subrange(0, 0) =~= s);
    } else if is_ws(s[s.len() - 1]) {
        let t = s.subrange(0, s.len() - 1);
        lemma_drop_trailing_prefix(t);
        assert(t.subrange(0, drop_trailing_ws(t).len() as int) =~= s.subrange(
            0,
            drop_trailing_ws(t).len() as int,
        ));
    } else {
        assert(s.subrange(0, s.len() as int) =~= s);
    }
}

/// Trimming is idempotent: a trimmed sequence has no whitespace left at
/// either end, so trimming it again changes nothing.
pub proof fn lemma_trim_idempotent(s: Seq<char>)
    ensures
        trim_spec(trim_spec(s)) == trim_spec(s),
{
    let u = drop_leading_ws(s);
    let t = drop_trailing_ws(u);
    lemma_drop_leading_head(s);
    lemma_drop_trailing_last(u);
    lemma_drop_trailing_prefix(u);
    if t.len() > 0 {
        assert(t[0] == u[0]);
    }
}

/// Returns `s` with its leading and trailing whitespace removed.
pub fn trim_ws(s: &str) -> (r: String)
    ensures
        r@ == trim_spec(s@),
{
    let n: usize = s.unicode_len();
    let mut i: usize = 0;
    while i < n && is_ws_char(s.get_char(i))
        invariant
            0 <= i <= n,
            n == s@.len(),
            forall|k: int| 0 <= k < i ==> is_ws(s@[k]),
        decreases n - i,
    {
        i = i + 1;
    }
    let mut j: usize = n;
    while j > i && is_ws_char(s.get_char(j - 1))
        invariant
            i <= j <= n,
            n == s@.len(),
            forall|k: int| 0 <= k < i ==> is_ws(s@[k]),
            i < n ==> !is_ws(s@[i as int]),
            forall|k: int| j <= k < n ==> is_ws(s@[k]),
        decreases j,
    {
        j = j - 1;
    }
    proof {
        lemma_drop_leading_at(s@, i as int);
        let t = s@.subrange(i as int, s@.len() as int);
        lemma_drop_trailing_at(t, j - i);
        assert(t.subrange(0, j - i) =~= s@.subrange(i as int, j as int));
    }
    let r: &str = s.substring_char(i, j);
    r.to_owned()
}

} // verus!
