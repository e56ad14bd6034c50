//! White-space trimming of raw path strings, the only validation the
//! backend performs before touching the filesystem.

use vstd::prelude::*;
use vstd::string::StrSliceExecFns;

verus! {

/// The Unicode white-space characters: the set that trimming removes
/// from the ends of a raw path.
pub open spec fn is_space(c: char) -> bool {
    c == '\u{0009}' || c == '\u{000A}' || c == '\u{000B}' || c == '\u{000C}'
        || c == '\u{000D}' || c == ' ' || c == '\u{0085}' || c == '\u{00A0}'
        || c == '\u{1680}' || c == '\u{2000}' || c == '\u{2001}' || c == '\u{2002}'
        || c == '\u{2003}' || c == '\u{2004}' || c == '\u{2005}' || c == '\u{2006}'
        || c == '\u{2007}' || c == '\u{2008}' || c == '\u{2009}' || c == '\u{200A}'
        || c == '\u{2028}' || c == '\u{2029}' || c == '\u{202F}' || c == '\u{205F}'
        || c == '\u{3000}'
}

/// Decides `is_space` for one character.
pub fn is_whitespace_char(c: char) -> (r: bool)
    ensures
        r == is_space(c),
{
    match c {
        '\u{0009}' | '\u{000A}' | '\u{000B}' | '\u{000C}' | '\u{000D}' | ' '
        | '\u{0085}' | '\u{00A0}' | '\u{1680}' | '\u{2000}' | '\u{2001}' | '\u{2002}'
        | '\u{2003}' | '\u{2004}' | '\u{2005}' | '\u{2006}' | '\u{2007}' | '\u{2008}'
        | '\u{2009}' | '\u{200A}' | '\u{2028}' | '\u{2029}' | '\u{202F}' | '\u{205F}'
        | '\u{3000}' => true,
        _ => false,
    }
}

/// What is left of `s` once every leading white-space character is gone.
pub open spec fn trim_front(s: Seq<char>) -> Seq<char>
    decreases s.len(),
{
    if s.len() > 0 && is_space(s[0]) {
        trim_front(s.drop_first())
    } else {
        s
    }
}

/// What is left of `s` once every trailing white-space character is gone.
pub open spec fn trim_back(s: Seq<char>) -> Seq<char>
    decreases s.len(),
{
    if s.len() > 0 && is_space(s.last()) {
        trim_back(s.drop_last())
    } else {
        s
    }
}

/// `s` with white space removed from both ends: what normalizing a raw
/// path keeps of it.
pub open spec fn trimmed(s: Seq<char>) -> Seq<char> {
    trim_back(trim_front(s))
}

/// If the first `k` characters of `s` are white space and the one after
/// them (if any) is not, then trimming the front removes exactly those `k`.
pub proof fn lemma_trim_front_at(s: Seq<char>, k: int)
    requires
        0 <= k <= s.len(),
        forall|i: int| 0 <= i < k ==> is_space(s[i]),
        k < s.len() ==> !is_space(s[k]),
    ensures
        trim_front(s) == s.subrange(k, s.len() as int),
    decreases k,
{
    if k == 0 {
        assert(s.subrange(0, s.len() as int) =~= s);
    } else {
        let tail = s.drop_first();
        assert(is_space(s[0]));
        assert forall|i: int| 0 <= i < k - 1 implies is_space(tail[i]) by {
            assert(tail[i] == s[i + 1]);
        }
        if k - 1 < tail.len() {
            assert(tail[k - 1] == s[k]);
        }
        lemma_trim_front_at(tail, k - 1);
        assert(tail.subrange(k - 1, tail.len() as int) =~= s.subrange(k, s.len() as int));
    }
}

/// If the characters of `s` from position `k` on are white space and the
/// one before them (if any) is not, then trimming the back keeps exactly
/// the first `k`.
pub proof fn lemma_trim_back_at(s: Seq<char>, k: int)
    requires
        0 <= k <= s.len(),
        forall|i: int| k <= i < s.len() ==> is_space(s[i]),
        k > 0 ==> !is_space(s[k - 1]),
    ensures
        trim_back(s) == s.subrange(0, k),
    decreases s.len() - k,
{
    if k == s.len() {
        assert(s.subrange(0, k) =~= s);
    } else {
        let front = s.drop_last();
        assert(is_space(s[s.len() - 1]));
        assert forall|i: int| k <= i < front.len() implies is_space(front[i]) by {
            assert(front[i] == s[i]);
        }
        lemma_trim_back_at(front, k);
        assert(front.subrange(0, k) =~= s.subrange(0, k));
    }
}

/// A string of nothing but white space trims to the empty string.
pub proof fn lemma_all_space_trims_empty(s: Seq<char>)
    requires
        forall|i: int| 0 <= i < s.len() ==> is_space(s[i]),
    ensures
        trimmed(s).len() == 0,
{
    lemma_trim_front_at(s, s.len() as int);
    assert(trim_front(s) =~= Seq::<char>::empty());
    assert(trim_back(Seq::<char>::empty()) =~= Seq::<char>::empty());
}

/// The position right after the leading run of white space.
fn leading_space_count(s: &str) -> (k: usize)
    ensures
        k <= s@.len(),
        forall|i: int| 0 <= i < k ==> is_space(s@[i]),
        k < s@.len() ==> !is_space(s@[k as int]),
{
    let n: usize = s.unicode_len();
    let mut k: usize = 0;
    while k < n
        invariant
            n == s@.len(),
            k <= n,
            forall|i: int| 0 <= i < k ==> is_space(s@[i]),
        decreases n - k,
    {
        if !is_whitespace_char(s.get_char(k)) {
            return k;
        }
        k = k + 1;
    }
    k
}

/// The position where the trailing run of white space begins, scanning
/// no further left than `from`.
fn trailing_space_start(s: &str, from: usize) -> (k: usize)
    requires
        from <= s@.len(),
    ensures
        from <= k <= s@.len(),
        forall|i: int| k <= i < s@.len() ==> is_space(s@[i]),
        k > from ==> !is_space(s@[k - 1]),
{
    let n: usize = s.unicode_len();
    let mut k: usize = n;
    while k > from
        invariant
            n == s@.len(),
            from <= k <= n,
            forall|i: int| k <= i < n ==> is_space(s@[i]),
        decreases k,
    {
        if !is_whitespace_char(s.get_char(k - 1)) {
            return k;
        }
        k = k - 1;
    }
    k
}

/// Removes white space from both ends of `s`, as the trimming model says.
pub fn trim_str<'a>(s: &'a str) -> (t: &'a str)
    ensures
        t@ == trimmed(s@),
{
    let start = leading_space_count(s);
    let end = trailing_space_start(s, start);
    proof {
        lemma_trim_front_at(s@, start as int);
        let sub = s@.subrange(start as int, s@.len() as int);
        assert forall|i: int| end - start <= i < sub.len() implies is_space(sub[i]) by {
            assert(sub[i] == s@[start + i]);
        }
        if end > start {
            assert(sub[end - start - 1] == s@[end - 1]);
        }
        lemma_trim_back_at(sub, end - start);
        assert(sub.subrange(0, end - start) =~= s@.subrange(start as int, end as int));
    }
    s.substring_char(start, end)
}

} // verus!
