//! Character-level string helpers the protocol layers share: prefix tests,
//! substring search, and segment extraction, each proved against a direct
//! statement over the strings' character sequences.

use vstd::prelude::*;

verus! {

/// `p` is a prefix of `s`.
pub open spec fn spec_starts_with(s: Seq<char>, p: Seq<char>) -> bool {
    p.len() <= s.len() && s.subrange(0, p.len() as int) == p
}

/// `p` occurs in `s` starting at position `i`.
pub open spec fn spec_match_at(s: Seq<char>, p: Seq<char>, i: int) -> bool {
    0 <= i && i + p.len() <= s.len() && s.subrange(i, i + p.len()) == p
}

/// `p` occurs somewhere in `s`.
pub open spec fn spec_contains(s: Seq<char>, p: Seq<char>) -> bool {
    exists|i: int| spec_match_at(s, p, i)
}

/// The first position at or after `i` where `p` occurs in `s`, or -1 when
/// it occurs nowhere from `i` on.
pub open spec fn spec_find_from(s: Seq<char>, p: Seq<char>, i: int) -> int
    decreases s.len() - i,
{
    if i < 0 || i + p.len() > s.len() {
        -1
    } else if p.len() == 0 {
        i
    } else if s.subrange(i, i + p.len()) == p {
        i
    } else {
        spec_find_from(s, p, i + 1)
    }
}

/// Skipping a position that does not match leaves the search unchanged.
pub proof fn lemma_find_from_skip(s: Seq<char>, p: Seq<char>, i: int)
    requires
        0 <= i,
        !spec_match_at(s, p, i),
    ensures
        spec_find_from(s, p, i) == spec_find_from(s, p, i + 1),
{
    if i + p.len() <= s.len() && p.len() == 0 {
        assert(s.subrange(i, i + p.len()) =~= p);
        assert(spec_match_at(s, p, i));
    }
}

/// What `spec_find_from` answers is correct: -1 means no occurrence at or
/// after `i`, and a position is the first occurrence.
pub proof fn lemma_find_from_correct(s: Seq<char>, p: Seq<char>, i: int)
    requires
        0 <= i,
    ensures
        spec_find_from(s, p, i) == -1 ==> forall|j: int| i <= j ==> !spec_match_at(s, p, j),
        spec_find_from(s, p, i) >= 0 ==> spec_match_at(s, p, spec_find_from(s, p, i))
            && i <= spec_find_from(s, p, i) && forall|j: int|
            i <= j < spec_find_from(s, p, i) ==> !spec_match_at(s, p, j),
    decreases s.len() - i,
{
    if i + p.len() > s.len() {
        assert(forall|j: int| i <= j ==> !spec_match_at(s, p, j));
    } else if p.len() == 0 {
        assert(s.subrange(i, i + p.len()) =~= p);
    } else if s.subrange(i, i + p.len()) == p {
    } else {
        lemma_find_from_correct(s, p, i + 1);
    }
}

/// Whether `p` occurs in `s` at exactly position `i`, decided by
/// character comparison.
pub fn match_at(s: &str, p: &str, i: usize) -> (r: bool)
    requires
        i + p@.len() <= s@.len(),
        s@.len() <= usize::MAX,
    ensures
        r == spec_match_at(s@, p@, i as int),
{
    let n = p.unicode_len();
    let mut k: usize = 0;
    while k < n
        invariant
            k <= n,
            n == p@.len(),
            i + n <= s@.len(),
            s@.len() <= usize::MAX,
            forall|j: int| 0 <= j < k ==> s@[i + j] == p@[j],
        decreases n - k,
    {
        if s.get_char(i + k) != p.get_char(k) {
            proof {
                assert(s@.subrange(i as int, i + p@.len())[k as int] == s@[i + k]);
            }
            return false;
        }
        k = k + 1;
    }
    proof {
        assert(s@.subrange(i as int, i + p@.len()) =~= p@);
    }
    true
}

/// `p` is a prefix of `s`.
pub fn starts_with(s: &str, p: &str) -> (r: bool)
    ensures
        r == spec_starts_with(s@, p@),
{
    let n = p.unicode_len();
    let m = s.unicode_len();
    if n > m {
        return false;
    }
    let r = match_at(s, p, 0);
    proof {
        assert(s@.subrange(0, p@.len() as int) == s@.subrange(0int, 0 + p@.len() as int));
    }
    r
}

/// The position of the first occurrence of `p` in `s`, or `None` when it
/// does not occur at all.
pub fn find(s: &str, p: &str) -> (r: Option<usize>)
    ensures
        match r {
            Some(i) => i == spec_find_from(s@, p@, 0) && spec_match_at(s@, p@, i as int),
            None => spec_find_from(s@, p@, 0) == -1 && !spec_contains(s@, p@),
        },
{
    let n = p.unicode_len();
    let m = s.unicode_len();
    if n > m {
        proof {
            assert(forall|j: int| spec_match_at(s@, p@, j) ==> j + p@.len() <= s@.len());
        }
        return None;
    }
    let last = m - n;
    let mut i: usize = 0;
    loop
        invariant
            n <= m,
            last == m - n,
            n == p@.len(),
            m == s@.len(),
            i <= last,
            spec_find_from(s@, p@, 0) == spec_find_from(s@, p@, i as int),
            forall|j: int| 0 <= j < i ==> !spec_match_at(s@, p@, j),
        decreases last - i,
    {
        if match_at(s, p, i) {
            return Some(i);
        }
        proof {
            lemma_find_from_skip(s@, p@, i as int);
        }
        if i == last {
            proof {
                assert(forall|j: int| spec_match_at(s@, p@, j) ==> 0 <= j <= m - n);
            }
            return None;
        }
        i = i + 1;
    }
}

/// The first position at or after `from` holding a character of `stops`,
/// or the string's length when none follows.
pub open spec fn spec_until_stop(s: Seq<char>, from: int, stops: Seq<char>) -> int
    decreases s.len() - from,
{
    if from < 0 || from >= s.len() {
        s.len() as int
    } else if stops.contains(s[from]) {
        from
    } else {
        spec_until_stop(s, from + 1, stops)
    }
}

/// Skipping a non-stop position leaves the scan unchanged.
pub proof fn lemma_until_stop_skip(s: Seq<char>, from: int, stops: Seq<char>)
    requires
        0 <= from < s.len(),
        !stops.contains(s[from]),
    ensures
        spec_until_stop(s, from, stops) == spec_until_stop(s, from + 1, stops),
{
}

/// Characters of `s` from `from` up to (excluding) the first occurrence of
/// any character of `stops`, or up to the end when none occurs.
pub fn take_until(s: &str, from: usize, stops: &str) -> (r: String)
    requires
        from <= s@.len(),
    ensures
        r@ == s@.subrange(from as int, spec_until_stop(s@, from as int, stops@)),
{
    let m = s.unicode_len();
    let mut k: usize = from;
    while k < m
        invariant
            from <= k <= m,
            m == s@.len(),
            spec_until_stop(s@, from as int, stops@) == spec_until_stop(s@, k as int, stops@),
        decreases m - k,
    {
        if char_in(s.get_char(k), stops) {
            let r = String::from_str(s.substring_char(from, k));
            return r;
        }
        proof {
            lemma_until_stop_skip(s@, k as int, stops@);
        }
        k = k + 1;
    }
    let r = String::from_str(s.substring_char(from, m));
    r
}

/// Whether `c` occurs in `set`.
fn char_in(c: char, set: &str) -> (r: bool)
    ensures
        r == set@.contains(c),
{
    let n = set.unicode_len();
    let mut i: usize = 0;
    while i < n
        invariant
            i <= n,
            n == set@.len(),
            forall|j: int| 0 <= j < i ==> set@[j] != c,
        decreases n - i,
    {
        if set.get_char(i) == c {
            return true;
        }
        i = i + 1;
    }
    false
}

} // verus!
