//! Character-level operations on strings, stated over their views.

use vstd::prelude::*;
use vstd::string::*;

verus! {

/// Index just past the last `'/'` of `s`, or 0 where `s` holds none.
pub open spec fn last_slash(s: Seq<char>) -> int
    decreases s.len(),
{
    if s.len() == 0 {
        0
    } else if s.last() == '/' {
        s.len() as int
    } else {
        last_slash(s.drop_last())
    }
}

/// What follows the last `'/'` of `s`: all of `s` where it holds none.
pub open spec fn last_segment(s: Seq<char>) -> Seq<char> {
    s.subrange(last_slash(s), s.len() as int)
}

/// What stands before the last segment of `s`: all of `s` up to its last
/// `'/'`, that one included, and nothing where `s` holds none.
pub open spec fn before_last_segment(s: Seq<char>) -> Seq<char> {
    s.subrange(0, last_slash(s))
}

/// A text is what stands before its last segment, followed by that segment,
/// and the segment holds no `'/'`.
pub proof fn lemma_last_segment_splits(s: Seq<char>)
    ensures
        0 <= last_slash(s) <= s.len(),
        before_last_segment(s) + last_segment(s) == s,
        !last_segment(s).contains('/'),
    decreases s.len(),
{
    if s.len() > 0 && s.last() != '/' {
        let t = s.drop_last();
        lemma_last_segment_splits(t);
        let segment = last_segment(s);
        assert forall|i: int| 0 <= i < segment.len() implies segment[i] != '/' by {
            if i < segment.len() - 1 {
                assert(last_segment(t)[i] == segment[i]);
            }
        }
    }
    assert(before_last_segment(s) + last_segment(s) =~= s);
}

/// What stands before the last segment is empty or ends in `'/'`.
pub proof fn lemma_before_last_segment_ends_in_slash(s: Seq<char>)
    ensures
        before_last_segment(s).len() > 0 ==> before_last_segment(s).last() == '/',
    decreases s.len(),
{
    lemma_last_segment_splits(s);
    if s.len() > 0 && s.last() != '/' {
        let t = s.drop_last();
        lemma_before_last_segment_ends_in_slash(t);
        lemma_last_segment_splits(t);
        assert(before_last_segment(s) =~= before_last_segment(t));
    }
}

/// Whether two strings hold the same characters.
pub fn str_eq(a: &str, b: &str) -> (same: bool)
    ensures
        same == (a@ == b@),
{
    let x = a.to_owned();
    let y = b.to_owned();
    x == y
}

/// Whether `s` holds `pattern` at character position `at`. No position behind
/// the end of `s` holds anything.
pub fn matches_at(s: &str, at: usize, pattern: &str) -> (found: bool)
    ensures
        found == (at <= s@.len() && pattern@.is_prefix_of(s@.skip(at as int))),
{
    let n = s.unicode_len();
    let m = pattern.unicode_len();
    if at > n || m > n - at {
        return false;
    }
    let mut i: usize = 0;
    while i < m
        invariant
            i <= m,
            m == pattern@.len(),
            n == s@.len(),
            at + m <= n,
            forall|j: int| 0 <= j < i ==> pattern@[j] == s@[at + j],
        decreases m - i,
    {
        if pattern.get_char(i) != s.get_char(at + i) {
            assert(s@.skip(at as int).subrange(0, m as int)[i as int] != pattern@[i as int]);
            return false;
        }
        i += 1;
    }
    assert(pattern@ =~= s@.skip(at as int).subrange(0, m as int));
    true
}

/// Whether `s` begins with `prefix`.
pub fn starts_with(s: &str, prefix: &str) -> (found: bool)
    ensures
        found == prefix@.is_prefix_of(s@),
{
    assert(s@.skip(0) =~= s@);
    matches_at(s, 0, prefix)
}

/// The two strings joined, `a` first.
pub fn join(a: &str, b: &str) -> (joined: String)
    ensures
        joined@ == a@ + b@,
{
    let mut joined = a.to_owned();
    joined.append(b);
    joined
}

/// The three strings joined in order.
pub fn join3(a: &str, b: &str, c: &str) -> (joined: String)
    ensures
        joined@ == a@ + b@ + c@,
{
    let mut joined = a.to_owned();
    joined.append(b);
    joined.append(c);
    joined
}

/// The four strings joined in order.
pub fn join4(a: &str, b: &str, c: &str, d: &str) -> (joined: String)
    ensures
        joined@ == a@ + b@ + c@ + d@,
{
    let mut joined = a.to_owned();
    joined.append(b);
    joined.append(c);
    joined.append(d);
    joined
}

/// The position just behind the last `'/'` of `s`, counted in characters.
pub fn last_slash_position(s: &str) -> (position: usize)
    ensures
        position == last_slash(s@),
        position <= s@.len(),
{
    let n = s.unicode_len();
    let mut i: usize = n;
    assert(s@.subrange(0, n as int) =~= s@);
    while i > 0 && s.get_char(i - 1) != '/'
        invariant
            i <= n,
            n == s@.len(),
            last_slash(s@) == last_slash(s@.subrange(0, i as int)),
        decreases i,
    {
        proof {
            let t = s@.subrange(0, i as int);
            assert(t.last() == s@[i - 1]);
            assert(t.drop_last() =~= s@.subrange(0, i - 1));
        }
        i -= 1;
    }
    proof {
        let t = s@.subrange(0, i as int);
        if i > 0 {
            assert(t.last() == s@[i - 1]);
        }
        assert(last_slash(s@) == i);
    }
    i
}

/// The part of `s` behind its last `'/'`, as `rsplit('/')` yields it first.
pub fn last_path_segment(s: &str) -> (segment: String)
    ensures
        segment@ == last_segment(s@),
{
    let at = last_slash_position(s);
    let n = s.unicode_len();
    s.substring_char(at, n).to_owned()
}

/// `s` with the segment behind its last `'/'` replaced by `segment`.
pub fn with_last_segment(s: &str, segment: &str) -> (replaced: String)
    ensures
        replaced@ == before_last_segment(s@) + segment@,
{
    let at = last_slash_position(s);
    let mut replaced = s.substring_char(0, at).to_owned();
    replaced.append(segment);
    replaced
}

} // verus!
