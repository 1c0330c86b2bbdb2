//! How far apart two strings are for a spring that animates text: the number
//! of characters that must be removed from one and added to reach the other,
//! keeping their longest common prefix.

use vstd::prelude::*;
use crate::text::chars_of;

verus! {

/// Length of the longest common prefix of `a` and `b`.
pub open spec fn common_prefix_len(a: Seq<char>, b: Seq<char>) -> nat
    decreases a.len(),
{
    if a.len() > 0 && b.len() > 0 && a[0] == b[0] {
        1 + common_prefix_len(a.drop_first(), b.drop_first())
    } else {
        0
    }
}

/// Characters of `a` and of `b` that lie beyond their common prefix.
pub open spec fn prefix_distance(a: Seq<char>, b: Seq<char>) -> nat {
    ((a.len() - common_prefix_len(a, b)) + (b.len() - common_prefix_len(a, b))) as nat
}

/// The common prefix is no longer than either string.
pub proof fn lemma_common_prefix_bounded(a: Seq<char>, b: Seq<char>)
    ensures
        common_prefix_len(a, b) <= a.len(),
        common_prefix_len(a, b) <= b.len(),
    decreases a.len(),
{
    if a.len() > 0 && b.len() > 0 && a[0] == b[0] {
        lemma_common_prefix_bounded(a.drop_first(), b.drop_first());
    }
}

/// Dropping an agreeing position shortens the common prefix by one.
proof fn lemma_common_prefix_skip(a: Seq<char>, b: Seq<char>, i: int)
    requires
        0 <= i < a.len(),
        i < b.len(),
        a[i] == b[i],
    ensures
        common_prefix_len(a.skip(i), b.skip(i)) == 1 + common_prefix_len(a.skip(i + 1), b.skip(i + 1)),
{
    assert(a.skip(i).drop_first() =~= a.skip(i + 1));
    assert(b.skip(i).drop_first() =~= b.skip(i + 1));
}

/// The distance between two strings: how many characters of `a` and of `b`
/// lie beyond their longest common prefix (capped at `usize::MAX`, which two
/// strings held in memory never reach).
pub fn string_distance(a: &str, b: &str) -> (d: usize)
    ensures
        d == if prefix_distance(a@, b@) <= usize::MAX { prefix_distance(a@, b@) } else { usize::MAX as nat },
{
    let x = chars_of(a);
    let y = chars_of(b);
    let mut i: usize = 0;
    assert(x@.skip(0) =~= x@);
    assert(y@.skip(0) =~= y@);
    while i < x.len() && i < y.len() && x[i] == y[i]
        invariant
            x@ == a@,
            y@ == b@,
            i <= x.len(),
            i <= y.len(),
            common_prefix_len(x@, y@) == i + common_prefix_len(x@.skip(i as int), y@.skip(i as int)),
        decreases x.len() - i,
    {
        proof {
            lemma_common_prefix_skip(x@, y@, i as int);
        }
        i = i + 1;
    }
    assert(common_prefix_len(x@.skip(i as int), y@.skip(i as int)) == 0);
    (x.len() - i).saturating_add(y.len() - i)
}

/// The common prefix does not depend on the order of the two strings.
pub proof fn lemma_common_prefix_symmetric(a: Seq<char>, b: Seq<char>)
    ensures
        common_prefix_len(a, b) == common_prefix_len(b, a),
    decreases a.len(),
{
    if a.len() > 0 && b.len() > 0 && a[0] == b[0] {
        lemma_common_prefix_symmetric(a.drop_first(), b.drop_first());
    }
}

/// The common prefix of a string with itself is the whole string.
proof fn lemma_common_prefix_self(a: Seq<char>)
    ensures
        common_prefix_len(a, a) == a.len(),
    decreases a.len(),
{
    if a.len() > 0 {
        lemma_common_prefix_self(a.drop_first());
    }
}

/// A common prefix as long as both strings means the strings are equal.
proof fn lemma_common_prefix_full(a: Seq<char>, b: Seq<char>)
    requires
        common_prefix_len(a, b) == a.len(),
        common_prefix_len(a, b) == b.len(),
    ensures
        a == b,
    decreases a.len(),
{
    if a.len() > 0 {
        lemma_common_prefix_full(a.drop_first(), b.drop_first());
        assert(a =~= seq![a[0]] + a.drop_first());
        assert(b =~= seq![b[0]] + b.drop_first());
    } else {
        assert(a =~= b);
    }
}

/// The distance is symmetric: `a` is as far from `b` as `b` is from `a`.
pub proof fn lemma_distance_symmetric(a: Seq<char>, b: Seq<char>)
    ensures
        prefix_distance(a, b) == prefix_distance(b, a),
{
    lemma_common_prefix_symmetric(a, b);
}

/// Two strings are at distance zero exactly when they are equal.
pub proof fn lemma_distance_zero_iff_equal(a: Seq<char>, b: Seq<char>)
    ensures
        prefix_distance(a, b) == 0 <==> a == b,
{
    lemma_common_prefix_bounded(a, b);
    lemma_common_prefix_self(a);
    if prefix_distance(a, b) == 0 {
        lemma_common_prefix_full(a, b);
    }
}

/// Two strings share at least as much prefix as each shares with a third.
proof fn lemma_common_prefix_through(a: Seq<char>, b: Seq<char>, c: Seq<char>)
    ensures
        common_prefix_len(a, b) >= if common_prefix_len(a, c) <= common_prefix_len(c, b) {
            common_prefix_len(a, c)
        } else {
            common_prefix_len(c, b)
        },
    decreases a.len(),
{
    if a.len() > 0 && b.len() > 0 && c.len() > 0 && a[0] == c[0] && c[0] == b[0] {
        lemma_common_prefix_through(a.drop_first(), b.drop_first(), c.drop_first());
    }
}

/// The distance obeys the triangle inequality: going from `a` to `b` through
/// `c` is never shorter than going directly.
pub proof fn lemma_distance_triangle(a: Seq<char>, b: Seq<char>, c: Seq<char>)
    ensures
        prefix_distance(a, b) <= prefix_distance(a, c) + prefix_distance(c, b),
{
    lemma_common_prefix_through(a, b, c);
    lemma_common_prefix_bounded(a, b);
    lemma_common_prefix_bounded(a, c);
    lemma_common_prefix_bounded(c, b);
}

/// A string is a prefix of itself followed by more characters.
proof fn lemma_common_prefix_extension(a: Seq<char>, b: Seq<char>)
    ensures
        common_prefix_len(a, a + b) == a.len(),
    decreases a.len(),
{
    if a.len() > 0 {
        assert((a + b).drop_first() =~= a.drop_first() + b);
        lemma_common_prefix_extension(a.drop_first(), b);
    }
}

/// Appending characters to a string puts it exactly as many characters
/// away.
pub proof fn lemma_distance_of_extension(a: Seq<char>, b: Seq<char>)
    ensures
        prefix_distance(a, a + b) == b.len(),
{
    lemma_common_prefix_extension(a, b);
}

} // verus!
