//! Counting a character in a text, and finding one text in another.

use vstd::prelude::*;

verus! {

/// How often `c` occurs in `s`.
pub open spec fn count(s: Seq<char>, c: char) -> nat
    decreases s.len(),
{
    if s.len() == 0 {
        0
    } else {
        count(s.drop_last(), c) + if s.last() == c {
            1nat
        } else {
            0nat
        }
    }
}

/// `c` does not occur in `s`.
pub open spec fn free_of(s: Seq<char>, c: char) -> bool {
    forall|i: int| 0 <= i < s.len() ==> #[trigger] s[i] != c
}

/// A character occurs in two texts, one after the other, as often as in
/// both together.
pub proof fn lemma_count_concat(a: Seq<char>, b: Seq<char>, c: char)
    ensures
        count(a + b, c) == count(a, c) + count(b, c),
    decreases b.len(),
{
    if b.len() > 0 {
        lemma_count_concat(a, b.drop_last(), c);
        assert((a + b).drop_last() =~= a + b.drop_last());
    }
}

/// A character occurs zero times exactly in the texts that are free of it.
pub proof fn lemma_count_free(s: Seq<char>, c: char)
    ensures
        free_of(s, c) <==> count(s, c) == 0,
    decreases s.len(),
{
    if s.len() > 0 {
        lemma_count_free(s.drop_last(), c);
        if count(s, c) == 0 {
            assert forall|i: int| 0 <= i < s.len() implies #[trigger] s[i] != c by {
                if i < s.len() - 1 {
                    assert(s.drop_last()[i] == s[i]);
                }
            }
        }
    }
}

/// Two texts that are free of a character are free of it together.
pub proof fn lemma_free_concat(a: Seq<char>, b: Seq<char>, c: char)
    requires
        free_of(a, c),
        free_of(b, c),
    ensures
        free_of(a + b, c),
{
}

/// `pattern` stands in `s` from place `p` on.
pub open spec fn occurs_at(s: Seq<char>, pattern: Seq<char>, p: int) -> bool {
    0 <= p && p + pattern.len() <= s.len() && s.subrange(p, p + pattern.len()) == pattern
}

/// `pattern` stands somewhere in `s`.
pub open spec fn contains(s: Seq<char>, pattern: Seq<char>) -> bool {
    exists|p: int| occurs_at(s, pattern, p)
}

/// Where a pattern stands in a text, each of its characters stands there.
pub proof fn lemma_occurs_chars(s: Seq<char>, pattern: Seq<char>, p: int, i: int)
    requires
        occurs_at(s, pattern, p),
        0 <= i < pattern.len(),
    ensures
        s[p + i] == pattern[i],
{
}

/// A pattern that stands in two texts, one after the other, stands in the
/// first, or in the second, or across the place where they meet.
pub proof fn lemma_occurs_concat(a: Seq<char>, b: Seq<char>, pattern: Seq<char>, p: int)
    requires
        occurs_at(a + b, pattern, p),
    ensures
        p + pattern.len() <= a.len() ==> occurs_at(a, pattern, p),
        p >= a.len() ==> occurs_at(b, pattern, p - a.len()),
{
    let n = pattern.len() as int;
    if p + n <= a.len() {
        assert(a.subrange(p, p + n) =~= (a + b).subrange(p, p + n));
    }
    if p >= a.len() {
        assert(b.subrange(p - a.len(), p - a.len() + n) =~= (a + b).subrange(p, p + n));
    }
}

/// A pattern does not stand in a text that is free of its first character.
pub proof fn lemma_free_no_occurrence(s: Seq<char>, pattern: Seq<char>, c: char)
    requires
        pattern.len() > 0,
        pattern[0] == c,
        free_of(s, c),
    ensures
        !contains(s, pattern),
{
}

} // verus!
