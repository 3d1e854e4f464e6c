//! Character-level helpers: the position of the first occurrence of a
//! character in a sequence, and an executable scan that finds it.

use vstd::prelude::*;
use vstd::string::StrSliceExecFns;

verus! {

/// Index of the first occurrence of `c` in `s`, or `s.len()` if `c` does
/// not occur.
pub open spec fn find_char(s: Seq<char>, c: char) -> int
    decreases s.len(),
{
    if s.len() == 0 {
        0
    } else if s[0] == c {
        0
    } else {
        1 + find_char(s.drop_first(), c)
    }
}

pub open spec fn contains_char(s: Seq<char>, c: char) -> bool {
    exists|i: int| 0 <= i < s.len() && s[i] == c
}

/// `find_char` lands in bounds, lands on `c` whenever `c` occurs, and
/// nothing before it is `c`.
pub proof fn lemma_find_char(s: Seq<char>, c: char)
    ensures
        0 <= find_char(s, c) <= s.len(),
        find_char(s, c) < s.len() ==> s[find_char(s, c)] == c,
        forall|j: int| 0 <= j < find_char(s, c) ==> s[j] != c,
        (find_char(s, c) < s.len()) == contains_char(s, c),
    decreases s.len(),
{
    if s.len() == 0 {
    } else if s[0] == c {
    } else {
        let rest = s.drop_first();
        lemma_find_char(rest, c);
        assert(forall|j: int| 0 < j < find_char(s, c) ==> s[j] == rest[j - 1]);
        if contains_char(s, c) {
            let i = choose|i: int| 0 <= i < s.len() && s[i] == c;
            assert(rest[i - 1] == c);
            assert(contains_char(rest, c));
        }
        if contains_char(rest, c) {
            let i = choose|i: int| 0 <= i < rest.len() && rest[i] == c;
            assert(s[i + 1] == c);
            assert(contains_char(s, c));
        }
    }
}

/// `find_char(s, c)` is the unique index at or before which `c` is absent
/// and which either holds `c` or is the end of `s`.
pub proof fn lemma_find_char_is(s: Seq<char>, c: char, i: int)
    requires
        0 <= i <= s.len(),
        forall|j: int| 0 <= j < i ==> s[j] != c,
        i < s.len() ==> s[i] == c,
    ensures
        find_char(s, c) == i,
{
    lemma_find_char(s, c);
    let f = find_char(s, c);
    if f < i {
        assert(s[f] != c);
    }
    if f > i {
        assert(i < s.len());
        assert(s[i] != c);
    }
}

/// A sequence none of whose characters is `c` does not contain `c`.
pub proof fn lemma_find_char_absent(s: Seq<char>, c: char)
    requires
        forall|j: int| 0 <= j < s.len() ==> s[j] != c,
    ensures
        find_char(s, c) == s.len(),
        !contains_char(s, c),
{
    lemma_find_char_is(s, c, s.len() as int);
    lemma_find_char(s, c);
}

/// Index of the first occurrence of `c` in `s`, or the character length of
/// `s` if there is none.
pub fn scan_char(s: &str, c: char) -> (i: usize)
    ensures
        i == find_char(s@, c),
        i == s@.len() || s@[i as int] == c,
{
    let n = s.unicode_len();
    let mut i: usize = 0;
    while i < n
        invariant
            0 <= i <= n,
            n == s@.len(),
            forall|j: int| 0 <= j < i ==> s@[j] != c,
        decreases n - i,
    {
        if s.get_char(i) == c {
            proof {
                lemma_find_char_is(s@, c, i as int);
            }
            return i;
        }
        i = i + 1;
    }
    proof {
        lemma_find_char_is(s@, c, i as int);
    }
    i
}

} // verus!
