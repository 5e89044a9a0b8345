//! Character-level text comparisons.
use vstd::prelude::*;

verus! {

/// Whether two strings hold the same characters.
pub fn str_eq(a: &str, b: &str) -> (r: bool)
    ensures
        r == (a@ == b@),
{
    let n = a.unicode_len();
    if n != b.unicode_len() {
        return false;
    }
    let mut i: usize = 0;
    while i < n
        invariant
            n == a@.len() == b@.len(),
            i <= n,
            forall|j: int| 0 <= j < i ==> a@[j] == b@[j],
        decreases n - i,
    {
        if a.get_char(i) != b.get_char(i) {
            return false;
        }
        i = i + 1;
    }
    assert(a@ =~= b@);
    true
}

/// `pat` occurs in `s` starting at position `at`.
pub open spec fn occurs_at(s: Seq<char>, pat: Seq<char>, at: int) -> bool {
    0 <= at && at + pat.len() <= s.len() && s.subrange(at, at + pat.len()) == pat
}

/// `pat` occurs somewhere in `s`.
pub open spec fn contains_text(s: Seq<char>, pat: Seq<char>) -> bool {
    exists|at: int| occurs_at(s, pat, at)
}

/// Whether `pat` occurs in `s`.
pub fn str_contains(s: &str, pat: &str) -> (r: bool)
    ensures
        r == contains_text(s@, pat@),
{
    let n = s.unicode_len();
    let m = pat.unicode_len();
    if m > n {
        assert forall|at: int| !occurs_at(s@, pat@, at) by {}
        return false;
    }
    let mut at: usize = 0;
    while at <= n - m
        invariant
            n == s@.len(),
            m == pat@.len(),
            m <= n,
            at <= n - m + 1,
            forall|k: int| 0 <= k < at ==> !occurs_at(s@, pat@, k),
        decreases n - m + 1 - at,
    {
        let mut j: usize = 0;
        let mut same = true;
        while j < m
            invariant
                n == s@.len(),
                m == pat@.len(),
                at + m <= n,
                j <= m,
                same <==> forall|k: int| 0 <= k < j ==> s@[at + k] == pat@[k],
            decreases m - j,
        {
            if s.get_char(at + j) != pat.get_char(j) {
                same = false;
            }
            j = j + 1;
        }
        if same {
            assert(s@.subrange(at as int, at + m) =~= pat@);
            assert(occurs_at(s@, pat@, at as int));
            return true;
        }
        assert(!occurs_at(s@, pat@, at as int)) by {
            if occurs_at(s@, pat@, at as int) {
                let k = choose|k: int| 0 <= k < m && s@[at + k] != pat@[k];
                assert(s@.subrange(at as int, at + m)[k] == s@[at + k]);
            }
        }
        at = at + 1;
    }
    assert forall|k: int| !occurs_at(s@, pat@, k) by {
        if 0 <= k && k < at {
        }
    }
    false
}

} // verus!
