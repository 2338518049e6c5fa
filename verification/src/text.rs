use vstd::prelude::*;

verus! {

/// `p` is a prefix of `s`.
pub open spec fn has_prefix(s: Seq<char>, p: Seq<char>) -> bool {
    p.len() <= s.len() && s.subrange(0, p.len() as int) == p
}

/// `p` occurs somewhere in `s` as a contiguous run of characters.
pub open spec fn contains_seq(s: Seq<char>, p: Seq<char>) -> bool {
    exists|i: int| 0 <= i && i + p.len() <= s.len() && #[trigger] s.subrange(i, i + p.len()) == p
}

/// Whether `s` begins with `p`.
pub fn starts_with(s: &str, p: &str) -> (r: bool)
    ensures
        r == has_prefix(s@, p@),
{
    let n = s.unicode_len();
    let m = p.unicode_len();
    if m > n {
        return false;
    }
    let mut i: usize = 0;
    while i < m
        invariant
            n == s@.len(),
            m == p@.len(),
            m <= n,
            i <= m,
            forall|k: int| 0 <= k < i ==> s@[k] == p@[k],
        decreases m - i,
    {
        if s.get_char(i) != p.get_char(i) {
            assert(s@.subrange(0, m as int)[i as int] != p@[i as int]);
            return false;
        }
        i = i + 1;
    }
    assert(s@.subrange(0, m as int) =~= p@);
    true
}

/// Whether `p` occurs in `s`.
pub fn contains(s: &str, p: &str) -> (r: bool)
    ensures
        r == contains_seq(s@, p@),
{
    let n = s.unicode_len();
    let m = p.unicode_len();
    if m > n {
        return false;
    }
    let mut start: usize = 0;
    loop
        invariant
            n == s@.len(),
            m == p@.len(),
            m <= n,
            start <= n - m,
            forall|j: int| 0 <= j < start ==> #[trigger] s@.subrange(j, j + m) != p@,
        ensures
            forall|j: int| 0 <= j <= n - m ==> #[trigger] s@.subrange(j, j + m) != p@,
        decreases n - m - start,
    {
        let mut k: usize = 0;
        let mut same = true;
        while k < m
            invariant
                n == s@.len(),
                m == p@.len(),
                start + m <= n,
                k <= m,
                same ==> forall|q: int| 0 <= q < k ==> s@[start + q] == p@[q],
                !same ==> s@.subrange(start as int, start + m) != p@,
            decreases m - k,
        {
            if same && s.get_char(start + k) != p.get_char(k) {
                assert(s@.subrange(start as int, start + m)[k as int] != p@[k as int]);
                same = false;
            }
            k = k + 1;
        }
        if same {
            assert(s@.subrange(start as int, start + m) =~= p@);
            return true;
        }
        if start == n - m {
            break;
        }
        start = start + 1;
    }
    proof {
        assert forall|i: int| 0 <= i && i + p@.len() <= s@.len() implies
            #[trigger] s@.subrange(i, i + p@.len()) != p@ by {
            assert(i <= n - m);
        }
    }
    false
}

} // verus!
