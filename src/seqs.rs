//! Sequences of entities: searching them, and keeping what a step keeps.
use vstd::prelude::*;

verus! {

/// The values present among the first `n` entries of `s`, in order.
pub open spec fn kept<T>(s: Seq<Option<T>>, n: int) -> Seq<T>
    decreases n,
{
    if n <= 0 || n > s.len() {
        Seq::empty()
    } else {
        match s[n - 1] {
            Some(v) => kept(s, n - 1).push(v),
            None => kept(s, n - 1),
        }
    }
}

/// The values present in `s`, in order.
pub open spec fn survivors<T>(s: Seq<Option<T>>) -> Seq<T> {
    kept(s, s.len() as int)
}

/// Each kept value comes from an entry at or before `n`.
pub proof fn lemma_kept_from<T>(s: Seq<Option<T>>, n: int, j: int)
    requires
        0 <= n <= s.len(),
        0 <= j < kept(s, n).len(),
    ensures
        exists|k: int| 0 <= k < n && s[k] == Some(kept(s, n)[j]),
    decreases n,
{
    if n > 0 {
        match s[n - 1] {
            Some(v) => {
                if j == kept(s, n - 1).len() {
                    assert(s[n - 1] == Some(kept(s, n)[j]));
                } else {
                    lemma_kept_from(s, n - 1, j);
                    let k = choose|k: int| 0 <= k < n - 1 && s[k] == Some(kept(s, n - 1)[j]);
                    assert(s[k] == Some(kept(s, n)[j]));
                }
            },
            None => {
                lemma_kept_from(s, n - 1, j);
            },
        }
    }
}

/// Position of the first of the first `n` entries of `s` that satisfy `p`.
pub open spec fn first_where<T>(s: Seq<T>, p: spec_fn(T) -> bool, n: int) -> Option<int>
    decreases n,
{
    if n <= 0 || n > s.len() {
        None
    } else {
        match first_where(s, p, n - 1) {
            Some(k) => Some(k),
            None => if p(s[n - 1]) {
                Some(n - 1)
            } else {
                None
            },
        }
    }
}

/// Once found among a prefix, the first match stays the first one, and it
/// satisfies `p`.
pub proof fn lemma_first_where_stable<T>(s: Seq<T>, p: spec_fn(T) -> bool, a: int, b: int)
    requires
        0 <= a <= b <= s.len(),
        first_where(s, p, a) is Some,
    ensures
        first_where(s, p, b) == first_where(s, p, a),
        first_where(s, p, a) matches Some(k) && 0 <= k < a && p(s[k]),
    decreases b - a + a,
{
    if b > a {
        lemma_first_where_stable(s, p, a, b - 1);
    } else if a > 0 {
        if first_where(s, p, a - 1) is Some {
            lemma_first_where_stable(s, p, a - 1, a - 1);
        }
    }
}

} // verus!
