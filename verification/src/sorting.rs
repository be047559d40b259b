//! Sorting by a comparison whose meaning is a total preorder: what
//! `ORDER BY` does with a type's `compare` support function, and what the
//! identifier tables need.
use vstd::prelude::*;

verus! {

/// Whether `ord` (negative, zero or positive as its first argument comes
/// before, with or after its second) is a total preorder: swapping the
/// arguments negates it, and "not after" is transitive.
pub open spec fn is_total_preorder<T>(ord: spec_fn(T, T) -> int) -> bool {
    &&& forall|a: T, b: T| #[trigger] ord(a, b) == -ord(b, a)
    &&& forall|a: T, b: T, c: T| #![trigger ord(a, b), ord(b, c)] ord(a, b) <= 0 && ord(b, c) <= 0 ==> ord(a, c) <= 0
}

/// Whether no element of `s` comes after a later one.
pub open spec fn sorted_by<T>(s: Seq<T>, ord: spec_fn(T, T) -> int) -> bool {
    forall|i: int, j: int| 0 <= i < j < s.len() ==> ord(#[trigger] s[i], #[trigger] s[j]) <= 0
}

/// Whether `p` maps each position of `s` to a distinct position of `t`
/// that holds the same element.
pub open spec fn permutes<T>(s: Seq<T>, t: Seq<T>, p: Seq<int>) -> bool {
    &&& p.len() == s.len()
    &&& s.len() == t.len()
    &&& forall|i: int| 0 <= i < s.len() ==> 0 <= #[trigger] p[i] < t.len() && s[i] == t[p[i]]
    &&& forall|i: int, j: int| 0 <= i < j < s.len() ==> #[trigger] p[i] != #[trigger] p[j]
}

/// Whether `s` holds the elements of `t`, rearranged.
pub open spec fn is_permutation_of<T>(s: Seq<T>, t: Seq<T>) -> bool {
    exists|p: Seq<int>| permutes(s, t, p)
}

/// Sorts `v` in place by `compare`, whose results are those of the total
/// preorder `ord` (selection sort: the result is sorted and a rearrangement
/// of the input; equal elements may change places).
pub fn sort_by<T: Copy, F: Fn(T, T) -> i32>(v: &mut Vec<T>, compare: F, Ghost(ord): Ghost<spec_fn(T, T) -> int>)
    requires
        is_total_preorder(ord),
        forall|a: T, b: T| #[trigger] compare.requires((a, b)),
        forall|a: T, b: T, r: i32| compare.ensures((a, b), r) ==> r == ord(a, b),
    ensures
        sorted_by(final(v)@, ord),
        is_permutation_of(final(v)@, old(v)@),
{
    let n = v.len();
    let ghost orig = v@;
    let ghost mut p: Seq<int> = Seq::new(n as nat, |i: int| i);
    let mut i: usize = 0;
    while i < n
        invariant
            n == v.len(),
            i <= n,
            is_total_preorder(ord),
            forall|a: T, b: T| #[trigger] compare.requires((a, b)),
            forall|a: T, b: T, r: i32| compare.ensures((a, b), r) ==> r == ord(a, b),
            permutes(v@, orig, p),
            forall|a: int, b: int| 0 <= a < b < i ==> ord(#[trigger] v@[a], #[trigger] v@[b]) <= 0,
            forall|a: int, b: int| 0 <= a < i <= b < n ==> ord(#[trigger] v@[a], #[trigger] v@[b]) <= 0,
        decreases n - i,
    {
        let mut m: usize = i;
        let mut k: usize = i + 1;
        proof { assert(ord(v@[m as int], v@[m as int]) == -ord(v@[m as int], v@[m as int])); }
        while k < n
            invariant
                n == v.len(),
                i <= m < k <= n,
                is_total_preorder(ord),
                forall|a: T, b: T| #[trigger] compare.requires((a, b)),
                forall|a: T, b: T, r: i32| compare.ensures((a, b), r) ==> r == ord(a, b),
                forall|b: int| i <= b < k ==> ord(v@[m as int], #[trigger] v@[b]) <= 0,
            decreases n - k,
        {
            let c = compare(v[k], v[m]);
            if c < 0 {
                proof {
                    assert forall|b: int| i <= b < k + 1 implies ord(v@[k as int], #[trigger] v@[b]) <= 0 by {
                        if b < k {
                            assert(ord(v@[k as int], v@[m as int]) <= 0 && ord(v@[m as int], v@[b]) <= 0);
                        } else {
                            assert(ord(v@[k as int], v@[k as int]) == -ord(v@[k as int], v@[k as int]));
                        }
                    }
                }
                m = k;
            } else {
                proof {
                    assert(ord(v@[m as int], v@[k as int]) == -ord(v@[k as int], v@[m as int]));
                }
            }
            k = k + 1;
        }
        let ghost before = v@;
        let x = v[i];
        let y = v[m];
        v.set(i, y);
        v.set(m, x);
        proof {
            let q = p.update(i as int, p[m as int]).update(m as int, p[i as int]);
            assert forall|a: int| 0 <= a < v@.len() implies 0 <= #[trigger] q[a] < orig.len() && v@[a] == orig[q[a]] by {
                if a != i && a != m {
                    assert(v@[a] == before[a]);
                }
            }
            assert forall|a: int, b: int| 0 <= a < b < v@.len() implies #[trigger] q[a] != #[trigger] q[b] by {
                assert(p[a] != p[b] || a == b);
                if a == i || a == m || b == i || b == m {
                    assert(p[i as int] != p[m as int] || i == m);
                    if a != i && a != m { assert(p[a] != p[i as int] && p[a] != p[m as int]); }
                    if b != i && b != m { assert(p[b] != p[i as int] && p[b] != p[m as int]); }
                }
            }
            p = q;
            assert forall|a: int, b: int| 0 <= a < b < i + 1 implies ord(#[trigger] v@[a], #[trigger] v@[b]) <= 0 by {
                if b < i {
                    assert(v@[a] == before[a] && v@[b] == before[b]);
                } else {
                    assert(v@[b] == before[m as int] && v@[a] == before[a]);
                }
            }
            assert forall|a: int, b: int| 0 <= a < i + 1 <= b < n implies ord(#[trigger] v@[a], #[trigger] v@[b]) <= 0 by {
                let wb = if b == m { i as int } else { b };
                assert(v@[b] == before[wb]);
                if a < i {
                    assert(v@[a] == before[a]);
                } else {
                    assert(v@[a] == before[m as int]);
                }
            }
        }
        i = i + 1;
    }
    proof { assert(permutes(v@, orig, p)); }
}

} // verus!
