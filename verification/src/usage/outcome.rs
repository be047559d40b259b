//! How the worked examples state their results.
use vstd::prelude::*;
use crate::error::Error;
use crate::sorting::{is_permutation_of, is_total_preorder, permutes, sort_by, sorted_by};

verus! {

/// Whether `r` is the text `o` holds, or an error where `o` holds none.
pub open spec fn gives_text(r: Result<String, Error>, o: Option<Seq<char>>) -> bool {
    match o {
        Some(s) => r matches Ok(v) && v@ == s,
        None => r is Err,
    }
}

/// Whether `r` is the value `o` holds, or an error where `o` holds none.
pub open spec fn gives<T>(r: Result<T, Error>, o: Option<T>) -> bool {
    match o {
        Some(v) => r == Ok::<T, Error>(v),
        None => r is Err,
    }
}

/// `f` applied to the value `o` holds, if any.
pub open spec fn then<A, B>(o: Option<A>, f: spec_fn(A) -> Option<B>) -> Option<B> {
    match o {
        Some(a) => f(a),
        None => None,
    }
}

/// `f` applied to the values `a` and `b` hold, if both hold one.
pub open spec fn then2<A, B, C>(a: Option<A>, b: Option<B>, f: spec_fn(A, B) -> Option<C>) -> Option<C> {
    match (a, b) {
        (Some(x), Some(y)) => f(x, y),
        _ => None,
    }
}

/// The texts joined with commas, as `string_agg(.., ',')` joins them.
pub open spec fn comma_joined(ts: Seq<Seq<char>>) -> Seq<char>
    decreases ts.len(),
{
    if ts.len() == 0 {
        Seq::empty()
    } else if ts.len() == 1 {
        ts[0]
    } else {
        comma_joined(ts.drop_last()) + seq![','] + ts.last()
    }
}

/// The texts of the elements of `s`, if each has one.
pub open spec fn all_texts<T>(s: Seq<T>, text: spec_fn(T) -> Option<Seq<char>>) -> Option<Seq<Seq<char>>>
    decreases s.len(),
{
    if s.len() == 0 {
        Some(Seq::empty())
    } else {
        match (all_texts(s.drop_last(), text), text(s.last())) {
            (Some(a), Some(t)) => Some(a.push(t)),
            _ => None,
        }
    }
}

/// The texts of the elements of `s` joined with commas, if each has one.
pub open spec fn joined_texts<T>(s: Seq<T>, text: spec_fn(T) -> Option<Seq<char>>) -> Option<Seq<char>> {
    match all_texts(s, text) {
        Some(ts) => Some(comma_joined(ts)),
        None => None,
    }
}

/// What `string_agg(v::text, ',' ORDER BY v)` over `vals` gives: the
/// texts of the values in an order sorted by `ord`, joined with commas; an
/// error only where a value has no text.
pub open spec fn lists_in_order<T>(r: Result<String, Error>, vals: Seq<T>, ord: spec_fn(T, T) -> int,
    text: spec_fn(T) -> Option<Seq<char>>) -> bool
{
    &&& r matches Ok(s) ==> exists|w: Seq<T>| #![trigger joined_texts(w, text)]
        is_permutation_of(w, vals) && sorted_by(w, ord) && joined_texts(w, text) == Some(s@)
    &&& r is Err ==> exists|i: int| 0 <= i < vals.len() && #[trigger] text(vals[i]) is None
}

/// Sorts the values of `v` by `compare` and joins their texts with commas.
pub fn list_in_order<T: Copy, C: Fn(T, T) -> i32, W: Fn(T) -> Result<String, Error>>(vals: Vec<T>, compare: C,
    Ghost(ord): Ghost<spec_fn(T, T) -> int>, write: W, Ghost(text): Ghost<spec_fn(T) -> Option<Seq<char>>>)
    -> (r: Result<String, Error>)
    requires
        is_total_preorder(ord),
        forall|a: T, b: T| #[trigger] compare.requires((a, b)),
        forall|a: T, b: T, c: i32| compare.ensures((a, b), c) ==> c == ord(a, b),
        forall|a: T| #[trigger] write.requires((a,)),
        forall|a: T, s: Result<String, Error>| write.ensures((a,), s) ==> gives_text(s, text(a)),
    ensures lists_in_order(r, vals@, ord, text),
{
    let ghost orig = vals@;
    let mut v = vals;
    sort_by(&mut v, compare, Ghost(ord));
    let ghost p = choose|p: Seq<int>| permutes(v@, orig, p);
    let mut out = String::new();
    let mut k: usize = 0;
    while k < v.len()
        invariant
            k <= v@.len(),
            orig == vals@,
            permutes(v@, orig, p),
            forall|a: T| #[trigger] write.requires((a,)),
            forall|a: T, s: Result<String, Error>| write.ensures((a,), s) ==> gives_text(s, text(a)),
            all_texts(v@.take(k as int), text) matches Some(ts) && out@ == comma_joined(ts),
        decreases v@.len() - k,
    {
        let x = v[k];
        let res = write(x);
        let t = match res {
            Ok(t) => t,
            Err(e) => {
                proof {
                    assert(gives_text(res, text(x)));
                    let i = p[k as int];
                    assert(0 <= i < orig.len() && x == orig[i]);
                    assert(text(orig[i]) is None);
                    assert(exists|j: int| 0 <= j < orig.len() && #[trigger] text(orig[j]) is None);
                }
                return Err(e);
            },
        };
        let ghost ts = all_texts(v@.take(k as int), text)->0;
        if k > 0 {
            out.append(",");
            proof { reveal_strlit(","); }
        }
        out.append(t.as_str());
        proof {
            assert(v@.take(k as int) =~= v@.take(k + 1).drop_last());
            reveal_with_fuel(all_texts, 2);
            lemma_all_texts_len(v@.take(k as int), text);
            assert(all_texts(v@.take(k + 1), text) == Some(ts.push(t@)));
            assert(ts.push(t@).drop_last() =~= ts);
            if k == 0 {
                assert(ts.len() == 0);
                assert(out@ =~= comma_joined(ts.push(t@)));
            } else {
                assert(out@ =~= comma_joined(ts.push(t@)));
            }
        }
        k = k + 1;
    }
    proof {
        assert(v@.take(v@.len() as int) =~= v@);
        assert(is_permutation_of(v@, orig));
        assert(joined_texts(v@, text) == Some(out@));
    }
    Ok(out)
}

/// The texts of a sequence, when all exist, are as many as its elements.
pub proof fn lemma_all_texts_len<T>(s: Seq<T>, text: spec_fn(T) -> Option<Seq<char>>)
    ensures all_texts(s, text) matches Some(ts) ==> ts.len() == s.len(),
    decreases s.len(),
{
    if s.len() > 0 {
        lemma_all_texts_len(s.drop_last(), text);
    }
}

} // verus!
