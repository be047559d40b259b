//! Byte-wise ordering of text, as Rust's `Ord` for `str` defines it, and
//! lookup in tables of identifiers kept in that order.
use vstd::prelude::*;
use vstd::utf8::*;
use vstd::string::*;
use crate::sorting::{is_permutation_of, is_total_preorder, permutes, sort_by, sorted_by};

verus! {

/// Lexicographic comparison of byte sequences: -1, 0 or 1.
pub open spec fn lex_order(a: Seq<u8>, b: Seq<u8>) -> int
    decreases a.len(),
{
    if a.len() == 0 {
        if b.len() == 0 { 0 } else { -1 }
    } else if b.len() == 0 {
        1
    } else if a[0] < b[0] {
        -1
    } else if a[0] > b[0] {
        1
    } else {
        lex_order(a.skip(1), b.skip(1))
    }
}

/// The order of two texts, as `str::cmp` gives it: the order of their UTF-8 bytes.
pub open spec fn text_order(a: Seq<char>, b: Seq<char>) -> int {
    lex_order(encode_utf8(a), encode_utf8(b))
}

/// Byte order is antisymmetric, and equal only on equal sequences.
pub proof fn lemma_lex_order_antisymmetric(a: Seq<u8>, b: Seq<u8>)
    ensures
        lex_order(a, b) == -lex_order(b, a),
        (lex_order(a, b) == 0) == (a == b),
        -1 <= lex_order(a, b) <= 1,
    decreases a.len(),
{
    if a.len() > 0 && b.len() > 0 && a[0] == b[0] {
        lemma_lex_order_antisymmetric(a.skip(1), b.skip(1));
        if a.skip(1) == b.skip(1) {
            assert(a =~= seq![a[0]] + a.skip(1));
            assert(b =~= seq![b[0]] + b.skip(1));
        }
    }
    if a.len() == 0 && b.len() == 0 {
        assert(a =~= b);
    }
}

/// Byte order is transitive.
pub proof fn lemma_lex_order_transitive(a: Seq<u8>, b: Seq<u8>, c: Seq<u8>)
    requires lex_order(a, b) < 0, lex_order(b, c) < 0,
    ensures lex_order(a, c) < 0,
    decreases a.len(),
{
    if a.len() > 0 && b.len() > 0 && c.len() > 0 && a[0] == b[0] && b[0] == c[0] {
        lemma_lex_order_transitive(a.skip(1), b.skip(1), c.skip(1));
    }
}

/// Texts compare equal exactly when they are the same text.
pub proof fn lemma_text_order_zero(a: Seq<char>, b: Seq<char>)
    ensures (text_order(a, b) == 0) == (a == b),
{
    lemma_lex_order_antisymmetric(encode_utf8(a), encode_utf8(b));
    if encode_utf8(a) == encode_utf8(b) {
        encode_utf8_decode_utf8(a);
        encode_utf8_decode_utf8(b);
    }
}

/// Compares two byte slices lexicographically.
pub fn compare_bytes(a: &[u8], b: &[u8]) -> (r: i8)
    ensures r as int == lex_order(a@, b@),
{
    let mut i: usize = 0;
    proof {
        assert(a@.skip(0) =~= a@);
        assert(b@.skip(0) =~= b@);
    }
    while i < a.len() && i < b.len() && a[i] == b[i]
        invariant
            i <= a.len(), i <= b.len(),
            lex_order(a@, b@) == lex_order(a@.skip(i as int), b@.skip(i as int)),
        decreases a.len() - i,
    {
        proof {
            let x = a@.skip(i as int);
            let y = b@.skip(i as int);
            assert(x.skip(1) =~= a@.skip(i + 1));
            assert(y.skip(1) =~= b@.skip(i + 1));
        }
        i = i + 1;
    }
    let ghost x = a@.skip(i as int);
    let ghost y = b@.skip(i as int);
    if i == a.len() {
        if i == b.len() { 0 } else { -1 }
    } else if i == b.len() {
        1
    } else {
        assert(x[0] == a@[i as int] && y[0] == b@[i as int]);
        if a[i] < b[i] { -1 } else { 1 }
    }
}

/// Compares two texts as `str::cmp` does: -1, 0 or 1.
pub fn compare_text(a: &str, b: &str) -> (r: i8)
    ensures r as int == text_order(a@, b@),
{
    compare_bytes(a.as_bytes(), b.as_bytes())
}

/// Whether two texts are the same.
pub fn text_equal(a: &str, b: &str) -> (r: bool)
    ensures r == (a@ == b@),
{
    proof { lemma_text_order_zero(a@, b@); }
    compare_text(a, b) == 0
}

/// Whether a table of `(name, index)` pairs is in strictly increasing order
/// of name.
pub open spec fn sorted_by_name(t: Seq<(&str, u16)>) -> bool {
    forall|i: int, j: int| 0 <= i < j < t.len() ==> text_order(#[trigger] t[i].0@, #[trigger] t[j].0@) < 0
}

/// Binary search of a sorted `(name, index)` table: the index stored with
/// `id`, if `id` is in the table.
pub fn binary_search(sorted: &[(&str, u16)], id: &str) -> (r: Option<u16>)
    requires sorted_by_name(sorted@),
    ensures
        r matches Some(v) ==> exists|i: int| 0 <= i < sorted@.len() && sorted@[i].0@ == id@ && sorted@[i].1 == v,
        r is None ==> forall|i: int| 0 <= i < sorted@.len() ==> sorted@[i].0@ != id@,
{
    let mut lo: usize = 0;
    let mut hi: usize = sorted.len();
    while lo < hi
        invariant
            lo <= hi <= sorted@.len(),
            sorted_by_name(sorted@),
            forall|i: int| 0 <= i < lo ==> text_order(#[trigger] sorted@[i].0@, id@) < 0,
            forall|i: int| hi <= i < sorted@.len() ==> text_order(#[trigger] sorted@[i].0@, id@) > 0,
        decreases hi - lo,
    {
        let mid = lo + (hi - lo) / 2;
        let c = compare_text(sorted[mid].0, id);
        if c == 0 {
            proof { lemma_text_order_zero(sorted@[mid as int].0@, id@); }
            return Some(sorted[mid].1);
        } else if c < 0 {
            proof {
                assert forall|i: int| 0 <= i < mid + 1 implies text_order(#[trigger] sorted@[i].0@, id@) < 0 by {
                    if i < mid {
                        lemma_lex_order_transitive(encode_utf8(sorted@[i].0@), encode_utf8(sorted@[mid as int].0@), encode_utf8(id@));
                    }
                }
            }
            lo = mid + 1;
        } else {
            proof {
                assert forall|i: int| mid <= i < sorted@.len() implies text_order(#[trigger] sorted@[i].0@, id@) > 0 by {
                    if i > mid {
                        lemma_lex_order_antisymmetric(encode_utf8(sorted@[mid as int].0@), encode_utf8(id@));
                        lemma_lex_order_antisymmetric(encode_utf8(sorted@[i].0@), encode_utf8(id@));
                        lemma_lex_order_transitive(encode_utf8(id@), encode_utf8(sorted@[mid as int].0@), encode_utf8(sorted@[i].0@));
                    }
                }
            }
            hi = mid;
        }
    }
    proof {
        assert forall|i: int| 0 <= i < sorted@.len() implies sorted@[i].0@ != id@ by {
            lemma_text_order_zero(sorted@[i].0@, id@);
        }
    }
    None
}


/// The order of two `(name, index)` entries: that of their names.
pub open spec fn entry_order(a: (&'static str, u16), b: (&'static str, u16)) -> int {
    text_order(a.0@, b.0@)
}

/// The order of entries by name is a total preorder.
pub proof fn lemma_entry_order_total_preorder()
    ensures is_total_preorder(|a: (&'static str, u16), b: (&'static str, u16)| entry_order(a, b)),
{
    let ord = |a: (&'static str, u16), b: (&'static str, u16)| entry_order(a, b);
    assert forall|a: (&'static str, u16), b: (&'static str, u16)| #[trigger] ord(a, b) == -ord(b, a) by {
        lemma_lex_order_antisymmetric(encode_utf8(a.0@), encode_utf8(b.0@));
    }
    assert forall|a: (&'static str, u16), b: (&'static str, u16), c: (&'static str, u16)|
        #![trigger ord(a, b), ord(b, c)] ord(a, b) <= 0 && ord(b, c) <= 0 implies ord(a, c) <= 0 by {
        lemma_text_order_zero(a.0@, b.0@);
        lemma_text_order_zero(b.0@, c.0@);
        if ord(a, b) < 0 && ord(b, c) < 0 {
            lemma_lex_order_transitive(encode_utf8(a.0@), encode_utf8(b.0@), encode_utf8(c.0@));
        }
    }
}

/// The entries `(names[i], i)` of a table of names, in table order.
pub open spec fn enumerated(names: Seq<&'static str>) -> Seq<(&'static str, u16)> {
    Seq::new(names.len(), |i: int| (names[i], i as u16))
}

/// The `(name, index)` entries of a table of names, sorted by name, for
/// lookup by `binary_search`; a table of distinct names gives a strictly
/// increasing table. The index must fit in `u16`.
pub fn build_tz_sorted(names: &[&'static str]) -> (r: Vec<(&'static str, u16)>)
    requires names@.len() <= 65536,
    ensures
        sorted_by(r@, |a: (&'static str, u16), b: (&'static str, u16)| entry_order(a, b)),
        is_permutation_of(r@, enumerated(names@)),
        (forall|i: int, j: int| 0 <= i < j < names@.len() ==> names@[i]@ != names@[j]@) ==> sorted_by_name(r@),
{
    let mut v: Vec<(&'static str, u16)> = Vec::new();
    let mut i: usize = 0;
    while i < names.len()
        invariant
            i <= names@.len() <= 65536,
            v@ == enumerated(names@).take(i as int),
        decreases names@.len() - i,
    {
        v.push((names[i], i as u16));
        i = i + 1;
        proof { assert(v@ =~= enumerated(names@).take(i as int)); }
    }
    proof {
        assert(v@ =~= enumerated(names@));
        lemma_entry_order_total_preorder();
    }
    let ghost ord = |a: (&'static str, u16), b: (&'static str, u16)| entry_order(a, b);
    let by_name = |a: (&'static str, u16), b: (&'static str, u16)| -> (c: i32)
        ensures c == entry_order(a, b),
    {
        compare_text(a.0, b.0) as i32
    };
    sort_by(&mut v, by_name, Ghost(ord));
    proof {
        if forall|i: int, j: int| 0 <= i < j < names@.len() ==> names@[i]@ != names@[j]@ {
            let p = choose|p: Seq<int>| permutes(v@, enumerated(names@), p);
            assert forall|i: int, j: int| 0 <= i < j < v@.len() implies
                text_order(#[trigger] v@[i].0@, #[trigger] v@[j].0@) < 0 by {
                assert(ord(v@[i], v@[j]) <= 0);
                assert(p[i] != p[j]);
                assert(v@[i].0 == names@[p[i]] && v@[j].0 == names@[p[j]]);
                if p[i] < p[j] {
                    assert(names@[p[i]]@ != names@[p[j]]@);
                } else {
                    assert(names@[p[j]]@ != names@[p[i]]@);
                }
                lemma_text_order_zero(v@[i].0@, v@[j].0@);
            }
        }
    }
    v
}

} // verus!
