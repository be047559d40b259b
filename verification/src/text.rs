//! Text handling shared by the SQL-facing functions: decimal integers written
//! and read as text (for the 128-bit values SQL cannot hold), whitespace
//! trimming, and byte-wise ordering of identifiers.
use vstd::prelude::*;

verus! {

// ---------------------------------------------------------------------------
// Decimal digits
// ---------------------------------------------------------------------------

/// The ASCII digit for `d` (`0 <= d < 10`).
pub open spec fn digit_char(d: int) -> char {
    if d == 0 { '0' } else if d == 1 { '1' } else if d == 2 { '2' } else if d == 3 { '3' }
    else if d == 4 { '4' } else if d == 5 { '5' } else if d == 6 { '6' } else if d == 7 { '7' }
    else if d == 8 { '8' } else { '9' }
}

/// Whether `c` is an ASCII digit.
pub open spec fn is_digit(c: char) -> bool {
    '0' <= c && c <= '9'
}

/// The numeric value of the ASCII digit `c`.
pub open spec fn digit_value(c: char) -> int {
    (c as int) - ('0' as int)
}

/// The decimal digits of `n`, most significant first, without leading zeros.
pub open spec fn decimal_of_nat(n: nat) -> Seq<char>
    decreases n,
{
    if n < 10 {
        seq![digit_char(n as int)]
    } else {
        decimal_of_nat(n / 10).push(digit_char((n % 10) as int))
    }
}

/// The decimal text of `v`, as Rust's `Display` for integers writes it:
/// a leading `-` for negative values, no sign otherwise.
pub open spec fn decimal_of_int(v: int) -> Seq<char> {
    if v < 0 {
        seq!['-'] + decimal_of_nat((-v) as nat)
    } else {
        decimal_of_nat(v as nat)
    }
}

/// The value of a sequence of digits, read most significant first.
pub open spec fn digits_value(s: Seq<char>) -> int
    decreases s.len(),
{
    if s.len() == 0 {
        0
    } else {
        digits_value(s.drop_last()) * 10 + digit_value(s.last())
    }
}

/// Whether every character of `s` is an ASCII digit.
pub open spec fn all_digits(s: Seq<char>) -> bool {
    forall|i: int| 0 <= i < s.len() ==> is_digit(#[trigger] s[i])
}

/// Ten to the power `w`.
pub open spec fn pow10(w: nat) -> nat
    decreases w,
{
    if w == 0 { 1 } else { 10 * pow10((w - 1) as nat) }
}

/// The last `w` decimal digits of `n`, zero-padded on the left, most
/// significant first.
pub open spec fn padded_decimal(n: nat, w: nat) -> Seq<char>
    decreases w,
{
    if w == 0 {
        Seq::empty()
    } else {
        padded_decimal(n / 10, (w - 1) as nat).push(digit_char((n % 10) as int))
    }
}

/// What Rust's `str::parse::<i128>` accepts and returns: an optional `+` or
/// `-`, then one or more ASCII digits, whose value fits in an `i128`.
pub open spec fn parse_i128_spec(s: Seq<char>) -> Option<i128> {
    let neg = s.len() > 0 && s[0] == '-';
    let body = if s.len() > 0 && (s[0] == '-' || s[0] == '+') { s.skip(1) } else { s };
    if body.len() == 0 || !all_digits(body) {
        None
    } else {
        let v = if neg { -digits_value(body) } else { digits_value(body) };
        if i128::MIN <= v && v <= i128::MAX {
            Some(v as i128)
        } else {
            None
        }
    }
}

proof fn lemma_digit_char_value(d: int)
    requires 0 <= d < 10,
    ensures is_digit(digit_char(d)), digit_value(digit_char(d)) == d,
{
}

/// A number below `10^w`, written with `w` zero-padded digits, has `w`
/// digits that read back as the number.
pub proof fn lemma_padded_decimal(n: nat, w: nat)
    requires n < pow10(w),
    ensures
        padded_decimal(n, w).len() == w,
        all_digits(padded_decimal(n, w)),
        digits_value(padded_decimal(n, w)) == n,
    decreases w,
{
    if w == 0 {
        assert(n == 0);
    } else {
        let p = pow10((w - 1) as nat);
        assert(n / 10 < p) by (nonlinear_arith) requires n < 10 * p;
        lemma_padded_decimal(n / 10, (w - 1) as nat);
        lemma_digit_char_value((n % 10) as int);
        let s = padded_decimal(n, w);
        assert(s.drop_last() =~= padded_decimal(n / 10, (w - 1) as nat));
        assert(n == (n / 10) * 10 + n % 10);
        assert forall|i: int| 0 <= i < s.len() implies is_digit(#[trigger] s[i]) by {
            if i < s.len() - 1 {
                assert(s[i] == padded_decimal(n / 10, (w - 1) as nat)[i]);
            }
        }
    }
}

/// The digits that `decimal_of_nat` writes read back as the number.
pub proof fn lemma_decimal_of_nat_digits(n: nat)
    ensures
        all_digits(decimal_of_nat(n)),
        digits_value(decimal_of_nat(n)) == n,
        decimal_of_nat(n).len() >= 1,
    decreases n,
{
    if n < 10 {
        lemma_digit_char_value(n as int);
        assert(decimal_of_nat(n).drop_last() =~= Seq::<char>::empty());
        assert(digits_value(Seq::<char>::empty()) == 0);
    } else {
        lemma_decimal_of_nat_digits(n / 10);
        lemma_digit_char_value((n % 10) as int);
        let s = decimal_of_nat(n);
        assert(s.drop_last() =~= decimal_of_nat(n / 10));
        assert(s.last() == digit_char((n % 10) as int));
        assert(digits_value(s) == digits_value(s.drop_last()) * 10 + digit_value(s.last()));
        assert(n == (n / 10) * 10 + n % 10);
        assert forall|i: int| 0 <= i < s.len() implies is_digit(#[trigger] s[i]) by {
            if i < s.len() - 1 {
                assert(s[i] == decimal_of_nat(n / 10)[i]);
            }
        }
    }
}

/// The single-character text of a digit.
fn digit_str(d: u128) -> (r: &'static str)
    requires d < 10,
    ensures r@ == seq![digit_char(d as int)],
{
    proof {
        reveal_strlit("0"); reveal_strlit("1"); reveal_strlit("2"); reveal_strlit("3");
        reveal_strlit("4"); reveal_strlit("5"); reveal_strlit("6"); reveal_strlit("7");
        reveal_strlit("8"); reveal_strlit("9");
    }
    if d == 0 { "0" } else if d == 1 { "1" } else if d == 2 { "2" } else if d == 3 { "3" }
    else if d == 4 { "4" } else if d == 5 { "5" } else if d == 6 { "6" } else if d == 7 { "7" }
    else if d == 8 { "8" } else { "9" }
}

/// Appends the decimal digits of `n` to `out`.
fn push_decimal(out: &mut String, n: u128)
    ensures final(out)@ == old(out)@ + decimal_of_nat(n as nat),
    decreases n,
{
    if n >= 10 {
        push_decimal(out, n / 10);
    }
    let s = digit_str(n % 10);
    let ghost before = out@;
    out.append(s);
    proof {
        if n >= 10 {
            assert(decimal_of_nat(n as nat) =~= decimal_of_nat((n / 10) as nat).push(digit_char((n % 10) as int)));
            assert(out@ =~= old(out)@ + decimal_of_nat(n as nat));
        } else {
            assert(out@ =~= old(out)@ + decimal_of_nat(n as nat));
        }
    }
}

/// The decimal text of a 128-bit integer, as `i128::to_string` writes it.
pub fn i128_to_text(v: i128) -> (r: String)
    ensures r@ == decimal_of_int(v as int),
{
    let mut out = String::new();
    if v < 0 {
        out.append("-");
        proof { reveal_strlit("-"); }
        let m: u128 = if v == i128::MIN { 0x8000_0000_0000_0000_0000_0000_0000_0000u128 } else { (-v) as u128 };
        push_decimal(&mut out, m);
        assert(out@ =~= decimal_of_int(v as int));
    } else {
        push_decimal(&mut out, v as u128);
    }
    out
}


/// The digits of an all-digit sequence never lose value when more follow.
proof fn lemma_digits_value_prefix(s: Seq<char>, k: int)
    requires all_digits(s), 0 <= k <= s.len(),
    ensures
        0 <= digits_value(s.take(k)) <= digits_value(s),
        digits_value(s) >= 0,
    decreases s.len(),
{
    if s.len() == 0 {
        assert(s.take(k) =~= s);
    } else if k == s.len() {
        assert(s.take(k) =~= s);
        lemma_digits_value_prefix(s.drop_last(), k - 1);
    } else {
        assert(all_digits(s.drop_last())) by {
            assert forall|i: int| 0 <= i < s.drop_last().len() implies is_digit(#[trigger] s.drop_last()[i]) by {
                assert(s.drop_last()[i] == s[i]);
            }
        }
        lemma_digits_value_prefix(s.drop_last(), k);
        assert(s.drop_last().take(k) =~= s.take(k));
        assert(is_digit(s[s.len() - 1]));
    }
}

/// One more digit read after a prefix.
proof fn lemma_digits_value_step(s: Seq<char>, k: int)
    requires 0 <= k < s.len(),
    ensures digits_value(s.take(k + 1)) == digits_value(s.take(k)) * 10 + digit_value(s[k]),
{
    assert(s.take(k + 1).drop_last() =~= s.take(k));
}

/// Parses the characters `s@[start..end]` as `str::parse::<i128>` does.
pub(crate) fn parse_i128_range(s: &str, start: usize, end: usize) -> (r: Option<i128>)
    requires start <= end <= s@.len(),
    ensures r == parse_i128_spec(s@.subrange(start as int, end as int)),
{
    let ghost t = s@.subrange(start as int, end as int);
    if start == end {
        return None;
    }
    let c0 = s.get_char(start);
    let neg = c0 == '-';
    let mut i: usize = if c0 == '-' || c0 == '+' { start + 1 } else { start };
    let ghost body = if c0 == '-' || c0 == '+' { t.skip(1) } else { t };
    let ghost off = i as int;
    proof {
        assert(t[0] == c0);
        assert(body =~= s@.subrange(off, end as int));
    }
    if i == end {
        return None;
    }
    let mut acc: i128 = 0;
    while i < end
        invariant
            0 <= start <= off <= i <= end, end <= s@.len(), off < end,
            body =~= s@.subrange(off, end as int),
            all_digits(body.take(i - off)),
            acc == (if neg { -digits_value(body.take(i - off)) } else { digits_value(body.take(i - off)) }),
            neg == (t[0] == '-'),
            t =~= s@.subrange(start as int, end as int),
            body == (if t[0] == '-' || t[0] == '+' { t.skip(1) } else { t }),
            t.len() > 0,
        decreases end - i,
    {
        let c = s.get_char(i);
        let ghost k: int = i - off;
        proof {
            assert(body[k] == c);
            lemma_digits_value_step(body, k);
        }
        if !('0' <= c && c <= '9') {
            proof {
                assert(!is_digit(body[k]));
            }
            return None;
        }
        let d: i128 = (c as u32 - '0' as u32) as i128;
        proof {
            assert(all_digits(body.take(k + 1))) by {
                assert forall|j: int| 0 <= j < k + 1 implies is_digit(#[trigger] body.take(k + 1)[j]) by {
                    if j < k { assert(body.take(k + 1)[j] == body.take(k)[j]); }
                }
            }
        }
        let m = acc.checked_mul(10);
        let next = match m {
            Some(m) => if neg { m.checked_sub(d) } else { m.checked_add(d) },
            None => None,
        };
        match next {
            Some(v) => {
                acc = v;
            }
            None => {
                proof {
                    // The value read so far is already out of range, and
                    // more digits only make it larger.
                    let rest_all = all_digits(body);
                    if rest_all {
                        lemma_digits_value_prefix(body, k + 1);
                    }
                }
                return None;
            }
        }
        i = i + 1;
    }
    proof {
        assert(body.take(body.len() as int) =~= body);
    }
    Some(acc)
}

/// Whether `c` is white space as `char::is_whitespace` (Unicode
/// `White_Space`) defines it.
pub open spec fn is_white_space(c: char) -> bool {
    let u = c as u32;
    (0x9 <= u && u <= 0xD) || u == 0x20 || u == 0x85 || u == 0xA0 || u == 0x1680
        || (0x2000 <= u && u <= 0x200A) || u == 0x2028 || u == 0x2029 || u == 0x202F
        || u == 0x205F || u == 0x3000
}

fn char_is_white_space(c: char) -> (r: bool)
    ensures r == is_white_space(c),
{
    let u = c as u32;
    (0x9 <= u && u <= 0xD) || u == 0x20 || u == 0x85 || u == 0xA0 || u == 0x1680
        || (0x2000 <= u && u <= 0x200A) || u == 0x2028 || u == 0x2029 || u == 0x202F
        || u == 0x205F || u == 0x3000
}

/// `s` without its leading and trailing white space, as `str::trim` gives it.
pub open spec fn trim_spec(s: Seq<char>) -> Seq<char> {
    if forall|i: int| 0 <= i < s.len() ==> is_white_space(#[trigger] s[i]) {
        Seq::empty()
    } else {
        let a = choose|a: int| 0 <= a < s.len() && !is_white_space(s[a])
            && forall|j: int| 0 <= j < a ==> is_white_space(#[trigger] s[j]);
        let b = choose|b: int| 0 <= b < s.len() && !is_white_space(s[b])
            && forall|j: int| b < j < s.len() ==> is_white_space(#[trigger] s[j]);
        s.subrange(a, b + 1)
    }
}

/// The bounds of `s` without surrounding white space.
fn trim_bounds(s: &str) -> (r: (usize, usize))
    ensures
        r.0 <= r.1 <= s@.len(),
        s@.subrange(r.0 as int, r.1 as int) == trim_spec(s@),
{
    let n = s.unicode_len();
    let mut a: usize = 0;
    while a < n && char_is_white_space(s.get_char(a))
        invariant
            a <= n, n == s@.len(),
            forall|j: int| 0 <= j < a ==> is_white_space(#[trigger] s@[j]),
        decreases n - a,
    {
        a = a + 1;
    }
    if a == n {
        proof {
            assert(s@.subrange(a as int, a as int) =~= Seq::<char>::empty());
        }
        return (a, a);
    }
    let mut b: usize = n;
    while b > a + 1 && char_is_white_space(s.get_char(b - 1))
        invariant
            a < b <= n, n == s@.len(), !is_white_space(s@[a as int]),
            forall|j: int| b <= j < n ==> is_white_space(#[trigger] s@[j]),
        decreases b,
    {
        b = b - 1;
    }
    proof {
        assert(!is_white_space(s@[b - 1]));
        let sa = choose|x: int| 0 <= x < s@.len() && !is_white_space(s@[x])
            && forall|j: int| 0 <= j < x ==> is_white_space(#[trigger] s@[j]);
        let sb = choose|x: int| 0 <= x < s@.len() && !is_white_space(s@[x])
            && forall|j: int| x < j < s@.len() ==> is_white_space(#[trigger] s@[j]);
        assert(!(forall|i: int| 0 <= i < s@.len() ==> is_white_space(#[trigger] s@[i])));
        assert(exists|x: int| 0 <= x < s@.len() && !is_white_space(s@[x])
            && forall|j: int| 0 <= j < x ==> is_white_space(#[trigger] s@[j]));
        assert(exists|x: int| 0 <= x < s@.len() && !is_white_space(s@[x])
            && forall|j: int| x < j < s@.len() ==> is_white_space(#[trigger] s@[j])) by {
            assert(0 <= b - 1 < s@.len() && !is_white_space(s@[b - 1]));
        }
        if sa < a { assert(is_white_space(s@[sa])); }
        if sa > a { assert(is_white_space(s@[a as int])); }
        if sb < b - 1 { assert(is_white_space(s@[b - 1])); }
        if sb > b - 1 { assert(is_white_space(s@[sb])); }
    }
    (a, b)
}

/// Reads a 128-bit integer written in decimal, ignoring surrounding white
/// space: `text.trim().parse::<i128>()`.
pub fn parse_i128_trimmed(text: &str) -> (r: Option<i128>)
    ensures r == parse_i128_spec(trim_spec(text@)),
{
    let (a, b) = trim_bounds(text);
    parse_i128_range(text, a, b)
}


/// Text with no white space at either end is its own trimmed form.
pub proof fn lemma_trim_of_unpadded(s: Seq<char>)
    requires
        s.len() > 0,
        !is_white_space(s[0]),
        !is_white_space(s[s.len() - 1]),
    ensures trim_spec(s) == s,
{
    assert(!(forall|i: int| 0 <= i < s.len() ==> is_white_space(#[trigger] s[i])));
    assert(exists|x: int| 0 <= x < s.len() && !is_white_space(s[x])
        && forall|j: int| 0 <= j < x ==> is_white_space(#[trigger] s[j])) by {
        assert(0 <= 0 < s.len() && !is_white_space(s[0]));
    }
    assert(exists|x: int| 0 <= x < s.len() && !is_white_space(s[x])
        && forall|j: int| x < j < s.len() ==> is_white_space(#[trigger] s[j])) by {
        assert(0 <= s.len() - 1 < s.len() && !is_white_space(s[s.len() - 1]));
    }
    let a = choose|x: int| 0 <= x < s.len() && !is_white_space(s[x])
        && forall|j: int| 0 <= j < x ==> is_white_space(#[trigger] s[j]);
    let b = choose|x: int| 0 <= x < s.len() && !is_white_space(s[x])
        && forall|j: int| x < j < s.len() ==> is_white_space(#[trigger] s[j]);
    if a > 0 { assert(is_white_space(s[0])); }
    if b < s.len() - 1 { assert(is_white_space(s[s.len() - 1])); }
    assert(s.subrange(a, b + 1) =~= s);
}

/// Decimal text reads back, after trimming, as the number it was written from.
pub proof fn lemma_decimal_text_round_trip(v: i128)
    ensures
        parse_i128_spec(decimal_of_int(v as int)) == Some(v),
        parse_i128_spec(trim_spec(decimal_of_int(v as int))) == Some(v),
{
    let t = decimal_of_int(v as int);
    if v < 0 {
        let m = (-(v as int)) as nat;
        lemma_decimal_of_nat_digits(m);
        assert(t.skip(1) =~= decimal_of_nat(m));
        assert(t[0] == '-');
    } else {
        lemma_decimal_of_nat_digits(v as nat);
        assert(is_digit(t[0]));
    }
    let d = if v < 0 { decimal_of_nat((-(v as int)) as nat) } else { decimal_of_nat(v as nat) };
    assert(is_digit(d[d.len() - 1]));
    assert(t[t.len() - 1] == d[d.len() - 1]);
    assert(is_digit(t[0]) || t[0] == '-');
    lemma_trim_of_unpadded(t);
}

} // verus!
