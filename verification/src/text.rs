//! Small verified text utilities shared across the crate: ASCII case
//! folding, decimal formatting, and lexicographic comparison of strings
//! (the order `String` sorts in, since code-point order and byte order
//! agree under UTF-8).

use vstd::prelude::*;

verus! {

/// Relies on `String::push`: appends the given character to the end of the
/// string.
pub assume_specification[ String::push ](s: &mut String, c: char)
    ensures
        final(s)@ == old(s)@.push(c),
;

/// ASCII lower-casing of one character: `A`–`Z` fold to `a`–`z`, everything
/// else is unchanged.
pub open spec fn lower_char(c: char) -> char {
    if 65 <= c as u32 <= 90 {
        (((c as u32) + 32) as u8) as char
    } else {
        c
    }
}

/// ASCII lower-casing of a character sequence.
pub open spec fn lower_chars(s: Seq<char>) -> Seq<char> {
    s.map_values(|c: char| lower_char(c))
}

/// The ASCII lower-case form of a string.
pub fn to_ascii_lowercase_str(s: &str) -> (r: String)
    ensures
        r@ == lower_chars(s@),
{
    let n = s.unicode_len();
    let mut out = String::new();
    let mut i: usize = 0;
    while i < n
        invariant
            n == s@.len(),
            i <= n,
            out@ == lower_chars(s@.subrange(0, i as int)),
        decreases n - i,
    {
        let c = s.get_char(i);
        let u = c as u32;
        if 65 <= u && u <= 90 {
            out.push(((u + 32) as u8) as char);
        } else {
            out.push(c);
        }
        proof {
            assert(s@.subrange(0, i + 1) =~= s@.subrange(0, i as int).push(s@[i as int]));
            assert(lower_chars(s@.subrange(0, i + 1)) =~= lower_chars(
                s@.subrange(0, i as int),
            ).push(lower_char(s@[i as int])));
        }
        i = i + 1;
    }
    proof {
        assert(s@.subrange(0, n as int) =~= s@);
    }
    out
}

/// Whether two strings are an ASCII case-insensitive match.
pub fn eq_ignore_ascii_case(a: &str, b: &str) -> (r: bool)
    ensures
        r == (lower_chars(a@) == lower_chars(b@)),
{
    let la = to_ascii_lowercase_str(a);
    let lb = to_ascii_lowercase_str(b);
    la == lb
}

/// Exact equality of two string slices.
pub fn str_eq(a: &str, b: &str) -> (r: bool)
    ensures
        r == (a@ == b@),
{
    let oa = a.to_owned();
    let ob = b.to_owned();
    oa == ob
}

/// The decimal digit character for one digit value.
pub open spec fn digit_char(d: nat) -> char {
    ((48 + d) as u8) as char
}

/// The decimal representation of a natural number, most significant digit
/// first, with no leading zeros (except for 0 itself).
pub open spec fn dec_str(n: nat) -> Seq<char>
    decreases n,
{
    if n < 10 {
        seq![digit_char(n)]
    } else {
        dec_str(n / 10).push(digit_char(n % 10))
    }
}

/// Format a number in decimal.
pub fn u64_to_string(n: u64) -> (r: String)
    ensures
        r@ == dec_str(n as nat),
{
    let mut digits: Vec<u8> = Vec::new();
    let mut m: u64 = n;
    digits.push((m % 10) as u8);
    m = m / 10;
    while m > 0
        invariant
            digits@.len() >= 1,
            dec_str(n as nat) == (if m > 0 {
                dec_str(m as nat)
            } else {
                Seq::<char>::empty()
            }) + digits_rev_chars(digits@),
        decreases m,
    {
        let d = (m % 10) as u8;
        digits.push(d);
        proof {
            lemma_digits_rev_push(digits@.drop_last(), d);
        }
        m = m / 10;
        proof {
            if m > 0 {
                assert(dec_str((m * 10 + d) as nat) == dec_str(m as nat).push(
                    digit_char(d as nat),
                ));
            }
            assert((if m > 0 {
                dec_str(m as nat)
            } else {
                Seq::<char>::empty()
            }).push(digit_char(d as nat)) + digits_rev_chars(digits@.drop_last()) =~= (if m > 0 {
                dec_str(m as nat)
            } else {
                Seq::<char>::empty()
            }) + digits_rev_chars(digits@));
        }
    }
    let mut out = String::new();
    let mut j: usize = digits.len();
    while j > 0
        invariant
            j <= digits@.len(),
            dec_str(n as nat) == digits_rev_chars(digits@),
            out@ =~= digits_rev_chars(digits@).take(digits@.len() - j),
        decreases j,
    {
        j = j - 1;
        let d = digits[j];
        out.push((48 + d % 10) as char);
        proof {
            let full = digits_rev_chars(digits@);
            assert(full[digits@.len() - j - 1] == digit_char((digits@[j as int] % 10) as nat));
            assert(out@ =~= full.take(digits@.len() - j));
        }
    }
    proof {
        assert(digits_rev_chars(digits@).take(digits@.len() as int) =~= digits_rev_chars(
            digits@,
        ));
    }
    out
}

/// The digit characters of a reversed digit-value sequence (the values are
/// least significant first; the characters come out most significant
/// first).  Digit values are taken modulo 10.
pub open spec fn digits_rev_chars(ds: Seq<u8>) -> Seq<char> {
    Seq::new(ds.len(), |i: int| digit_char((ds[ds.len() - 1 - i] % 10) as nat))
}

proof fn lemma_digits_rev_push(ds: Seq<u8>, d: u8)
    ensures
        digits_rev_chars(ds.push(d)) =~= seq![digit_char((d % 10) as nat)] + digits_rev_chars(
            ds,
        ),
{
}

/// Format a 32-bit number in decimal.
pub fn u32_to_string(n: u32) -> (r: String)
    ensures
        r@ == dec_str(n as nat),
{
    u64_to_string(n as u64)
}

/// Format a 16-bit number in decimal.
pub fn u16_to_string(n: u16) -> (r: String)
    ensures
        r@ == dec_str(n as nat),
{
    u64_to_string(n as u64)
}

/// Format a usize in decimal.
pub fn usize_to_string(n: usize) -> (r: String)
    ensures
        r@ == dec_str(n as nat),
{
    u64_to_string(n as u64)
}

/// The canonical text of a boolean.
pub open spec fn bool_str(b: bool) -> Seq<char> {
    if b {
        "true"@
    } else {
        "false"@
    }
}

/// Format a boolean as `true` or `false`.
pub fn bool_to_string(b: bool) -> (r: String)
    ensures
        r@ == bool_str(b),
{
    if b {
        "true".to_owned()
    } else {
        "false".to_owned()
    }
}

/// Strict lexicographic order on character sequences by code point — the
/// order `String` comparisons sort in.
pub open spec fn chars_lt(a: Seq<char>, b: Seq<char>) -> bool
    decreases a.len(),
{
    if b.len() == 0 {
        false
    } else if a.len() == 0 {
        true
    } else if a[0] != b[0] {
        (a[0] as u32) < (b[0] as u32)
    } else {
        chars_lt(a.drop_first(), b.drop_first())
    }
}

/// Totality: two distinct sequences compare one way or the other.
pub proof fn lemma_chars_lt_total(a: Seq<char>, b: Seq<char>)
    ensures
        a =~= b || chars_lt(a, b) || chars_lt(b, a),
    decreases a.len(),
{
    if a.len() > 0 && b.len() > 0 && a[0] == b[0] {
        lemma_chars_lt_total(a.drop_first(), b.drop_first());
        if a.drop_first() =~= b.drop_first() {
            assert forall|i: int| 0 <= i < a.len() implies a[i] == b[i] by {
                if i > 0 {
                    assert(a[i] == a.drop_first()[i - 1]);
                    assert(b[i] == b.drop_first()[i - 1]);
                }
            }
            assert(a =~= b);
        }
    } else if a.len() > 0 && b.len() > 0 {
        assert((a[0] as u32) != (b[0] as u32)) by {
            vstd::utf8::char_is_scalar(a[0]);
            vstd::utf8::char_u32_cast(a[0], a[0] as u32);
            vstd::utf8::char_u32_cast(b[0], b[0] as u32);
        }
    }
}

/// Transitivity of the lexicographic order.
pub proof fn lemma_chars_lt_trans(a: Seq<char>, b: Seq<char>, c: Seq<char>)
    requires
        chars_lt(a, b),
        chars_lt(b, c),
    ensures
        chars_lt(a, c),
    decreases a.len() + b.len() + c.len(),
{
    if c.len() == 0 {
        // impossible: chars_lt(b, c) would be false
    } else if a.len() == 0 {
    } else if b.len() == 0 {
    } else {
        if a[0] == b[0] && b[0] == c[0] {
            lemma_chars_lt_trans(a.drop_first(), b.drop_first(), c.drop_first());
        }
    }
}

/// The character sequences of a list of strings.
pub open spec fn str_views(s: Seq<String>) -> Seq<Seq<char>> {
    s.map_values(|x: String| x@)
}

/// Whether some element of the list reads `k`.
pub open spec fn contains_str(s: Seq<String>, k: Seq<char>) -> bool {
    exists|i: int| 0 <= i < s.len() && s[i]@ == k
}

/// Whether some element of the vector reads `key`.
pub fn contains_string(v: &Vec<String>, key: &str) -> (r: bool)
    ensures
        r == contains_str(v@, key@),
{
    let mut i: usize = 0;
    while i < v.len()
        invariant
            i <= v@.len(),
            forall|j: int| 0 <= j < i ==> v@[j]@ != key@,
        decreases v@.len() - i,
    {
        if str_eq(v[i].as_str(), key) {
            return true;
        }
        i = i + 1;
    }
    false
}

/// Compare two strings in lexicographic code-point order.
pub fn str_lt(a: &str, b: &str) -> (r: bool)
    ensures
        r == chars_lt(a@, b@),
{
    let na = a.unicode_len();
    let nb = b.unicode_len();
    let mut i: usize = 0;
    proof {
        assert(a@.skip(0) =~= a@);
        assert(b@.skip(0) =~= b@);
    }
    loop
        invariant
            na == a@.len(),
            nb == b@.len(),
            i <= na,
            i <= nb,
            forall|j: int| 0 <= j < i ==> a@[j] == b@[j],
            chars_lt(a@, b@) == chars_lt(a@.skip(i as int), b@.skip(i as int)),
        decreases na - i,
    {
        if i >= nb {
            proof {
                assert(b@.skip(i as int).len() == 0);
            }
            return false;
        }
        if i >= na {
            proof {
                assert(a@.skip(i as int).len() == 0);
                assert(b@.skip(i as int).len() > 0);
            }
            return true;
        }
        let ca = a.get_char(i);
        let cb = b.get_char(i);
        if ca != cb {
            proof {
                assert(a@.skip(i as int)[0] == a@[i as int]);
                assert(b@.skip(i as int)[0] == b@[i as int]);
            }
            return (ca as u32) < (cb as u32);
        }
        proof {
            assert(a@.skip(i as int)[0] == a@[i as int]);
            assert(b@.skip(i as int)[0] == b@[i as int]);
            assert(a@.skip(i as int).drop_first() =~= a@.skip(i + 1));
            assert(b@.skip(i as int).drop_first() =~= b@.skip(i + 1));
        }
        i = i + 1;
    }
}


/// A list of strings in strictly increasing lexicographic order (so also
/// free of duplicates).
pub open spec fn sorted_views(s: Seq<String>) -> bool {
    forall|i: int, j: int| 0 <= i < j < s.len() ==> chars_lt(s[i]@, s[j]@)
}

/// The first position whose element is not below `s` (the insertion point).
fn lower_bound(v: &Vec<String>, s: &str) -> (r: usize)
    ensures
        r <= v@.len(),
        forall|j: int| 0 <= j < r ==> chars_lt(v@[j]@, s@),
        r < v@.len() ==> !chars_lt(v@[r as int]@, s@),
{
    let mut i: usize = 0;
    while i < v.len()
        invariant
            i <= v@.len(),
            forall|j: int| 0 <= j < i ==> chars_lt(v@[j]@, s@),
        decreases v@.len() - i,
    {
        if str_lt(v[i].as_str(), s) {
            i = i + 1;
        } else {
            return i;
        }
    }
    i
}

/// Insert a string into a sorted, duplicate-free list, keeping it so.  The
/// contents afterwards are the old contents plus the new string.
pub fn insert_sorted_unique(v: &mut Vec<String>, s: String)
    requires
        sorted_views(old(v)@),
    ensures
        sorted_views(final(v)@),
        forall|x: Seq<char>| contains_str(final(v)@, x) <==> (contains_str(old(v)@, x) || x
            == s@),
{
    let pos = lower_bound(v, s.as_str());
    if pos < v.len() {
        if !str_lt(s.as_str(), v[pos].as_str()) {
            proof {
                lemma_chars_lt_total(s@, v@[pos as int]@);
                assert(v@[pos as int]@ == s@);
                assert(contains_str(v@, s@));
            }
            return ;
        }
    }
    let ghost before = v@;
    v.insert(pos, s);
    proof {
        before.insert_ensures(pos as int, s);
        assert(v@.len() == before.len() + 1);
        assert(v@[pos as int] == s);
        assert(forall|j: int| 0 <= j < pos ==> #[trigger] v@[j] == before[j]);
        assert forall|j: int| pos < j < v@.len() implies #[trigger] v@[j] == before[j - 1] by {
            assert(before.insert(pos as int, s)[j - 1 + 1] == before[j - 1]);
        }
        assert forall|i: int, j: int| 0 <= i < j < v@.len() implies chars_lt(v@[i]@, v@[j]@) by {
            let p = pos as int;
            if j < p {
                assert(v@[i] == before[i] && v@[j] == before[j]);
            } else if i < p && j == p {
                assert(v@[i] == before[i]);
            } else if i < p && j > p {
                assert(v@[i] == before[i] && v@[j] == before[j - 1]);
            } else if i == p {
                assert(v@[j] == before[j - 1]);
                if j - 1 > p {
                    lemma_chars_lt_trans(s@, before[p]@, before[j - 1]@);
                }
            } else {
                assert(v@[i] == before[i - 1] && v@[j] == before[j - 1]);
            }
        }
        assert forall|x: Seq<char>|
            contains_str(v@, x) <==> (contains_str(before, x) || x == s@) by {
            let p = pos as int;
            if contains_str(v@, x) {
                let i = choose|i: int| 0 <= i < v@.len() && v@[i]@ == x;
                if i < p {
                    assert(before[i]@ == x);
                    assert(contains_str(before, x));
                } else if i == p {
                    assert(x == s@);
                } else {
                    assert(before[i - 1]@ == x);
                    assert(contains_str(before, x));
                }
            }
            if contains_str(before, x) {
                let i = choose|i: int| 0 <= i < before.len() && before[i]@ == x;
                if i < p {
                    assert(v@[i]@ == x);
                } else {
                    assert(v@[i + 1]@ == x);
                }
                assert(contains_str(v@, x));
            }
            if x == s@ {
                assert(v@[p]@ == x);
                assert(contains_str(v@, x));
            }
        }
    }
}

/// The strings of `items`, sorted in increasing lexicographic order with
/// duplicates removed.
pub fn sorted_dedup(items: &Vec<String>) -> (r: Vec<String>)
    ensures
        sorted_views(r@),
        forall|x: Seq<char>| contains_str(r@, x) <==> contains_str(items@, x),
{
    let mut out: Vec<String> = Vec::new();
    let mut i: usize = 0;
    while i < items.len()
        invariant
            i <= items@.len(),
            sorted_views(out@),
            forall|x: Seq<char>|
                contains_str(out@, x) <==> contains_str(items@.subrange(0, i as int), x),
        decreases items@.len() - i,
    {
        insert_sorted_unique(&mut out, items[i].clone());
        proof {
            assert forall|x: Seq<char>|
                contains_str(out@, x) <==> contains_str(items@.subrange(0, i + 1), x) by {
                assert(items@.subrange(0, i + 1) =~= items@.subrange(0, i as int).push(
                    items@[i as int],
                ));
                if contains_str(items@.subrange(0, i + 1), x) {
                    let j = choose|j: int|
                        0 <= j < items@.subrange(0, i + 1).len() && #[trigger] items@.subrange(
                            0,
                            i + 1,
                        )[j]@ == x;
                    if j < i {
                        assert(items@.subrange(0, i as int)[j]@ == x);
                        assert(contains_str(items@.subrange(0, i as int), x));
                    } else {
                        assert(x == items@[i as int]@);
                    }
                }
                if contains_str(items@.subrange(0, i as int), x) {
                    let j = choose|j: int|
                        0 <= j < i && #[trigger] items@.subrange(0, i as int)[j]@ == x;
                    assert(items@.subrange(0, i + 1)[j]@ == x);
                }
                if x == items@[i as int]@ {
                    assert(items@.subrange(0, i + 1)[i as int]@ == x);
                }
            }
        }
        i = i + 1;
    }
    proof {
        assert(items@.subrange(0, items@.len() as int) =~= items@);
    }
    out
}

} // verus!
