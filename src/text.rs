//! Verified string helpers: equality, prefix and infix tests on the UTF-8
//! bytes of a string, which is how `str` compares and searches.

use vstd::prelude::*;
use vstd::utf8::{encode_utf8, encode_utf8_decode_utf8};

verus! {

/// `p` occurs in `h` at position `i`.
pub open spec fn occurs_at<T>(h: Seq<T>, p: Seq<T>, i: int) -> bool {
    0 <= i && i + p.len() <= h.len() && h.subrange(i, i + p.len()) == p
}

/// `p` occurs somewhere in `h`.
pub open spec fn has_infix<T>(h: Seq<T>, p: Seq<T>) -> bool {
    exists|i: int| occurs_at(h, p, i)
}

/// `str::contains` with a string pattern: the pattern's bytes occur in the text's bytes.
pub open spec fn text_contains(s: Seq<char>, p: Seq<char>) -> bool {
    has_infix(encode_utf8(s), encode_utf8(p))
}

/// `str::starts_with` with a string pattern.
pub open spec fn text_starts_with(s: Seq<char>, p: Seq<char>) -> bool {
    occurs_at(encode_utf8(s), encode_utf8(p), 0)
}

/// Number of bytes of the UTF-8 encoding, which is what `str::len` counts.
pub open spec fn byte_len(s: Seq<char>) -> nat {
    encode_utf8(s).len()
}

/// Equal strings, decided byte by byte.
pub fn text_eq(a: &str, b: &str) -> (r: bool)
    ensures
        r == (a@ == b@),
{
    let x = a.as_bytes();
    let y = b.as_bytes();
    proof {
        encode_utf8_decode_utf8(a@);
        encode_utf8_decode_utf8(b@);
    }
    if x.len() != y.len() {
        return false;
    }
    let mut i: usize = 0;
    while i < x.len()
        invariant
            x@ == encode_utf8(a@),
            y@ == encode_utf8(b@),
            x@.len() == y@.len(),
            i <= x@.len(),
            forall|j: int| 0 <= j < i ==> x@[j] == y@[j],
        decreases x@.len() - i,
    {
        if x[i] != y[i] {
            return false;
        }
        i = i + 1;
    }
    assert(x@ =~= y@);
    true
}

/// An optional string that is present and equal to `lit`.
pub open spec fn is_text(o: Option<String>, lit: Seq<char>) -> bool {
    o matches Some(s) && s@ == lit
}

pub fn opt_is(o: &Option<String>, lit: &str) -> (r: bool)
    ensures
        r == is_text(*o, lit@),
{
    match o {
        Some(s) => text_eq(s.as_str(), lit),
        None => false,
    }
}

/// Whether `p` occurs in `h` at byte position `i`.
fn bytes_match_at(h: &[u8], p: &[u8], i: usize) -> (r: bool)
    requires
        i + p@.len() <= h@.len(),
    ensures
        r == occurs_at(h@, p@, i as int),
{
    let n = h.len();
    let mut j: usize = 0;
    while j < p.len()
        invariant
            n == h@.len(),
            i + p@.len() <= h@.len(),
            j <= p@.len(),
            forall|k: int| 0 <= k < j ==> h@[i + k] == p@[k],
        decreases p@.len() - j,
    {
        if h[i + j] != p[j] {
            assert(h@.subrange(i as int, i + p@.len())[j as int] != p@[j as int]);
            return false;
        }
        j = j + 1;
    }
    assert(h@.subrange(i as int, i + p@.len()) =~= p@);
    true
}

/// Whether the bytes `p` occur anywhere in the bytes `h`.
pub fn bytes_contain(h: &[u8], p: &[u8]) -> (r: bool)
    ensures
        r == has_infix(h@, p@),
{
    if p.len() > h.len() {
        assert forall|i: int| !occurs_at(h@, p@, i) by {}
        return false;
    }
    let last = h.len() - p.len();
    let mut i: usize = 0;
    loop
        invariant
            last == h@.len() - p@.len(),
            i <= last,
            forall|k: int| 0 <= k < i ==> !occurs_at(h@, p@, k),
        decreases last - i,
    {
        if bytes_match_at(h, p, i) {
            return true;
        }
        if i == last {
            assert forall|k: int| !occurs_at(h@, p@, k) by {}
            return false;
        }
        i = i + 1;
    }
}

/// `str::contains` for a string pattern.
pub fn contains_text(s: &str, p: &str) -> (r: bool)
    ensures
        r == text_contains(s@, p@),
{
    bytes_contain(s.as_bytes(), p.as_bytes())
}

/// `str::starts_with` for a string pattern.
pub fn starts_with_text(s: &str, p: &str) -> (r: bool)
    ensures
        r == text_starts_with(s@, p@),
{
    let h = s.as_bytes();
    let q = p.as_bytes();
    if q.len() > h.len() {
        return false;
    }
    bytes_match_at(h, q, 0)
}

/// Byte length of a string.
pub fn text_len(s: &str) -> (r: usize)
    ensures
        r == byte_len(s@),
{
    s.as_bytes().len()
}

/// Decimal digits of a number, most significant first, with no sign or padding.
pub open spec fn decimal(n: nat) -> Seq<char>
    decreases n,
{
    if n < 10 {
        seq![digit_char(n)]
    } else {
        decimal(n / 10).push(digit_char(n % 10))
    }
}

pub open spec fn digit_char(d: nat) -> char {
    if d == 0 { '0' }
    else if d == 1 { '1' }
    else if d == 2 { '2' }
    else if d == 3 { '3' }
    else if d == 4 { '4' }
    else if d == 5 { '5' }
    else if d == 6 { '6' }
    else if d == 7 { '7' }
    else if d == 8 { '8' }
    else { '9' }
}

fn digit_text(d: usize) -> (r: &'static str)
    requires
        d < 10,
    ensures
        r@ == seq![digit_char(d as nat)],
{
    proof {
        reveal_strlit("0");
        reveal_strlit("1");
        reveal_strlit("2");
        reveal_strlit("3");
        reveal_strlit("4");
        reveal_strlit("5");
        reveal_strlit("6");
        reveal_strlit("7");
        reveal_strlit("8");
        reveal_strlit("9");
    }
    let r = if d == 0 {
        "0"
    } else if d == 1 {
        "1"
    } else if d == 2 {
        "2"
    } else if d == 3 {
        "3"
    } else if d == 4 {
        "4"
    } else if d == 5 {
        "5"
    } else if d == 6 {
        "6"
    } else if d == 7 {
        "7"
    } else if d == 8 {
        "8"
    } else {
        "9"
    };
    assert(r@ =~= seq![digit_char(d as nat)]);
    r
}

/// A number in decimal, as `usize`'s `Display` writes it.
pub fn usize_text(n: usize) -> (r: String)
    ensures
        r@ == decimal(n as nat),
    decreases n,
{
    if n < 10 {
        String::from_str(digit_text(n))
    } else {
        let mut s = usize_text(n / 10);
        s.append(digit_text(n % 10));
        s
    }
}

/// A new string holding `a` followed by `b`.
pub fn concat2(a: &str, b: &str) -> (r: String)
    ensures
        r@ == a@ + b@,
{
    let mut s = String::from_str(a);
    s.append(b);
    s
}

/// A new string holding `a`, `b` and `c` in turn.
pub fn concat3(a: &str, b: &str, c: &str) -> (r: String)
    ensures
        r@ == a@ + b@ + c@,
{
    let mut s = String::from_str(a);
    s.append(b);
    s.append(c);
    s
}

/// The strings of `parts` with `sep` between each two of them.
pub open spec fn joined(parts: Seq<Seq<char>>, sep: Seq<char>) -> Seq<char>
    decreases parts.len(),
{
    if parts.len() == 0 {
        Seq::empty()
    } else if parts.len() == 1 {
        parts[0]
    } else {
        joined(parts.drop_last(), sep) + sep + parts.last()
    }
}

pub fn join_texts(parts: &Vec<&str>, sep: &str) -> (r: String)
    ensures
        r@ == joined(parts@.map_values(|p: &str| p@), sep@),
{
    let ghost ps = parts@.map_values(|p: &str| p@);
    let mut s = String::new();
    let mut i: usize = 0;
    while i < parts.len()
        invariant
            ps == parts@.map_values(|p: &str| p@),
            i <= parts@.len(),
            s@ == joined(ps.subrange(0, i as int), sep@),
        decreases parts@.len() - i,
    {
        if i > 0 {
            s.append(sep);
        }
        s.append(parts[i]);
        proof {
            let pre = ps.subrange(0, i as int + 1);
            assert(pre.drop_last() =~= ps.subrange(0, i as int));
            if i == 0 {
                assert(s@ =~= pre[0]);
            }
        }
        i = i + 1;
    }
    assert(ps.subrange(0, parts@.len() as int) =~= ps);
    s
}

/// The text of an optional string, empty when it is absent.
pub open spec fn or_empty(o: Option<Seq<char>>) -> Seq<char> {
    match o {
        Some(s) => s,
        None => Seq::empty(),
    }
}

pub fn shown(o: &Option<String>) -> (r: &str)
    ensures
        r@ == or_empty(crate::models::opt_text(*o)),
{
    match o {
        Some(s) => s.as_str(),
        None => {
            proof {
                reveal_strlit("");
            }
            assert(""@ =~= Seq::<char>::empty());
            ""
        },
    }
}

} // verus!
