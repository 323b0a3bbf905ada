//! The grammar of decimal floating-point literals, as std documents it for
//! parsing a float from text:
//!
//! ```text
//! Float  ::= Sign? ( 'inf' | 'infinity' | 'nan' | Number )
//! Number ::= ( Digit+ | Digit+ '.' Digit* | Digit* '.' Digit+ ) Exp?
//! Exp    ::= 'e' Sign? Digit+
//! Sign   ::= [+-]
//! Digit  ::= [0-9]
//! ```
//!
//! Letters match in either case.

use vstd::prelude::*;

use crate::text::{ascii, ascii_bytes, bytes_equal, find_byte, index_of, lemma_index_of};

verus! {

pub open spec fn is_digit(b: u8) -> bool {
    48 <= b <= 57
}

pub open spec fn is_sign(b: u8) -> bool {
    b == 43 || b == 45
}

pub open spec fn all_digits(s: Seq<u8>) -> bool {
    forall|i: int| 0 <= i < s.len() ==> is_digit(#[trigger] s[i])
}

/// `s` without one leading sign.
pub open spec fn unsigned(s: Seq<u8>) -> Seq<u8> {
    if s.len() > 0 && is_sign(s[0]) {
        s.drop_first()
    } else {
        s
    }
}

pub open spec fn to_lower(b: u8) -> u8 {
    if 65 <= b <= 90 {
        (b + 32) as u8
    } else {
        b
    }
}

pub open spec fn lowered(s: Seq<u8>) -> Seq<u8> {
    s.map_values(|b: u8| to_lower(b))
}

/// Digits with at most one point, and a digit on at least one side of it.
pub open spec fn mantissa(m: Seq<u8>) -> bool {
    let d = index_of(m, 46);
    if d >= m.len() {
        m.len() > 0 && all_digits(m)
    } else {
        all_digits(m.subrange(0, d as int)) && all_digits(m.subrange(d as int + 1, m.len() as int)) && (d
            > 0 || d + 1 < m.len())
    }
}

pub open spec fn exponent(x: Seq<u8>) -> bool {
    unsigned(x).len() > 0 && all_digits(unsigned(x))
}

/// Index of the first `e` or `E`, or the length where there is none.
pub open spec fn exponent_index(s: Seq<u8>) -> nat {
    index_of(lowered(s), 101)
}

pub open spec fn number(s: Seq<u8>) -> bool {
    let e = exponent_index(s);
    if e >= s.len() {
        mantissa(s)
    } else {
        mantissa(s.subrange(0, e as int)) && exponent(s.subrange(e as int + 1, s.len() as int))
    }
}

/// The texts that parse as a float.
pub open spec fn float_literal(s: Seq<u8>) -> bool {
    let t = unsigned(s);
    let l = lowered(t);
    l == ascii("inf"@) || l == ascii("infinity"@) || l == ascii("nan"@) || number(t)
}

fn digits_between(s: &[u8], lo: usize, hi: usize) -> (r: bool)
    requires
        lo <= hi <= s@.len(),
    ensures
        r == all_digits(s@.subrange(lo as int, hi as int)),
{
    let mut i: usize = lo;
    while i < hi
        invariant
            lo <= i <= hi <= s@.len(),
            forall|j: int| lo <= j < i ==> is_digit(#[trigger] s@[j]),
        decreases hi - i,
    {
        if !(48 <= s[i] && s[i] <= 57) {
            assert(s@.subrange(lo as int, hi as int)[i - lo] == s@[i as int]);
            return false;
        }
        i = i + 1;
    }
    assert forall|j: int| 0 <= j < hi - lo implies is_digit(
        #[trigger] s@.subrange(lo as int, hi as int)[j],
    ) by {
        assert(s@.subrange(lo as int, hi as int)[j] == s@[lo + j]);
    }
    true
}

fn lower_copy(s: &[u8]) -> (r: Vec<u8>)
    ensures
        r@ == lowered(s@),
{
    let mut out: Vec<u8> = Vec::new();
    let mut i: usize = 0;
    while i < s.len()
        invariant
            i <= s@.len(),
            out@ =~= lowered(s@.subrange(0, i as int)),
        decreases s@.len() - i,
    {
        let b = s[i];
        if 65 <= b && b <= 90 {
            out.push(b + 32);
        } else {
            out.push(b);
        }
        assert(lowered(s@.subrange(0, i + 1)) =~= lowered(s@.subrange(0, i as int)).push(
            to_lower(b),
        ));
        i = i + 1;
    }
    assert(s@.subrange(0, s@.len() as int) =~= s@);
    out
}

fn mantissa_ok(s: &[u8], lo: usize, hi: usize) -> (r: bool)
    requires
        lo <= hi <= s@.len(),
    ensures
        r == mantissa(s@.subrange(lo as int, hi as int)),
{
    let ghost m = s@.subrange(lo as int, hi as int);
    let part = vstd::slice::slice_to_vec(&s[lo..hi]);
    assert(part@ == m);
    let d = find_byte(part.as_slice(), 46, 0);
    assert(part@.subrange(0, part@.len() as int) =~= m);
    if d == part.len() {
        part.len() > 0 && digits_between(part.as_slice(), 0, part.len())
    } else {
        assert(m.subrange(0, d as int) =~= part@.subrange(0, d as int));
        let before = digits_between(part.as_slice(), 0, d);
        let after = digits_between(part.as_slice(), d + 1, part.len());
        before && after && (d > 0 || d + 1 < part.len())
    }
}

fn exponent_ok(s: &[u8], lo: usize) -> (r: bool)
    requires
        lo <= s@.len(),
    ensures
        r == exponent(s@.subrange(lo as int, s@.len() as int)),
{
    let ghost x = s@.subrange(lo as int, s@.len() as int);
    let start = if lo < s.len() && (s[lo] == 43 || s[lo] == 45) {
        lo + 1
    } else {
        lo
    };
    assert(unsigned(x) =~= s@.subrange(start as int, s@.len() as int));
    start < s.len() && digits_between(s, start, s.len())
}

/// Whether the text parses as a float.
pub fn is_float_literal(s: &[u8]) -> (r: bool)
    ensures
        r == float_literal(s@),
{
    let start = if s.len() > 0 && (s[0] == 43 || s[0] == 45) {
        1
    } else {
        0
    };
    let t = vstd::slice::slice_to_vec(&s[start..s.len()]);
    assert(t@ =~= unsigned(s@));
    let l = lower_copy(t.as_slice());
    proof {
        reveal_strlit("inf");
        reveal_strlit("infinity");
        reveal_strlit("nan");
    }
    if bytes_equal(l.as_slice(), ascii_bytes("inf")) || bytes_equal(
        l.as_slice(),
        ascii_bytes("infinity"),
    ) || bytes_equal(l.as_slice(), ascii_bytes("nan")) {
        return true;
    }
    let e = find_byte(l.as_slice(), 101, 0);
    assert(l@.subrange(0, l@.len() as int) =~= l@);
    proof {
        lemma_index_of(l@, 101);
    }
    assert(l@.len() == t@.len());
    assert(t@.subrange(0, t@.len() as int) =~= t@);
    if e == t.len() {
        mantissa_ok(t.as_slice(), 0, t.len())
    } else {
        mantissa_ok(t.as_slice(), 0, e) && exponent_ok(t.as_slice(), e + 1)
    }
}

} // verus!
