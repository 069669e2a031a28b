//! Byte classes of the three component grammars, and a scan for the first
//! byte that a grammar does not allow.
use vstd::prelude::*;

verus! {

/// The grammar a component is checked against.
#[derive(Debug, Clone, Copy, PartialEq, Eq)]
pub enum Grammar {
    Scheme,
    Authority,
    PathAndQuery,
}

pub open spec fn is_alpha(c: u8) -> bool {
    (0x61 <= c <= 0x7a) || (0x41 <= c <= 0x5a)
}

pub open spec fn is_digit(c: u8) -> bool {
    0x30 <= c <= 0x39
}

/// `ALPHA / DIGIT / "-" / "." / "_" / "~"`
pub open spec fn is_unreserved(c: u8) -> bool {
    is_alpha(c) || is_digit(c) || c == 0x2d || c == 0x2e || c == 0x5f || c == 0x7e
}

/// `"!" / "$" / "&" / "'" / "(" / ")" / "*" / "+" / "," / ";" / "="`
pub open spec fn is_sub_delim(c: u8) -> bool {
    c == 0x21 || c == 0x24 || (0x26 <= c <= 0x2c) || c == 0x3b || c == 0x3d
}

/// Whether byte `c` may stand at index `i` of a component of grammar `g`.
///
/// A scheme starts with a letter, followed by letters, digits, `+`, `-` and
/// `.`. An authority holds unreserved bytes, sub-delimiters, `%`, `:`, `@`,
/// `[` and `]`. A path-and-query holds unreserved bytes, sub-delimiters, `%`,
/// `:`, `@`, `/` and `?`.
pub open spec fn byte_allowed(g: Grammar, i: int, c: u8) -> bool {
    match g {
        Grammar::Scheme => if i == 0 {
            is_alpha(c)
        } else {
            is_alpha(c) || is_digit(c) || c == 0x2b || c == 0x2d || c == 0x2e
        },
        Grammar::Authority => is_unreserved(c) || is_sub_delim(c) || c == 0x25 || c == 0x3a
            || c == 0x40 || c == 0x5b || c == 0x5d,
        Grammar::PathAndQuery => is_unreserved(c) || is_sub_delim(c) || c == 0x25 || c == 0x3a
            || c == 0x40 || c == 0x2f || c == 0x3f,
    }
}

/// Every byte of `b` before index `k` is allowed at its position.
pub open spec fn allowed_before(g: Grammar, b: Seq<u8>, k: int) -> bool {
    forall|j: int| 0 <= j < k ==> #[trigger] byte_allowed(g, j, b[j])
}

/// `k` is the index of the first byte of `b` that `g` does not allow.
pub open spec fn is_first_disallowed(g: Grammar, b: Seq<u8>, k: int) -> bool {
    &&& 0 <= k < b.len()
    &&& !byte_allowed(g, k, b[k])
    &&& allowed_before(g, b, k)
}

/// The index of the first byte of `b` that `g` does not allow, if any.
pub open spec fn first_disallowed(g: Grammar, b: Seq<u8>) -> Option<int> {
    if exists|k: int| is_first_disallowed(g, b, k) {
        Some(choose|k: int| is_first_disallowed(g, b, k))
    } else {
        None
    }
}

/// There is at most one first disallowed byte.
pub proof fn lemma_first_disallowed_unique(g: Grammar, b: Seq<u8>, k1: int, k2: int)
    requires
        is_first_disallowed(g, b, k1),
        is_first_disallowed(g, b, k2),
    ensures
        k1 == k2,
{
    if k1 < k2 {
        assert(byte_allowed(g, k1, b[k1]));
    } else if k2 < k1 {
        assert(byte_allowed(g, k2, b[k2]));
    }
}

fn is_alpha_byte(c: u8) -> (r: bool)
    ensures
        r == is_alpha(c),
{
    (0x61 <= c && c <= 0x7a) || (0x41 <= c && c <= 0x5a)
}

fn is_digit_byte(c: u8) -> (r: bool)
    ensures
        r == is_digit(c),
{
    0x30 <= c && c <= 0x39
}

fn is_unreserved_byte(c: u8) -> (r: bool)
    ensures
        r == is_unreserved(c),
{
    is_alpha_byte(c) || is_digit_byte(c) || c == 0x2d || c == 0x2e || c == 0x5f || c == 0x7e
}

fn is_sub_delim_byte(c: u8) -> (r: bool)
    ensures
        r == is_sub_delim(c),
{
    c == 0x21 || c == 0x24 || (0x26 <= c && c <= 0x2c) || c == 0x3b || c == 0x3d
}

/// Whether byte `c` may stand at index `i` of a component of grammar `g`.
pub fn allowed(g: Grammar, i: usize, c: u8) -> (r: bool)
    ensures
        r == byte_allowed(g, i as int, c),
{
    match g {
        Grammar::Scheme => if i == 0 {
            is_alpha_byte(c)
        } else {
            is_alpha_byte(c) || is_digit_byte(c) || c == 0x2b || c == 0x2d || c == 0x2e
        },
        Grammar::Authority => is_unreserved_byte(c) || is_sub_delim_byte(c) || c == 0x25 || c
            == 0x3a || c == 0x40 || c == 0x5b || c == 0x5d,
        Grammar::PathAndQuery => is_unreserved_byte(c) || is_sub_delim_byte(c) || c == 0x25 || c
            == 0x3a || c == 0x40 || c == 0x2f || c == 0x3f,
    }
}

/// Finds the first byte of `b` that grammar `g` does not allow.
pub fn first_invalid(g: Grammar, b: &[u8]) -> (r: Option<usize>)
    ensures
        match r {
            Some(k) => first_disallowed(g, b@) == Some(k as int),
            None => first_disallowed(g, b@).is_none(),
        },
{
    let mut i: usize = 0;
    while i < b.len()
        invariant
            0 <= i <= b@.len(),
            allowed_before(g, b@, i as int),
        decreases b@.len() - i,
    {
        if !allowed(g, i, b[i]) {
            proof {
                assert(is_first_disallowed(g, b@, i as int));
                let k = choose|k: int| is_first_disallowed(g, b@, k);
                lemma_first_disallowed_unique(g, b@, k, i as int);
            }
            return Some(i);
        }
        i = i + 1;
    }
    proof {
        assert forall|k: int| !is_first_disallowed(g, b@, k) by {
            if 0 <= k < b@.len() {
                assert(byte_allowed(g, k, b@[k]));
            }
        }
    }
    None
}

} // verus!
