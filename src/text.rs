//! Comparison of names without regard to ASCII case: `A`..`Z` match
//! `a`..`z`, every other byte matches only itself.
use vstd::prelude::*;
use vstd::utf8::encode_utf8;

verus! {

/// A byte with `A`..`Z` mapped to `a`..`z`.
pub open spec fn ascii_lower(b: u8) -> u8 {
    if 65 <= b && b <= 90 {
        (b + 32) as u8
    } else {
        b
    }
}

/// Two byte strings are equal once ASCII letters are lowered.
pub open spec fn bytes_match_ignoring_case(a: Seq<u8>, b: Seq<u8>) -> bool {
    a.len() == b.len() && forall|i: int| 0 <= i < a.len() ==> ascii_lower(#[trigger] a[i]) == ascii_lower(b[i])
}

/// Two texts are equal once ASCII letters are lowered, byte for byte in UTF-8.
pub open spec fn matches_ignoring_case(a: Seq<char>, b: Seq<char>) -> bool {
    bytes_match_ignoring_case(encode_utf8(a), encode_utf8(b))
}

/// Some entry of `list` matches `x` without regard to ASCII case.
pub open spec fn listed_ignoring_case(list: Seq<String>, x: Seq<char>) -> bool {
    exists|i: int| 0 <= i < list.len() && matches_ignoring_case(#[trigger] list[i]@, x)
}

fn lower_byte(b: u8) -> (r: u8)
    ensures
        r == ascii_lower(b),
{
    if 65 <= b && b <= 90 {
        b + 32
    } else {
        b
    }
}

/// Whether `a` and `b` are equal once ASCII letters are lowered.
pub fn same_ignoring_case(a: &str, b: &str) -> (r: bool)
    ensures
        r == matches_ignoring_case(a@, b@),
{
    let x = a.as_bytes();
    let y = b.as_bytes();
    if x.len() != y.len() {
        return false;
    }
    let mut i: usize = 0;
    while i < x.len()
        invariant
            x@ == encode_utf8(a@),
            y@ == encode_utf8(b@),
            x@.len() == y@.len(),
            i <= x@.len(),
            forall|j: int| 0 <= j < i ==> ascii_lower(#[trigger] x@[j]) == ascii_lower(y@[j]),
        decreases x@.len() - i,
    {
        if lower_byte(x[i]) != lower_byte(y[i]) {
            return false;
        }
        i = i + 1;
    }
    true
}

/// Whether some entry of `list` equals `x` once ASCII letters are lowered.
pub fn contains_ignoring_case(list: &Vec<String>, x: &str) -> (r: bool)
    ensures
        r == listed_ignoring_case(list@, x@),
{
    let mut i: usize = 0;
    while i < list.len()
        invariant
            i <= list@.len(),
            forall|j: int| 0 <= j < i ==> !matches_ignoring_case(#[trigger] list@[j]@, x@),
        decreases list@.len() - i,
    {
        if same_ignoring_case(list[i].as_str(), x) {
            return true;
        }
        i = i + 1;
    }
    false
}

} // verus!
