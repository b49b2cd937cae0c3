//! Small verified operations on strings that the rest of the crate shares.

use vstd::prelude::*;
use vstd::string::*;

verus! {

/// `c` with an ASCII capital replaced by its small letter.
pub open spec fn lower(c: char) -> char {
    if 'A' <= c && c <= 'Z' {
        ((c as u8 + 32) as u8) as char
    } else {
        c
    }
}

/// Whether `a` and `b` are the same text once ASCII capitals are made small.
pub open spec fn same_ignoring_case(a: Seq<char>, b: Seq<char>) -> bool {
    &&& a.len() == b.len()
    &&& forall|i: int| 0 <= i < a.len() ==> lower(#[trigger] a[i]) == lower(b[i])
}

/// Whether `i` is the least index at which `key` stands in `keys`.
pub open spec fn is_first_at(keys: Seq<Seq<char>>, key: Seq<char>, i: int) -> bool {
    &&& 0 <= i < keys.len()
    &&& keys[i] == key
    &&& forall|j: int| 0 <= j < i ==> #[trigger] keys[j] != key
}

/// The least index at which `key` stands in `keys`, if it stands there at all.
pub open spec fn first_at(keys: Seq<Seq<char>>, key: Seq<char>) -> Option<int> {
    if exists|i: int| is_first_at(keys, key, i) {
        Some(choose|i: int| is_first_at(keys, key, i))
    } else {
        None
    }
}

/// An index that is the first occurrence is what `first_at` gives.
pub proof fn lemma_first_at_found(keys: Seq<Seq<char>>, key: Seq<char>, i: int)
    requires
        is_first_at(keys, key, i),
    ensures
        first_at(keys, key) == Some(i),
{
}

/// Where `key` stands nowhere, `first_at` gives nothing.
pub proof fn lemma_first_at_absent(keys: Seq<Seq<char>>, key: Seq<char>)
    requires
        forall|j: int| 0 <= j < keys.len() ==> #[trigger] keys[j] != key,
    ensures
        first_at(keys, key) is None,
{
}

/// An ASCII capital made small; any other character unchanged.
pub fn to_lower(c: char) -> (r: char)
    ensures
        r == lower(c),
{
    if 'A' <= c && c <= 'Z' {
        let b: u8 = c as u8;
        (b + 32) as char
    } else {
        c
    }
}

/// Compares two strings without regard to the case of ASCII letters.
pub fn eq_ignoring_case(a: &str, b: &str) -> (r: bool)
    ensures
        r == same_ignoring_case(a@, b@),
{
    let n: usize = a.unicode_len();
    if n != b.unicode_len() {
        return false;
    }
    let mut i: usize = 0;
    while i < n
        invariant
            i <= n,
            n == a@.len(),
            n == b@.len(),
            forall|k: int| 0 <= k < i ==> lower(#[trigger] a@[k]) == lower(b@[k]),
        decreases n - i,
    {
        if to_lower(a.get_char(i)) != to_lower(b.get_char(i)) {
            return false;
        }
        i += 1;
    }
    true
}

} // verus!
