//! Option names.
//!
//! A *plain* key is a non-empty run of ASCII letters, digits, `_` and `-`.
//! Such a key always names one top-level entry of the settings table; any
//! other text is refused as a key.

use vstd::prelude::*;
use vstd::string::StrSliceExecFns;

verus! {

/// Whether `c` may occur in a plain key.
pub open spec fn is_plain_char(c: char) -> bool {
    ('a' <= c && c <= 'z') || ('A' <= c && c <= 'Z') || ('0' <= c && c <= '9') || c == '_'
        || c == '-'
}

/// Whether `key` is a plain key.
pub open spec fn is_plain_key(key: Seq<char>) -> bool {
    key.len() > 0 && forall|i: int| 0 <= i < key.len() ==> is_plain_char(#[trigger] key[i])
}

/// Whether every key of `keys` is plain.
pub open spec fn all_plain(keys: Set<Seq<char>>) -> bool {
    forall|k: Seq<char>| keys.contains(k) ==> is_plain_key(k)
}

/// Decides [`is_plain_char`].
pub fn plain_char(c: char) -> (r: bool)
    ensures
        r == is_plain_char(c),
{
    ('a' <= c && c <= 'z') || ('A' <= c && c <= 'Z') || ('0' <= c && c <= '9') || c == '_'
        || c == '-'
}

/// Decides [`is_plain_key`].
pub fn plain_key(key: &str) -> (r: bool)
    ensures
        r == is_plain_key(key@),
{
    let n: usize = key.unicode_len();
    if n == 0 {
        return false;
    }
    let mut i: usize = 0;
    while i < n
        invariant
            n == key@.len(),
            i <= n,
            forall|j: int| 0 <= j < i ==> is_plain_char(#[trigger] key@[j]),
        decreases n - i,
    {
        if !plain_char(key.get_char(i)) {
            return false;
        }
        i += 1;
    }
    true
}

} // verus!
