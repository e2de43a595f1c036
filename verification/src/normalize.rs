//! Normalization of a raw charset label into its canonical comparison key.

use vstd::prelude::*;

verus! {

/// Capacity of the canonical-key buffer: the length in bytes of the longest
/// alias in the table (`extended_unix_code_packed_format_for_japanese`).
/// Labels longer than this name no alias and are rejected before lookup.
pub const KEY_CAPACITY: usize = 45;

/// Canonical form of one label byte: ASCII upper case folds to lower case,
/// `-` maps to `_`, every other byte passes through unchanged.
pub open spec fn norm_byte(b: u8) -> u8 {
    if 65 <= b && b <= 90 {  // 'A'..='Z'
        (b + 32) as u8
    } else if b == 45 {  // '-'
        95  // '_'
    } else {
        b
    }
}

/// The canonical comparison key of a label that fits the key buffer: every
/// byte in canonical form. An empty label gets the single zero byte as its
/// key, which equals no alias, so that lookup never compares an empty key.
pub open spec fn canonical_key(s: Seq<u8>) -> Seq<u8>
    recommends
        s.len() <= KEY_CAPACITY,
{
    if s.len() == 0 {
        seq![0u8]
    } else {
        Seq::new(s.len(), |i: int| norm_byte(s[i]))
    }
}

/// Canonical form of one label byte (executable form of `norm_byte`).
pub fn normalize_byte(b: u8) -> (r: u8)
    ensures
        r == norm_byte(b),
{
    if 65 <= b && b <= 90 {  // 'A'..='Z'
        b + 32
    } else if b == 45 {  // '-'
        95  // '_'
    } else {
        b
    }
}

} // verus!
