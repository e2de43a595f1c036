//! Laws of label resolution: statements that hold of every label, proved
//! against the definitions in `normalize` and `table`.

use vstd::prelude::*;

use crate::normalize::canonical_key;
use crate::normalize::norm_byte;
use crate::normalize::KEY_CAPACITY;
use crate::resolve::resolve;

verus! {

/// Whether two labels differ at most in the case of ASCII letters: equal
/// length, and at each position either the same byte or the upper- and
/// lower-case forms of one letter.
pub open spec fn case_variant_byte(x: u8, y: u8) -> bool {
    x == y || (65 <= x <= 90 && y == x + 32) || (65 <= y <= 90 && x == y + 32)
}

/// Whether two labels differ at most in writing `-` for `_`: equal length,
/// and at each position either the same byte or one hyphen against one
/// underscore.
pub open spec fn dash_variant_byte(x: u8, y: u8) -> bool {
    x == y || (x == 45 && y == 95) || (x == 95 && y == 45)
}

/// Labels whose bytes normalize alike resolve alike: resolution depends on
/// a label only through its canonical key.
pub proof fn lemma_equivalent_labels_resolve_alike(a: Seq<u8>, b: Seq<u8>)
    requires
        a.len() == b.len(),
        forall|i: int| 0 <= i < a.len() ==> norm_byte(a[i]) == norm_byte(b[i]),
    ensures
        resolve(a) == resolve(b),
{
    assert(canonical_key(a) =~= canonical_key(b));
}

/// Any case-permutation of a label resolves to the same decoder identifier
/// as the label itself; in particular every case-permutation of an alias
/// resolves as its canonical lower-case form does.
pub proof fn lemma_case_insensitive(a: Seq<u8>, b: Seq<u8>)
    requires
        a.len() == b.len(),
        forall|i: int| 0 <= i < a.len() ==> case_variant_byte(a[i], b[i]),
    ensures
        resolve(a) == resolve(b),
{
    assert forall|i: int| 0 <= i < a.len() implies norm_byte(a[i]) == norm_byte(b[i]) by {
        assert(case_variant_byte(a[i], b[i]));
    }
    lemma_equivalent_labels_resolve_alike(a, b);
}

/// Writing `-` for `_` (or `_` for `-`) anywhere in a label does not change
/// what it resolves to.
pub proof fn lemma_dash_underscore_interchangeable(a: Seq<u8>, b: Seq<u8>)
    requires
        a.len() == b.len(),
        forall|i: int| 0 <= i < a.len() ==> dash_variant_byte(a[i], b[i]),
    ensures
        resolve(a) == resolve(b),
{
    assert forall|i: int| 0 <= i < a.len() implies norm_byte(a[i]) == norm_byte(b[i]) by {
        assert(dash_variant_byte(a[i], b[i]));
    }
    lemma_equivalent_labels_resolve_alike(a, b);
}

/// The empty label resolves to nothing.
pub proof fn lemma_empty_label_not_found()
    ensures
        resolve(Seq::<u8>::empty()) is None,
{
    assert(canonical_key(Seq::<u8>::empty()).len() == 1);
}

/// A label strictly longer than the longest alias resolves to nothing: an
/// oversized label is rejected before lookup, never truncated into an
/// accidental match.
pub proof fn lemma_oversized_label_not_found(s: Seq<u8>)
    requires
        s.len() > KEY_CAPACITY,
    ensures
        resolve(s) is None,
{
}

} // verus!
