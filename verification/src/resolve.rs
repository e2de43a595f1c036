//! The public entry point: from a raw charset label to a decoder identifier.

use vstd::prelude::*;

use crate::decoder::Decoder;
use crate::normalize::canonical_key;
use crate::normalize::norm_byte;
use crate::normalize::normalize_byte;
use crate::normalize::KEY_CAPACITY;
use crate::table::find;
use crate::table::lookup;
use vstd::slice::slice_subrange;

verus! {

/// What resolving a raw label means: a label longer than the longest alias
/// names no alias and resolves to nothing; any other label is normalized to
/// its canonical key, and that key is looked up in the alias table.
pub open spec fn resolve(label: Seq<u8>) -> Option<Decoder> {
    if label.len() > KEY_CAPACITY {
        None
    } else {
        lookup(canonical_key(label))
    }
}

/// Resolves a raw charset label to the identifier of its decoding routine.
///
/// The label may be any byte sequence of any length: mixed case and `-` in
/// place of `_` are accepted; the empty label, any label longer than the
/// longest alias, and anything that names no alias after normalization
/// yield `None`. The key is built in a fixed-size buffer on the stack; the
/// function allocates nothing and never fails.
pub fn charset_decoder(charset: &[u8]) -> (r: Option<Decoder>)
    ensures
        r == resolve(charset@),
{
    if charset.len() > KEY_CAPACITY {
        return None;
    }
    if charset.len() == 0 {
        let empty_key: [u8; 1] = [0; 1];
        proof {
            assert(empty_key@ =~= canonical_key(charset@));
        }
        return find(empty_key.as_slice());
    }
    let mut buf: [u8; KEY_CAPACITY] = [0; KEY_CAPACITY];
    let mut i: usize = 0;
    while i < charset.len()
        invariant
            charset@.len() <= KEY_CAPACITY,
            i <= charset@.len(),
            forall|j: int| 0 <= j < i ==> buf@[j] == norm_byte(charset@[j]),
        decreases charset@.len() - i,
    {
        buf[i] = normalize_byte(charset[i]);
        i = i + 1;
    }
    let key = slice_subrange(buf.as_slice(), 0, charset.len());
    proof {
        assert(key@ =~= canonical_key(charset@));
    }
    find(key)
}

} // verus!
