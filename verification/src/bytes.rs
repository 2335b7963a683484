//! Byte strings: the one comparison every reader of stored bytes needs.

use vstd::prelude::*;

verus! {

/// Tells whether `bytes` begins with `tag`.
pub open spec fn begins_with(bytes: Seq<u8>, tag: Seq<u8>) -> bool {
    tag.len() <= bytes.len() && bytes.subrange(0, tag.len() as int) == tag
}

/// Tells whether `bytes` begins with `tag`.
pub fn starts_with(bytes: &[u8], tag: &[u8]) -> (starts: bool)
    ensures
        starts == begins_with(bytes@, tag@),
{
    let length: usize = tag.len();
    if bytes.len() < length {
        return false;
    }
    let mut i: usize = 0;
    while i < length
        invariant
            i <= length,
            length == tag@.len(),
            length <= bytes@.len(),
            forall|k: int| 0 <= k < i ==> bytes@[k] == tag@[k],
        decreases length - i,
    {
        if bytes[i] != tag[i] {
            assert(bytes@.subrange(0, length as int)[i as int] != tag@[i as int]);
            return false;
        }
        i += 1;
    }
    assert(bytes@.subrange(0, length as int) =~= tag@);
    true
}

} // verus!
