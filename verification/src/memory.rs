//! The byte-addressable store.
//!
//! Memory is a fixed-length, zero-initialized sequence of bytes; it is
//! allocated once and afterwards only mutated in place through the engine's
//! bounds-checked operations.

use vstd::prelude::*;

verus! {

/// Allocates `size` bytes, all zero.
pub fn create_memory(size: u16) -> (r: Vec<u8>)
    ensures
        r@.len() == size,
        forall|i: int| 0 <= i < size ==> r@[i] == 0u8,
{
    let mut v: Vec<u8> = Vec::new();
    let mut i: usize = 0;
    while i < size as usize
        invariant
            i <= size,
            v@.len() == i,
            forall|j: int| 0 <= j < i ==> v@[j] == 0u8,
        decreases size as usize - i,
    {
        v.push(0u8);
        i = i + 1;
    }
    v
}

} // verus!
