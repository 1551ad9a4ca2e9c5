//! Checks on caller-supplied text before it becomes an engine-native string.

use vstd::prelude::*;
use vstd::string::*;

verus! {

/// Whether a byte sequence holds a zero byte.
///
/// The engine takes zero-terminated strings, so text with a zero byte inside
/// cannot be handed over.
pub open spec fn has_nul(bytes: Seq<u8>) -> bool {
    exists|i: int| 0 <= i < bytes.len() && bytes[i] == 0u8
}

/// Tells whether `text` holds an embedded zero byte.
pub fn contains_nul(text: &str) -> (found: bool)
    ensures
        found == has_nul(text.spec_bytes()),
{
    let bytes = text.as_bytes();
    let mut i: usize = 0;
    while i < bytes.len()
        invariant
            0 <= i <= bytes@.len(),
            bytes@ == text.spec_bytes(),
            forall|j: int| 0 <= j < i ==> bytes@[j] != 0u8,
        decreases bytes@.len() - i,
    {
        if bytes[i] == 0u8 {
            return true;
        }
        i += 1;
    }
    false
}

} // verus!
