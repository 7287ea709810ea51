//! Validation of byte payloads destined for C string conversion.
//!
//! The toolkit's attribute interface takes NUL-terminated C strings, so a
//! payload may not contain an interior NUL byte. This module states that
//! condition and checks it.

use vstd::prelude::*;

verus! {

/// A byte sequence that can become the payload of a C string: it holds
/// no NUL byte.
pub open spec fn nul_free(s: Seq<u8>) -> bool {
    forall|i: int| 0 <= i < s.len() ==> s[i] != 0
}

/// Decides whether `bytes` is free of NUL bytes, i.e. whether it can be
/// handed to the foreign interface as a C string payload.
pub fn check_nul_free(bytes: &Vec<u8>) -> (r: bool)
    ensures
        r == nul_free(bytes@),
{
    let mut i: usize = 0;
    while i < bytes.len()
        invariant
            0 <= i <= bytes@.len(),
            forall|j: int| 0 <= j < i ==> bytes@[j] != 0,
        decreases bytes@.len() - i,
    {
        if bytes[i] == 0 {
            return false;
        }
        i = i + 1;
    }
    true
}

} // verus!
