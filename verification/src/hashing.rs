//! Hashing of ids: a typed id hashes as its raw id does, so that it can key a
//! map or a set exactly as the raw id would.

use crate::id::TypedId;
use std::hash::{Hash, Hasher};
use vstd::prelude::*;

verus! {

/// Calls `Hash::hash` of `raw` on `state`. Nothing is claimed of the hasher
/// afterwards: what it has been fed is not visible to the verifier.
#[verifier::external_body]
fn feed<I: Hash, H: Hasher>(raw: &I, state: &mut H) {
    raw.hash(state)
}

impl<I: Hash, T> Hash for TypedId<I, T> {
    /// Feeds the raw id, and nothing else, to the hasher.
    fn hash<H: Hasher>(&self, state: &mut H) {
        feed(&self.0, state)
    }
}

} // verus!
