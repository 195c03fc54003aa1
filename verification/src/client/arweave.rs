//! The random anchor of a data item uploaded to Arweave.
use vstd::prelude::*;
use rand::Rng;

verus! {

/// Fills 32 bytes from `rand::thread_rng()` with `Rng::fill`. Nothing is
/// claimed of the bytes: they are random.
#[verifier::external_body]
fn random_anchor_bytes() -> (anchor: [u8; 32]) {
    let mut anchor = [0u8; 32];
    rand::thread_rng().fill(&mut anchor[..]);
    anchor
}

/// A random anchor for a data item. Any 32 bytes may come out.
pub fn create_random_anchor() -> [u8; 32] {
    random_anchor_bytes()
}

} // verus!
