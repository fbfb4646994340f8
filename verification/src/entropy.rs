//! Random payloads for the Echo self-test.

use vstd::prelude::*;

verus! {

/// Asks the random source of the operating system for seven bytes, with
/// `try_fill_bytes` of `rand::rngs::OsRng`.  That call reports a source that
/// cannot deliver as an error, which comes back as `None` here.  Nothing is
/// claimed of the bytes.
#[verifier::external_body]
pub(crate) fn draw_payload() -> (drawn: Option<[u8; 7]>) {
    let mut bytes = [0u8; 7];
    match rand::RngCore::try_fill_bytes(&mut rand::rngs::OsRng, &mut bytes) {
        Ok(()) => Some(bytes),
        Err(_) => None,
    }
}

} // verus!
