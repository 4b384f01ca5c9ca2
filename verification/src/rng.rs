//! The process-wide cryptographic random source, an opaque collaborator.
//! Nothing is promised of the values it produces, only of their shape.

use vstd::prelude::*;

verus! {

/// Relies on getrandom::fill: overwrites the buffer in place with bytes from
/// the operating system's preferred random source, leaving its length
/// unchanged. A failure of the source is a resource-acquisition failure,
/// which this library treats as fatal: the process aborts rather than hand
/// out a container whose initialization it could not guarantee.
#[verifier::external_body]
pub(crate) fn fill_random(buf: &mut Vec<u8>)
    ensures
        final(buf)@.len() == old(buf)@.len(),
{
    getrandom::fill(buf.as_mut_slice()).expect("random source unavailable");
}

/// Relies on getrandom::u64: one word from the operating system's preferred
/// random source; nothing can be promised of its value. A failure of the
/// source is fatal, as in `fill_random`.
#[verifier::external_body]
pub(crate) fn random_u64() -> u64 {
    getrandom::u64().expect("random source unavailable")
}

} // verus!
