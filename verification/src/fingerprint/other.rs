//! Platforms without a component set: no components, so a handshake refuses
//! rather than sending a weak identity.

use vstd::prelude::*;

verus! {

/// The components of an unsupported platform: none.
pub fn collect() -> (out: Vec<String>)
    ensures
        out@.len() == 0,
{
    Vec::new()
}

} // verus!
