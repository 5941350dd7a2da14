//! Connection descriptors for the host metadata: the same tagging as the
//! top-level connection module, kept alongside the rest of the host
//! information.

use vstd::prelude::*;

verus! {

/// Tags each reported address as a hardware address for the device
/// metadata.
pub fn get_connections(addresses: Vec<String>) -> (r: Vec<(String, String)>)
    ensures
        r@.len() == addresses@.len(),
        forall|i: int|
            0 <= i < addresses@.len() ==> (#[trigger] r@[i]).0@ == "mac"@ && r@[i].1
                == addresses@[i],
{
    crate::connections::get_connections(addresses)
}

} // verus!
