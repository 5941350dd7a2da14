//! What the agent knows about the host it runs on. Gathering it touches
//! the system and happens at the runtime's edge; the pieces the core reads
//! are plain values.

use vstd::prelude::*;

pub mod connections;
pub mod dmi;

verus! {

/// The host's identity and device metadata.
pub struct HostInformation {
    pub hostname: String,
    pub machine_id: String,
    pub manufacturer: Option<String>,
    pub model: Option<String>,
    pub connections: Vec<(String, String)>,
}

} // verus!
