//! Device tracking for a VR runtime: which device slots come and go between
//! pose snapshots, how a device's render model resolves from its parts, and
//! how render targets map to eyes. Every decision here takes plain values
//! that the caller reads from the runtime.

use vstd::prelude::*;

pub mod model;
pub mod registry;
pub mod stereo;

verus! {

} // verus!
