//! The frame-pacing and resource-lifetime core of a Vulkan renderer backend.
//!
//! - [`frame`]: the ring of in-flight frame slots, fence waits and deferred
//!   destruction, as a state machine with its laws.
//! - [`features`]: all-or-nothing negotiation of device extension bundles.
//! - [`device`]: queue selection, device planning, and the device state.
//! - [`sampler`]: the immutable sampler cache.
//! - [`instance`]: instance extensions and layers.
//! - [`input`]: keyboard state.
use vstd::prelude::*;

pub mod device;
pub mod features;
pub mod frame;
pub mod input;
pub mod instance;
pub mod sampler;

verus! {

/// Number of descriptors kept back from the device's per-stage sampled-image limit.
pub const RESERVED_DESCRIPTOR_COUNT: u32 = 32;

} // verus!
