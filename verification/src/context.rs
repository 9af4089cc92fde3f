//! The foreign device context borrowed from the host.
//!
//! On every device-initialize event the shell looks the host's Vulkan
//! interop interface up in the host's capability registry (failing fatally
//! if it is absent, since nothing works without it) and queries the live
//! device context.  What reaches verified code is this immutable snapshot
//! of the handles; it is borrowed for the device session and invalidated
//! wholesale by the host's shutdown event.  The host's function-resolution
//! entry point stays in the shell: it only yields function pointers, which
//! have no place in verified code.

use vstd::prelude::*;

verus! {

/// The host's device handles, captured once per device session.
#[derive(Clone, Copy, Debug, PartialEq, Eq, Structural)]
pub struct ForeignDeviceContext {
    pub instance: u64,
    pub physical_device: u64,
    pub device: u64,
    pub graphics_queue: u64,
    pub queue_family_index: u32,
}

} // verus!
