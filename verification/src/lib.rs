//! Verified core of a Vulkan rendering-interception plugin.
//!
//! The plugin sits between a host engine's Vulkan backend and a separately
//! owned presentation window: each frame it blits the host's already-rendered
//! color buffer into its own swapchain and presents it there.  Everything the
//! GPU and the window system actually execute is driven through runtime
//! function pointers that a verifier cannot see, so this crate holds the part
//! that can be reasoned about: the decisions.  Surface-format, present-mode
//! and extent selection, the swapchain plan, the fence-throttled submission
//! schedule, the exact barrier/blit command sequence, and the controller's
//! lifecycle are all computed here as plain values with contracts; the
//! unverified shell merely executes the returned plans.

pub mod context;
pub mod controller;
pub mod plugin;
pub mod recorder;
pub mod sync;
pub mod target;
pub mod vk;
