//! Plain-value mirror of the slice of the Vulkan ABI this plugin speaks.
//!
//! The GPU side of the plugin is reached only through function pointers
//! resolved at runtime, so no binding crate is called from verified code.
//! What the contracts need from Vulkan is just its numbering: format,
//! layout, stage, access and mode values, and a few small structs carried
//! around as plain data.  Handles (images, semaphores, fences, surfaces,
//! swapchains, queues) are opaque 64-bit values owned by the unverified
//! shell; this crate never dereferences one.

use vstd::prelude::*;

verus! {

// Pixel formats (8-bit RGBA/BGRA with sRGB encoding).
pub const FORMAT_R8G8B8A8_SRGB: u32 = 43;
pub const FORMAT_B8G8R8A8_SRGB: u32 = 50;

// Present modes.
pub const PRESENT_MODE_MAILBOX: u32 = 1;
pub const PRESENT_MODE_FIFO: u32 = 2;

// Composite-alpha bits of the surface capabilities.
pub const COMPOSITE_ALPHA_OPAQUE: u32 = 0x1;
pub const COMPOSITE_ALPHA_INHERIT: u32 = 0x8;

// Image usage bits.
pub const IMAGE_USAGE_TRANSFER_DST: u32 = 0x2;

// Sharing modes.
pub const SHARING_MODE_EXCLUSIVE: u32 = 0;

// Surface transform bits.
pub const SURFACE_TRANSFORM_IDENTITY: u32 = 0x1;

// Image layouts.
pub const IMAGE_LAYOUT_TRANSFER_SRC_OPTIMAL: u32 = 6;
pub const IMAGE_LAYOUT_TRANSFER_DST_OPTIMAL: u32 = 7;
pub const IMAGE_LAYOUT_PRESENT_SRC: u32 = 1000001002;

// Access mask bits.
pub const ACCESS_TRANSFER_READ: u32 = 0x0800;
pub const ACCESS_TRANSFER_WRITE: u32 = 0x1000;
pub const ACCESS_MEMORY_READ: u32 = 0x8000;

// Pipeline stage bits.
pub const PIPELINE_STAGE_TOP_OF_PIPE: u32 = 0x1;
pub const PIPELINE_STAGE_TRANSFER: u32 = 0x1000;
pub const PIPELINE_STAGE_BOTTOM_OF_PIPE: u32 = 0x2000;

// Image aspect bits.
pub const IMAGE_ASPECT_COLOR: u32 = 0x1;

// Blit filters.
pub const FILTER_LINEAR: u32 = 1;

// Command-pool reset flags.
pub const COMMAND_POOL_RESET_RELEASE_RESOURCES: u32 = 0x1;

// Queue-family sentinel for barriers that transfer no ownership.
pub const QUEUE_FAMILY_IGNORED: u32 = 0xffff_ffff;

/// Sentinel extent component: the device asks that the window be measured
/// instead of trusting the reported current extent.
pub const EXTENT_SENTINEL: u32 = 0xffff_ffff;

/// A two-dimensional size in pixels.
#[derive(Clone, Copy, Debug, PartialEq, Eq, Structural)]
pub struct Extent2D {
    pub width: u32,
    pub height: u32,
}

/// A surface pixel format paired with its color space, as the device
/// enumerates them.
#[derive(Clone, Copy, Debug, PartialEq, Eq, Structural)]
pub struct SurfaceFormat {
    pub format: u32,
    pub color_space: u32,
}

/// The slice of the device-reported surface capabilities that swapchain
/// planning reads.
#[derive(Clone, Copy, Debug, PartialEq, Eq, Structural)]
pub struct SurfaceCapabilities {
    pub min_image_count: u32,
    pub max_image_count: u32,
    pub current_extent: Extent2D,
    pub supported_composite_alpha: u32,
}

} // verus!
