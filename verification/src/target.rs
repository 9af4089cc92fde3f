//! Presentation-target planning: the decisions inside swapchain creation.
//!
//! Creating the plugin's own presentation target means choosing, from what
//! the device reports about the window surface, a pixel format, a present
//! mode, a composite-alpha mode, an extent and an image count, and then
//! assembling the swapchain creation parameters.  Those choices are pure
//! functions of the device report and are made here; the unverified shell
//! queries the device, hands the answers over as a [`SurfaceProbe`], and
//! executes the returned [`SwapchainConfig`] verbatim.

use vstd::prelude::*;

use crate::sync::RenderControl;
use crate::sync::SyncAction;
use crate::sync::spec_submit_schedule;
use crate::sync::spec_submit_state;
use crate::vk::Extent2D;
use crate::vk::SurfaceCapabilities;
use crate::vk::SurfaceFormat;
use crate::vk::COMPOSITE_ALPHA_INHERIT;
use crate::vk::COMPOSITE_ALPHA_OPAQUE;
use crate::vk::EXTENT_SENTINEL;
use crate::vk::FORMAT_B8G8R8A8_SRGB;
use crate::vk::FORMAT_R8G8B8A8_SRGB;
use crate::vk::IMAGE_USAGE_TRANSFER_DST;
use crate::vk::PRESENT_MODE_FIFO;
use crate::vk::PRESENT_MODE_MAILBOX;
use crate::vk::SHARING_MODE_EXCLUSIVE;
use crate::vk::SURFACE_TRANSFORM_IDENTITY;

verus! {

/// A format is acceptable when it is 8-bit-per-channel RGBA or BGRA with
/// sRGB encoding.
pub open spec fn is_preferred_format(f: SurfaceFormat) -> bool {
    f.format == FORMAT_R8G8B8A8_SRGB || f.format == FORMAT_B8G8R8A8_SRGB
}

/// The first acceptable format in the device-reported order, if any.
pub open spec fn spec_select_format(s: Seq<SurfaceFormat>) -> Option<SurfaceFormat>
    decreases s.len(),
{
    if s.len() == 0 {
        None
    } else if is_preferred_format(s[0]) {
        Some(s[0])
    } else {
        spec_select_format(s.drop_first())
    }
}

/// Picks the first sRGB RGBA/BGRA format the device offers; `None` when the
/// device offers neither, which aborts target creation.
pub fn select_format(formats: &Vec<SurfaceFormat>) -> (r: Option<SurfaceFormat>)
    ensures
        r == spec_select_format(formats@),
{
    let n = formats.len();
    let mut i: usize = 0;
    assert(formats@.skip(0) =~= formats@);
    while i < n
        invariant
            n == formats@.len(),
            i <= n,
            spec_select_format(formats@) == spec_select_format(formats@.skip(i as int)),
        decreases n - i,
    {
        let f = formats[i];
        if f.format == FORMAT_R8G8B8A8_SRGB || f.format == FORMAT_B8G8R8A8_SRGB {
            return Some(f);
        }
        assert(formats@.skip(i as int).drop_first() =~= formats@.skip(i + 1));
        i += 1;
    }
    None
}

/// Strict FIFO (vsync) when available, else the low-latency mailbox mode,
/// else whatever the device lists first: present mode is a quality knob,
/// never a reason to fail.
pub open spec fn spec_select_present_mode(modes: Seq<u32>) -> u32 {
    if modes.contains(PRESENT_MODE_FIFO) {
        PRESENT_MODE_FIFO
    } else if modes.contains(PRESENT_MODE_MAILBOX) {
        PRESENT_MODE_MAILBOX
    } else {
        modes[0]
    }
}

/// Picks the present mode from the device-reported list.
pub fn select_present_mode(modes: &Vec<u32>) -> (r: u32)
    requires
        modes@.len() > 0,
    ensures
        r == spec_select_present_mode(modes@),
{
    let n = modes.len();
    let mut has_fifo = false;
    let mut has_mailbox = false;
    let mut i: usize = 0;
    while i < n
        invariant
            n == modes@.len(),
            i <= n,
            has_fifo == exists|j: int| 0 <= j < i && modes@[j] == PRESENT_MODE_FIFO,
            has_mailbox == exists|j: int| 0 <= j < i && modes@[j] == PRESENT_MODE_MAILBOX,
        decreases n - i,
    {
        let m = modes[i];
        if m == PRESENT_MODE_FIFO {
            has_fifo = true;
        }
        if m == PRESENT_MODE_MAILBOX {
            has_mailbox = true;
        }
        i += 1;
    }
    if has_fifo {
        PRESENT_MODE_FIFO
    } else if has_mailbox {
        PRESENT_MODE_MAILBOX
    } else {
        modes[0]
    }
}

/// Inherited alpha blending from the window system when the surface supports
/// it, else fully opaque composition.
pub open spec fn spec_select_composite_alpha(supported: u32) -> u32 {
    if supported & COMPOSITE_ALPHA_INHERIT != 0 {
        COMPOSITE_ALPHA_INHERIT
    } else {
        COMPOSITE_ALPHA_OPAQUE
    }
}

/// Picks the composite-alpha mode from the capability bits.
pub fn select_composite_alpha(supported: u32) -> (r: u32)
    ensures
        r == spec_select_composite_alpha(supported),
{
    if supported & COMPOSITE_ALPHA_INHERIT != 0 {
        COMPOSITE_ALPHA_INHERIT
    } else {
        COMPOSITE_ALPHA_OPAQUE
    }
}

/// The device-reported current extent, except that an all-ones component is
/// the device's way of saying "measure the window": such a component is
/// replaced by the window's client-area size.
pub open spec fn spec_resolve_extent(current: Extent2D, window: Extent2D) -> Extent2D {
    Extent2D {
        width: if current.width == EXTENT_SENTINEL {
            window.width
        } else {
            current.width
        },
        height: if current.height == EXTENT_SENTINEL {
            window.height
        } else {
            current.height
        },
    }
}

/// Resolves the swapchain extent from the device report and the window size.
pub fn resolve_extent(current: Extent2D, window: Extent2D) -> (r: Extent2D)
    ensures
        r == spec_resolve_extent(current, window),
{
    Extent2D {
        width: if current.width == EXTENT_SENTINEL {
            window.width
        } else {
            current.width
        },
        height: if current.height == EXTENT_SENTINEL {
            window.height
        } else {
            current.height
        },
    }
}

/// At least double-buffering is always requested: the device minimum raised
/// to two, clamped to the device maximum.
pub open spec fn spec_image_count(caps: SurfaceCapabilities) -> u32 {
    let wanted: u32 = if caps.min_image_count >= 2 {
        caps.min_image_count
    } else {
        2
    };
    if wanted <= caps.max_image_count {
        wanted
    } else {
        caps.max_image_count
    }
}

/// Chooses the number of back-buffer images to request.
pub fn image_count(caps: &SurfaceCapabilities) -> (r: u32)
    ensures
        r == spec_image_count(*caps),
{
    let wanted: u32 = if caps.min_image_count >= 2 {
        caps.min_image_count
    } else {
        2
    };
    if wanted <= caps.max_image_count {
        wanted
    } else {
        caps.max_image_count
    }
}

/// Everything swapchain planning reads from the device and the window, as
/// the unverified shell gathered it: the two capability checks, the format
/// and present-mode enumerations, the surface capabilities and the window's
/// client-area size.
#[derive(Debug)]
pub struct SurfaceProbe {
    pub presentation_supported: bool,
    pub surface_supported: bool,
    pub formats: Vec<SurfaceFormat>,
    pub present_modes: Vec<u32>,
    pub capabilities: SurfaceCapabilities,
    pub window_client_extent: Extent2D,
}

/// Mathematical image of a [`SurfaceProbe`].
pub struct SurfaceProbeV {
    pub presentation_supported: bool,
    pub surface_supported: bool,
    pub formats: Seq<SurfaceFormat>,
    pub present_modes: Seq<u32>,
    pub capabilities: SurfaceCapabilities,
    pub window_client_extent: Extent2D,
}

impl View for SurfaceProbe {
    type V = SurfaceProbeV;

    open spec fn view(&self) -> SurfaceProbeV {
        SurfaceProbeV {
            presentation_supported: self.presentation_supported,
            surface_supported: self.surface_supported,
            formats: self.formats@,
            present_modes: self.present_modes@,
            capabilities: self.capabilities,
            window_client_extent: self.window_client_extent,
        }
    }
}

/// The swapchain creation parameters the plan settles on; the unverified
/// shell copies them field for field into the creation call.
#[derive(Clone, Copy, Debug, PartialEq, Eq, Structural)]
pub struct SwapchainConfig {
    pub format: u32,
    pub color_space: u32,
    pub extent: Extent2D,
    pub min_image_count: u32,
    pub present_mode: u32,
    pub composite_alpha: u32,
    pub image_usage: u32,
    pub image_array_layers: u32,
    pub sharing_mode: u32,
    pub pre_transform: u32,
}

/// Why presentation-target creation was aborted.
#[derive(Clone, Copy, Debug, PartialEq, Eq, Structural)]
pub enum CreateError {
    /// The device cannot present to the window system at all.
    PresentationUnsupported,
    /// The device cannot present to the created surface.
    SurfaceUnsupported,
    /// The device offers no sRGB RGBA/BGRA format.
    NoSuitableFormat,
}

/// The whole plan, as a function of the probe: the capability checks in
/// order, then the format decision, then the assembled configuration.
pub open spec fn spec_plan_swapchain(p: SurfaceProbeV) -> Result<SwapchainConfig, CreateError> {
    if !p.presentation_supported {
        Err(CreateError::PresentationUnsupported)
    } else if !p.surface_supported {
        Err(CreateError::SurfaceUnsupported)
    } else {
        match spec_select_format(p.formats) {
            None => Err(CreateError::NoSuitableFormat),
            Some(f) => Ok(
                SwapchainConfig {
                    format: f.format,
                    color_space: f.color_space,
                    extent: spec_resolve_extent(p.capabilities.current_extent, p.window_client_extent),
                    min_image_count: spec_image_count(p.capabilities),
                    present_mode: spec_select_present_mode(p.present_modes),
                    composite_alpha: spec_select_composite_alpha(
                        p.capabilities.supported_composite_alpha,
                    ),
                    image_usage: IMAGE_USAGE_TRANSFER_DST,
                    image_array_layers: 1,
                    sharing_mode: SHARING_MODE_EXCLUSIVE,
                    pre_transform: SURFACE_TRANSFORM_IDENTITY,
                },
            ),
        }
    }
}

/// Plans the swapchain: verifies the two capability checks, selects format,
/// present mode, composite alpha, extent and image count, and fixes the
/// remaining creation parameters.  The transfer-destination-only usage
/// records that this target is only ever blitted into, never rendered to.
///
/// The present-mode list may be consulted only on the success path, so it is
/// required to be non-empty just for probes that get that far; a device with
/// a presentable surface always reports at least one mode.
pub fn plan_swapchain(probe: &SurfaceProbe) -> (r: Result<SwapchainConfig, CreateError>)
    requires
        (probe.presentation_supported && probe.surface_supported && spec_select_format(
            probe.formats@,
        ) is Some) ==> probe.present_modes@.len() > 0,
    ensures
        r == spec_plan_swapchain(probe@),
{
    if !probe.presentation_supported {
        return Err(CreateError::PresentationUnsupported);
    }
    if !probe.surface_supported {
        return Err(CreateError::SurfaceUnsupported);
    }
    let format = match select_format(&probe.formats) {
        None => {
            return Err(CreateError::NoSuitableFormat);
        },
        Some(f) => f,
    };
    Ok(
        SwapchainConfig {
            format: format.format,
            color_space: format.color_space,
            extent: resolve_extent(probe.capabilities.current_extent, probe.window_client_extent),
            min_image_count: image_count(&probe.capabilities),
            present_mode: select_present_mode(&probe.present_modes),
            composite_alpha: select_composite_alpha(probe.capabilities.supported_composite_alpha),
            image_usage: IMAGE_USAGE_TRANSFER_DST,
            image_array_layers: 1,
            sharing_mode: SHARING_MODE_EXCLUSIVE,
            pre_transform: SURFACE_TRANSFORM_IDENTITY,
        },
    )
}

/// Every acceptable format in the list is found: selection returns an
/// acceptable format whenever the device offers one.
pub proof fn lemma_select_format_finds(s: Seq<SurfaceFormat>)
    requires
        exists|i: int| 0 <= i < s.len() && is_preferred_format(s[i]),
    ensures
        spec_select_format(s) matches Some(f) && is_preferred_format(f),
    decreases s.len(),
{
    if s.len() > 0 && !is_preferred_format(s[0]) {
        let i = choose|i: int| 0 <= i < s.len() && is_preferred_format(s[i]);
        assert(s.drop_first()[i - 1] == s[i]);
        lemma_select_format_finds(s.drop_first());
    }
}

/// A valid device context that offers presentation, a presentable surface,
/// at least one sRGB RGBA/BGRA format, at least one present mode and a
/// double-buffer-capable image range always yields a plan, and that plan
/// requests at least two images and no more than the device maximum.
pub proof fn lemma_plan_swapchain_succeeds(p: SurfaceProbeV)
    requires
        p.presentation_supported,
        p.surface_supported,
        exists|i: int| 0 <= i < p.formats.len() && is_preferred_format(p.formats[i]),
        p.present_modes.len() > 0,
        p.capabilities.min_image_count <= p.capabilities.max_image_count,
        2 <= p.capabilities.max_image_count,
    ensures
        spec_plan_swapchain(p) matches Ok(c) && 2 <= c.min_image_count
            <= p.capabilities.max_image_count,
{
    lemma_select_format_finds(p.formats);
}

/// One step of tearing the presentation target down, to be performed in
/// list order.
#[derive(Clone, Copy, Debug, PartialEq, Eq, Structural)]
pub enum DestroyAction {
    DestroySwapchain(u64),
    DestroySurface(u64),
}

/// The plugin's own presentation target: the native window, the surface
/// bound to it, the swapchain sized to the foreign device, the configuration
/// the swapchain was created with, the back-buffer image handles and the
/// per-frame synchronization state.  The window/surface/swapchain tree is
/// exclusively owned; the extent is fixed at creation, resizing is
/// unsupported.
#[derive(Debug)]
pub struct ExtRenderTarget {
    /// The native window handle.
    pub handle: u64,
    /// The foreign logical device the swapchain lives on.
    pub device: u64,
    /// The foreign graphics queue submissions and presents go to.
    pub graphics_queue: u64,
    pub surface: u64,
    pub swapchain: u64,
    pub config: SwapchainConfig,
    /// The swapchain's back-buffer images, in device order.
    pub bb_images: Vec<u64>,
    pub rc: RenderControl,
}

/// Mathematical image of an [`ExtRenderTarget`].
pub struct ExtRenderTargetV {
    pub handle: u64,
    pub device: u64,
    pub graphics_queue: u64,
    pub surface: u64,
    pub swapchain: u64,
    pub config: SwapchainConfig,
    pub bb_images: Seq<u64>,
    pub rc: RenderControl,
}

impl View for ExtRenderTarget {
    type V = ExtRenderTargetV;

    open spec fn view(&self) -> ExtRenderTargetV {
        ExtRenderTargetV {
            handle: self.handle,
            device: self.device,
            graphics_queue: self.graphics_queue,
            surface: self.surface,
            swapchain: self.swapchain,
            config: self.config,
            bb_images: self.bb_images@,
            rc: self.rc,
        }
    }
}

impl ExtRenderTarget {
    /// Assembles the target from the parts the shell created from a
    /// [`SwapchainConfig`]: the window, the surface, the swapchain, the
    /// retrieved back-buffer images and the fresh synchronization state.
    pub fn new(
        handle: u64,
        device: u64,
        graphics_queue: u64,
        surface: u64,
        swapchain: u64,
        config: SwapchainConfig,
        bb_images: Vec<u64>,
        rc: RenderControl,
    ) -> (r: ExtRenderTarget)
        ensures
            r@ == (ExtRenderTargetV {
                handle,
                device,
                graphics_queue,
                surface,
                swapchain,
                config,
                bb_images: bb_images@,
                rc,
            }),
    {
        ExtRenderTarget { handle, device, graphics_queue, surface, swapchain, config, bb_images, rc }
    }

    /// Schedules the submission and presentation of back buffer `bb_index`
    /// on this target's swapchain; everything but the synchronization state
    /// is untouched.
    pub fn submit_command(&mut self, command: u64, bb_index: u32) -> (plan: Vec<SyncAction>)
        ensures
            plan@ == spec_submit_schedule(old(self).rc, command, old(self).swapchain, bb_index),
            final(self)@ == (ExtRenderTargetV { rc: spec_submit_state(old(self).rc), ..old(self)@ }),
    {
        self.rc.submit_command(command, self.swapchain, bb_index)
    }

    /// The teardown order the destructor must follow: the swapchain is
    /// destroyed strictly before the surface it was created on.  Window
    /// destruction is left to process teardown.
    pub fn teardown_plan(&self) -> (plan: Vec<DestroyAction>)
        ensures
            plan@ == seq![
                DestroyAction::DestroySwapchain(self.swapchain),
                DestroyAction::DestroySurface(self.surface),
            ],
    {
        let mut plan: Vec<DestroyAction> = Vec::new();
        plan.push(DestroyAction::DestroySwapchain(self.swapchain));
        plan.push(DestroyAction::DestroySurface(self.surface));
        assert(plan@ =~= seq![
            DestroyAction::DestroySwapchain(self.swapchain),
            DestroyAction::DestroySurface(self.surface),
        ]);
        plan
    }
}

} // verus!
