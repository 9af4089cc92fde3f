//! The process-wide controller slot and the host-lifecycle decisions.
//!
//! The host ABI dispatches through plain function pointers with no per-call
//! context, so exactly one controller instance lives in a lock-guarded
//! process-wide slot.  The shell owns the lock and the callbacks; the slot
//! itself, every transition on it, and the decision which lifecycle event
//! does what are verified here.  A call that finds the slot empty — capture
//! event, source registration or shutdown — is a no-op, never an error:
//! running on an unsupported backend and racing a teardown both have to
//! look like that.

use vstd::prelude::*;

use crate::controller::spec_capture_state;
use crate::controller::spec_frame_commands;
use crate::controller::spec_frame_schedule;
use crate::controller::FramePlan;
use crate::controller::VkRenderingInterceptor;
use crate::controller::VkRenderingInterceptorV;
use crate::recorder::spec_access_request;
use crate::recorder::AccessRequest;
use crate::recorder::CaptureSource;

verus! {

/// The host's identifier for its Vulkan backend.
pub const RENDERER_VULKAN: i32 = 21;

/// The host's device-lifecycle event identifiers.
pub const GFX_DEVICE_EVENT_INITIALIZE: i32 = 0;
pub const GFX_DEVICE_EVENT_SHUTDOWN: i32 = 1;

/// The one event identifier that triggers a capture; every other value is
/// ignored.
pub const SCREEN_CAPTURE_EVENT_ID: i32 = 1;

/// What a device-lifecycle event obliges the shell to do.
#[derive(Clone, Copy, Debug, PartialEq, Eq, Structural)]
pub enum LifecycleAction {
    /// Build a controller and install it in the slot.
    InitializeController,
    /// Tear the slot's controller down.
    TearDownController,
    /// Do nothing: an unknown event, or an unsupported backend.
    Ignore,
}

/// Initialization happens only for the supported backend; shutdown always
/// tears down; everything else is ignored.
pub open spec fn spec_lifecycle_action(event_type: i32, renderer: i32) -> LifecycleAction {
    if event_type == GFX_DEVICE_EVENT_INITIALIZE {
        if renderer == RENDERER_VULKAN {
            LifecycleAction::InitializeController
        } else {
            LifecycleAction::Ignore
        }
    } else if event_type == GFX_DEVICE_EVENT_SHUTDOWN {
        LifecycleAction::TearDownController
    } else {
        LifecycleAction::Ignore
    }
}

/// Decides what a device-lifecycle event means.  A backend other than the
/// supported one is not an error: the plugin simply stays inert.
pub fn lifecycle_action(event_type: i32, renderer: i32) -> (r: LifecycleAction)
    ensures
        r == spec_lifecycle_action(event_type, renderer),
{
    if event_type == GFX_DEVICE_EVENT_INITIALIZE {
        if renderer == RENDERER_VULKAN {
            LifecycleAction::InitializeController
        } else {
            LifecycleAction::Ignore
        }
    } else if event_type == GFX_DEVICE_EVENT_SHUTDOWN {
        LifecycleAction::TearDownController
    } else {
        LifecycleAction::Ignore
    }
}

/// The process-wide controller slot: at most one controller, present
/// exactly between a successful Vulkan device-initialize and the matching
/// shutdown.  The shell holds it behind a lock so at most one accessor is
/// ever active.
#[derive(Debug)]
pub struct GraphicsDeviceSlot {
    pub device: Option<VkRenderingInterceptor>,
}

impl View for GraphicsDeviceSlot {
    type V = Option<VkRenderingInterceptorV>;

    open spec fn view(&self) -> Option<VkRenderingInterceptorV> {
        match self.device {
            Some(ref d) => Some(d@),
            None => None,
        }
    }
}

impl GraphicsDeviceSlot {
    /// The empty slot every process starts with.
    pub fn new() -> (r: GraphicsDeviceSlot)
        ensures
            r@ is None,
    {
        GraphicsDeviceSlot { device: None }
    }

    /// Installs the controller of a freshly initialized device session.
    pub fn install(&mut self, dev: VkRenderingInterceptor)
        ensures
            final(self)@ == Some(dev@),
    {
        self.device = Some(dev);
    }

    /// The shutdown transition: empties the slot and hands the removed
    /// controller back so the shell can execute its teardown plan.  On an
    /// already-empty slot this is a no-op — nothing is returned and nothing
    /// changes — so tearing down twice is harmless.
    pub fn shutdown(&mut self) -> (removed: Option<VkRenderingInterceptor>)
        ensures
            final(self)@ is None,
            old(self)@ is None ==> removed is None && final(self)@ == old(self)@,
            old(self)@ matches Some(d) ==> removed matches Some(r) && r@ == d,
    {
        self.device.take()
    }

    /// Registers the host's render buffer for the next capture.  With no
    /// controller present this is a silent no-op.
    pub fn set_render_buffer(&mut self, rb: u64)
        ensures
            old(self)@ is None ==> final(self)@ == old(self)@,
            old(self)@ matches Some(d) ==> final(self)@ == Some(
                VkRenderingInterceptorV { current_rb: rb, ..d },
            ),
    {
        match &mut self.device {
            Some(d) => d.set_render_buffer(rb),
            None => (),
        }
    }

    /// The start of a capture event: yields the access request to hand to
    /// the host, but only for the reserved event identifier and only while
    /// a controller is present.
    pub fn capture_request(&self, event_id: i32) -> (r: Option<AccessRequest>)
        ensures
            r is Some <==> (event_id == SCREEN_CAPTURE_EVENT_ID && self@ is Some),
            self@ matches Some(d) ==> (event_id == SCREEN_CAPTURE_EVENT_ID ==> r == Some(
                spec_access_request(d.current_rb),
            )),
    {
        if event_id != SCREEN_CAPTURE_EVENT_ID {
            return None;
        }
        match &self.device {
            Some(d) => Some(d.access_request()),
            None => None,
        }
    }

    /// The rest of a capture event, given what the host answered and which
    /// back buffer was acquired.  Ignored event identifiers, an empty slot
    /// and a frame without a source all leave the slot exactly as it was
    /// and produce no plan.
    pub fn handle_capture(
        &mut self,
        event_id: i32,
        source: Option<CaptureSource>,
        bb_index: u32,
    ) -> (r: Option<FramePlan>)
        requires
            old(self)@ matches Some(d) ==> ((event_id == SCREEN_CAPTURE_EVENT_ID && source is Some)
                ==> (bb_index as int) < d.ert.bb_images.len()),
        ensures
            event_id != SCREEN_CAPTURE_EVENT_ID ==> r is None && final(self)@ == old(self)@,
            old(self)@ is None ==> r is None && final(self)@ == old(self)@,
            old(self)@ matches Some(d) ==> (event_id == SCREEN_CAPTURE_EVENT_ID ==> {
                &&& source is None ==> r is None && final(self)@ == old(self)@
                &&& source matches Some(src) ==> ({
                    &&& r matches Some(p)
                    &&& p.bb_index == bb_index
                    &&& p.commands == spec_frame_commands(d, src, bb_index as int)
                    &&& p.schedule@ == spec_frame_schedule(d, bb_index)
                    &&& final(self)@ == Some(spec_capture_state(d))
                })
            }),
    {
        if event_id != SCREEN_CAPTURE_EVENT_ID {
            return None;
        }
        match &mut self.device {
            Some(d) => d.handle_event(source, bb_index),
            None => None,
        }
    }
}

} // verus!
