//! The order in which a device's configuration and frame calls must come:
//! tracking is configured, then rendering, then frames, each begun and then
//! asked once for its eye poses. The native layer assumes this order without
//! checking it; `CallOrder` records what was done and says which call may
//! come next.
use libc::c_uint;
use vstd::prelude::*;

verus! {

/// A call on a device whose place in the order matters.
#[derive(Clone, Copy, Debug, PartialEq, Eq, Structural)]
pub enum DeviceCall {
    /// Tracking negotiation, with whether the native layer accepted it.
    ConfigureTracking { accepted: bool },
    ConfigureRendering,
    /// The start of a frame; index zero lets the native layer count frames.
    BeginFrame { frame_index: c_uint },
    GetEyePoses { frame_index: c_uint },
}

/// What has been done on one device so far.
#[derive(Clone, Copy, Debug, PartialEq, Eq, Structural)]
pub struct CallOrder {
    pub tracking_configured: bool,
    pub rendering_configured: bool,
    /// The index of the frame begun last, if any frame was begun.
    pub frame: Option<c_uint>,
    /// Whether the eye poses of that frame were asked for.
    pub poses_taken: bool,
}

/// Whether frame `next` may follow frame `last`: explicit indices only grow,
/// and a zero on either side leaves the counting to the native layer.
pub open spec fn frame_follows(last: Option<c_uint>, next: c_uint) -> bool {
    match last {
        Some(f) => next == 0 || f == 0 || f < next,
        None => true,
    }
}

impl CallOrder {
    pub open spec fn start() -> CallOrder {
        CallOrder { tracking_configured: false, rendering_configured: false, frame: None, poses_taken: false }
    }

    /// Whether `call` may come now.
    pub open spec fn allows(self, call: DeviceCall) -> bool {
        match call {
            DeviceCall::ConfigureTracking { .. } => true,
            DeviceCall::ConfigureRendering => self.tracking_configured,
            DeviceCall::BeginFrame { frame_index } => self.rendering_configured && frame_follows(
                self.frame,
                frame_index,
            ),
            DeviceCall::GetEyePoses { frame_index } => self.frame == Some(frame_index) && !self.poses_taken,
        }
    }

    /// What has been done once `call` was made.
    pub open spec fn after(self, call: DeviceCall) -> CallOrder {
        match call {
            DeviceCall::ConfigureTracking { accepted } => CallOrder { tracking_configured: accepted, ..self },
            DeviceCall::ConfigureRendering => CallOrder { rendering_configured: true, ..self },
            DeviceCall::BeginFrame { frame_index } => CallOrder {
                frame: Some(frame_index),
                poses_taken: false,
                ..self
            },
            DeviceCall::GetEyePoses { .. } => CallOrder { poses_taken: true, ..self },
        }
    }

    pub fn new() -> (r: CallOrder)
        ensures
            r == CallOrder::start(),
    {
        CallOrder { tracking_configured: false, rendering_configured: false, frame: None, poses_taken: false }
    }

    pub fn permits(&self, call: DeviceCall) -> (r: bool)
        ensures
            r == self.allows(call),
    {
        match call {
            DeviceCall::ConfigureTracking { .. } => true,
            DeviceCall::ConfigureRendering => self.tracking_configured,
            DeviceCall::BeginFrame { frame_index } => {
                let follows = match self.frame {
                    Some(f) => frame_index == 0 || f == 0 || f < frame_index,
                    None => true,
                };
                self.rendering_configured && follows
            },
            DeviceCall::GetEyePoses { frame_index } => {
                let current = match self.frame {
                    Some(f) => f == frame_index,
                    None => false,
                };
                current && !self.poses_taken
            },
        }
    }

    pub fn record(&mut self, call: DeviceCall)
        ensures
            *final(self) == old(self).after(call),
    {
        match call {
            DeviceCall::ConfigureTracking { accepted } => {
                self.tracking_configured = accepted;
            },
            DeviceCall::ConfigureRendering => {
                self.rendering_configured = true;
            },
            DeviceCall::BeginFrame { frame_index } => {
                self.frame = Some(frame_index);
                self.poses_taken = false;
            },
            DeviceCall::GetEyePoses { .. } => {
                self.poses_taken = true;
            },
        }
    }
}

/// On a fresh device nothing but tracking negotiation may come first; once it
/// was accepted rendering may be configured, and then the first frame begun.
pub proof fn lemma_configuration_order(i: c_uint)
    ensures
        !CallOrder::start().allows(DeviceCall::ConfigureRendering),
        !CallOrder::start().allows(DeviceCall::BeginFrame { frame_index: i }),
        !CallOrder::start().allows(DeviceCall::GetEyePoses { frame_index: i }),
        !CallOrder::start().after(DeviceCall::ConfigureTracking { accepted: false }).allows(
            DeviceCall::ConfigureRendering,
        ),
        CallOrder::start().after(DeviceCall::ConfigureTracking { accepted: true }).allows(
            DeviceCall::ConfigureRendering,
        ),
        CallOrder::start().after(DeviceCall::ConfigureTracking { accepted: true }).after(
            DeviceCall::ConfigureRendering,
        ).allows(DeviceCall::BeginFrame { frame_index: i }),
{
}

/// Once a frame may begin, its eye poses may be asked for exactly once after
/// it began; an explicit index may not begin again, and every larger index
/// may begin next, whether or not the poses were taken.
pub proof fn lemma_frame_cycle(s: CallOrder, i: c_uint, j: c_uint)
    requires
        s.allows(DeviceCall::BeginFrame { frame_index: i }),
    ensures
        ({
            let begun = s.after(DeviceCall::BeginFrame { frame_index: i });
            let posed = begun.after(DeviceCall::GetEyePoses { frame_index: i });
            &&& begun.allows(DeviceCall::GetEyePoses { frame_index: i })
            &&& !posed.allows(DeviceCall::GetEyePoses { frame_index: i })
            &&& j != i ==> !begun.allows(DeviceCall::GetEyePoses { frame_index: j })
            &&& i != 0 ==> !posed.allows(DeviceCall::BeginFrame { frame_index: i })
            &&& i < j ==> begun.allows(DeviceCall::BeginFrame { frame_index: j })
            &&& i < j ==> posed.allows(DeviceCall::BeginFrame { frame_index: j })
        }),
{
}

} // verus!
