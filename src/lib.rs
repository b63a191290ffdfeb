//! A verified ownership and encoding layer over the Oculus VR native SDK.
//!
//! The native SDK is reached through a flat C call table. This library holds
//! what a safe binding decides on its own: the numeric encodings of the
//! enumerations and flag sets, the decoding of native booleans and null
//! sentinels, and the ownership discipline between the library session and the
//! device handles borrowed from it.
pub mod caps;
pub mod kinds;
pub mod native;
pub mod order;
pub mod session;

pub use caps::{BitMask, DistortionCaps, HmdCaps, TrackingCaps};
pub use kinds::{DecodeFault, EyeType, HmdType};
pub use order::{CallOrder, DeviceCall};
pub use native::{OvrBool, Recti, Sizei, Vector2i};
pub use session::{Hmd, Ovr, WindowAttach};
