//! The native surface: numeric encodings of the enumerations and flag sets,
//! the native boolean, and the integer records with the word layout in which
//! the native layer reads them.
#![allow(non_upper_case_globals)]
use libc::{c_char, c_int, c_uint};
use vstd::prelude::*;

verus! {

/// The native boolean: a single byte, zero for failure.
pub type OvrBool = c_char;

/// Headset models.
pub const Hmd_None: c_uint = 0;
pub const Hmd_DK1: c_uint = 3;
pub const Hmd_DKHD: c_uint = 4;
pub const Hmd_DK2: c_uint = 6;
pub const Hmd_Other: c_uint = 7;

/// Device capability bits reported by the device.
pub const HmdCap_Present: c_uint = 0x0001;
pub const HmdCap_Available: c_uint = 0x0002;
pub const HmdCap_Captured: c_uint = 0x0004;
pub const HmdCap_ExtendDesktop: c_uint = 0x0008;
pub const HmdCap_NoMirrorToWindow: c_uint = 0x2000;
pub const HmdCap_DisplayOff: c_uint = 0x0040;
pub const HmdCap_LowPersistence: c_uint = 0x0080;
pub const HmdCap_DynamicPrediction: c_uint = 0x0200;
pub const HmdCap_NoVSync: c_uint = 0x1000;

/// The device capability bits that setting the enabled capabilities can change.
pub const HmdCap_Writable_Mask: c_uint = 0x33F0;
/// The device capability bits that are passed on to the native service.
pub const HmdCap_Service_Mask: c_uint = 0x23F0;

/// Tracking capability bits, negotiated when tracking is configured.
pub const TrackingCap_Orientation: c_uint = 0x0010;
pub const TrackingCap_MagYawCorrection: c_uint = 0x0020;
pub const TrackingCap_Position: c_uint = 0x0040;
pub const TrackingCap_Idle: c_uint = 0x0100;

/// Distortion capability bits, chosen when rendering is configured.
pub const DistortionCap_Chromatic: c_uint = 0x01;
pub const DistortionCap_TimeWarp: c_uint = 0x02;
pub const DistortionCap_Vignette: c_uint = 0x08;
pub const DistortionCap_NoRestore: c_uint = 0x10;
pub const DistortionCap_FlipInput: c_uint = 0x20;
pub const DistortionCap_SRGB: c_uint = 0x40;
pub const DistortionCap_Overdrive: c_uint = 0x80;
pub const DistortionCap_HqDistortion: c_uint = 0x100;
pub const DistortionCap_LinuxDevFullscreen: c_uint = 0x200;
pub const DistortionCap_ProfileNoTimewarpSpinWaits: c_uint = 0x10000;

/// Eye codes; there is no third, non-stereo code.
pub const Eye_Left: c_uint = 0x00;
pub const Eye_Right: c_uint = 0x01;
pub const Eye_Count: c_uint = 0x02;

/// Bits of the tracking status.
pub const Status_OrientationTracked: c_uint = 0x0001;
pub const Status_PositionTracked: c_uint = 0x0002;
pub const Status_CameraPoseTracked: c_uint = 0x0004;
pub const Status_PositionConnected: c_uint = 0x0020;
pub const Status_HmdConnected: c_uint = 0x0080;

/// Rendering back ends.
pub const RenderAPI_None: c_uint = 0;
pub const RenderAPI_OpenGL: c_uint = 1;
pub const RenderAPI_Android_GLES: c_uint = 2;
pub const RenderAPI_D3D9: c_uint = 3;
pub const RenderAPI_D3D10: c_uint = 4;
pub const RenderAPI_D3D11: c_uint = 5;
pub const RenderAPI_Count: c_uint = 6;

/// The device that a native handle points at. Nothing outside the native
/// layer builds or reads one: a handle is only ever an address handed back to
/// the native layer.
pub struct Hmd {
    _opaque: (),
}

/// Decodes a native boolean: every non-zero byte means success.
pub fn ovr_bool(b: OvrBool) -> (r: bool)
    ensures
        r == (b != 0),
{
    b != 0
}

/// A 2D vector with integer components.
#[derive(Clone, Copy, Debug, Default, PartialEq, Eq, Structural)]
pub struct Vector2i {
    pub x: c_int,
    pub y: c_int,
}

/// A 2D size with integer components.
#[derive(Clone, Copy, Debug, Default, PartialEq, Eq, Structural)]
pub struct Sizei {
    pub x: c_int,
    pub y: c_int,
}

/// A 2D rectangle: a position and a size.
#[derive(Clone, Copy, Debug, Default, PartialEq, Eq, Structural)]
pub struct Recti {
    pub pos: Vector2i,
    pub size: Sizei,
}

impl Vector2i {
    /// The components in the order the native layer lays them out.
    pub open spec fn words(self) -> Seq<c_int> {
        seq![self.x, self.y]
    }

    pub open spec fn of_words(w: Seq<c_int>) -> Vector2i {
        Vector2i { x: w[0], y: w[1] }
    }

    pub fn to_words(&self) -> (r: [c_int; 2])
        ensures
            r@ == self.words(),
    {
        let r = [self.x, self.y];
        assert(r@ =~= self.words());
        r
    }

    pub fn from_words(w: [c_int; 2]) -> (r: Vector2i)
        ensures
            r == Vector2i::of_words(w@),
    {
        Vector2i { x: w[0], y: w[1] }
    }
}

impl Sizei {
    /// The components in the order the native layer lays them out.
    pub open spec fn words(self) -> Seq<c_int> {
        seq![self.x, self.y]
    }

    pub open spec fn of_words(w: Seq<c_int>) -> Sizei {
        Sizei { x: w[0], y: w[1] }
    }

    pub fn to_words(&self) -> (r: [c_int; 2])
        ensures
            r@ == self.words(),
    {
        let r = [self.x, self.y];
        assert(r@ =~= self.words());
        r
    }

    pub fn from_words(w: [c_int; 2]) -> (r: Sizei)
        ensures
            r == Sizei::of_words(w@),
    {
        Sizei { x: w[0], y: w[1] }
    }
}

impl Recti {
    /// The components in the order the native layer lays them out: the
    /// position, then the size.
    pub open spec fn words(self) -> Seq<c_int> {
        self.pos.words() + self.size.words()
    }

    pub open spec fn of_words(w: Seq<c_int>) -> Recti {
        Recti { pos: Vector2i::of_words(w.subrange(0, 2)), size: Sizei::of_words(w.subrange(2, 4)) }
    }

    pub fn to_words(&self) -> (r: [c_int; 4])
        ensures
            r@ == self.words(),
    {
        let r = [self.pos.x, self.pos.y, self.size.x, self.size.y];
        assert(r@ =~= self.words());
        r
    }

    pub fn from_words(w: [c_int; 4]) -> (r: Recti)
        ensures
            r == Recti::of_words(w@),
    {
        Recti { pos: Vector2i { x: w[0], y: w[1] }, size: Sizei { x: w[2], y: w[3] } }
    }
}

/// Every integer record survives being laid out in native words and read
/// back, field for field.
pub proof fn lemma_record_layout_round_trip(v: Vector2i, s: Sizei, r: Recti)
    ensures
        Vector2i::of_words(v.words()) == v,
        Sizei::of_words(s.words()) == s,
        Recti::of_words(r.words()) == r,
        v.words().len() == 2 && s.words().len() == 2 && r.words().len() == 4,
{
    assert(r.words().subrange(0, 2) =~= r.pos.words());
    assert(r.words().subrange(2, 4) =~= r.size.words());
}

} // verus!
