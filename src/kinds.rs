//! Headset models and eye identities, and their native codes.
use crate::native::{Eye_Left, Eye_Right, Hmd_DK1, Hmd_DK2, Hmd_DKHD, Hmd_None, Hmd_Other};
use libc::c_uint;
use vstd::prelude::*;

verus! {

/// A headset model.
#[derive(Clone, Copy, Debug, PartialEq, Eq, Structural)]
pub enum HmdType {
    HmdNone,
    HmdDK1,
    HmdDKHD,
    HmdDK2,
    HmdOther,
}

/// The model that a native model code names: every code that names no known
/// hardware generation is `HmdOther`.
pub open spec fn hmd_type_of(c: c_uint) -> HmdType {
    if c == Hmd_None {
        HmdType::HmdNone
    } else if c == Hmd_DK1 {
        HmdType::HmdDK1
    } else if c == Hmd_DKHD {
        HmdType::HmdDKHD
    } else if c == Hmd_DK2 {
        HmdType::HmdDK2
    } else {
        HmdType::HmdOther
    }
}

impl HmdType {
    pub open spec fn code(self) -> c_uint {
        match self {
            HmdType::HmdNone => Hmd_None,
            HmdType::HmdDK1 => Hmd_DK1,
            HmdType::HmdDKHD => Hmd_DKHD,
            HmdType::HmdDK2 => Hmd_DK2,
            HmdType::HmdOther => Hmd_Other,
        }
    }

    pub fn from_ffi(c: c_uint) -> (r: HmdType)
        ensures
            r == hmd_type_of(c),
    {
        if c == Hmd_None {
            HmdType::HmdNone
        } else if c == Hmd_DK1 {
            HmdType::HmdDK1
        } else if c == Hmd_DKHD {
            HmdType::HmdDKHD
        } else if c == Hmd_DK2 {
            HmdType::HmdDK2
        } else {
            HmdType::HmdOther
        }
    }

    pub fn to_ffi(&self) -> (r: c_uint)
        ensures
            r == self.code(),
    {
        match self {
            HmdType::HmdNone => Hmd_None,
            HmdType::HmdDK1 => Hmd_DK1,
            HmdType::HmdDKHD => Hmd_DKHD,
            HmdType::HmdDK2 => Hmd_DK2,
            HmdType::HmdOther => Hmd_Other,
        }
    }
}

/// Encoding a model and decoding the code gives the model back.
pub proof fn lemma_hmd_type_round_trip(t: HmdType)
    ensures
        hmd_type_of(t.code()) == t,
{
}

/// One of the two stereo views.
#[derive(Clone, Copy, Debug, PartialEq, Eq, Structural)]
pub enum EyeType {
    EyeL,
    EyeR,
}

/// A native eye code outside the two that exist. It names a defect on the
/// native side of the boundary, never a third eye.
#[derive(Clone, Copy, Debug, PartialEq, Eq, Structural)]
pub struct DecodeFault {
    pub code: c_uint,
}

/// The eye that a native eye code names, if it names one.
pub open spec fn eye_of(c: c_uint) -> Option<EyeType> {
    if c == Eye_Left {
        Some(EyeType::EyeL)
    } else if c == Eye_Right {
        Some(EyeType::EyeR)
    } else {
        None
    }
}

impl EyeType {
    pub open spec fn code(self) -> c_uint {
        match self {
            EyeType::EyeL => Eye_Left,
            EyeType::EyeR => Eye_Right,
        }
    }

    /// Decodes a native eye code; any code but the two eyes' is a fault.
    pub fn from_ffi(c: c_uint) -> (r: Result<EyeType, DecodeFault>)
        ensures
            eye_of(c) matches Some(e) ==> r == Ok::<EyeType, DecodeFault>(e),
            eye_of(c) is None ==> r == Err::<EyeType, DecodeFault>(DecodeFault { code: c }),
    {
        if c == Eye_Left {
            Ok(EyeType::EyeL)
        } else if c == Eye_Right {
            Ok(EyeType::EyeR)
        } else {
            Err(DecodeFault { code: c })
        }
    }

    pub fn to_ffi(&self) -> (r: c_uint)
        ensures
            r == self.code(),
    {
        match self {
            EyeType::EyeL => Eye_Left,
            EyeType::EyeR => Eye_Right,
        }
    }
}

/// A valid eye code decodes to an eye that encodes back to the same code;
/// every other code decodes to no eye at all.
pub proof fn lemma_eye_code_round_trip(c: c_uint)
    ensures
        c == Eye_Left || c == Eye_Right ==> (eye_of(c) matches Some(e) && e.code() == c),
        c != Eye_Left && c != Eye_Right ==> eye_of(c) is None,
{
}

/// Every eye encodes to a valid code that decodes back to it.
pub proof fn lemma_eye_round_trip(e: EyeType)
    ensures
        eye_of(e.code()) == Some(e),
{
}

} // verus!
