use libovr::caps::{DistortionCaps, HmdCaps, TrackingCaps};
use libovr::native::{
    ovr_bool, DistortionCap_Chromatic, DistortionCap_TimeWarp, DistortionCap_Vignette,
    Eye_Left, Eye_Right, HmdCap_DynamicPrediction, HmdCap_LowPersistence, Hmd_DK1, Hmd_DK2,
    Hmd_DKHD, Hmd_None, Hmd_Other, TrackingCap_Idle, TrackingCap_MagYawCorrection,
    TrackingCap_Orientation, TrackingCap_Position,
};
use libovr::{DecodeFault, EyeType, HmdType, Recti, Sizei, Vector2i};

#[test]
fn set_flag_then_check_reads_set() {
    let m = HmdCaps::new(0);
    let set = m.set_flag(HmdCap_LowPersistence, true);
    assert!(set.check_flag(HmdCap_LowPersistence));
    assert_eq!(set.mask, 0x0080);
    assert!(!set.check_flag(HmdCap_DynamicPrediction));
}

#[test]
fn clear_flag_then_check_reads_clear() {
    let m = TrackingCaps::new(TrackingCap_Orientation | TrackingCap_Position);
    let cleared = m.set_flag(TrackingCap_Position, false);
    assert!(!cleared.check_flag(TrackingCap_Position));
    assert!(cleared.check_flag(TrackingCap_Orientation));
    assert_eq!(cleared.mask, 0x0010);
}

#[test]
fn set_then_clear_restores_mask() {
    let original = DistortionCaps::new(DistortionCap_Chromatic | DistortionCap_Vignette);
    let back = original
        .set_flag(DistortionCap_TimeWarp, true)
        .set_flag(DistortionCap_TimeWarp, false);
    assert_eq!(back.mask, original.mask);
    assert_eq!(back.mask, 0x09);
}

#[test]
fn setting_a_set_flag_keeps_the_mask() {
    let m = TrackingCaps::new(TrackingCap_Idle);
    assert_eq!(m.set_flag(TrackingCap_Idle, true).mask, 0x0100);
}

#[test]
fn check_multi_bit_flag_needs_every_bit() {
    let m = TrackingCaps::new(TrackingCap_Orientation);
    assert!(!m.check_flag(TrackingCap_Orientation | TrackingCap_MagYawCorrection));
    let m = m.set_flag(TrackingCap_MagYawCorrection, true);
    assert!(m.check_flag(TrackingCap_Orientation | TrackingCap_MagYawCorrection));
}

#[test]
fn empty_flag_always_reads_set() {
    let m = HmdCaps::new(0);
    assert!(m.check_flag(0));
    assert!(m.set_flag(0, false).check_flag(0));
}

#[test]
fn eye_codes_round_trip() {
    for code in [Eye_Left, Eye_Right] {
        let eye = EyeType::from_ffi(code).unwrap();
        assert_eq!(eye.to_ffi(), code);
    }
    assert_eq!(EyeType::from_ffi(0), Ok(EyeType::EyeL));
    assert_eq!(EyeType::from_ffi(1), Ok(EyeType::EyeR));
}

#[test]
fn invalid_eye_code_is_a_fault() {
    assert_eq!(EyeType::from_ffi(2), Err(DecodeFault { code: 2 }));
    assert_eq!(EyeType::from_ffi(u32::MAX), Err(DecodeFault { code: u32::MAX }));
}

#[test]
fn eye_encodes_to_native_codes() {
    assert_eq!(EyeType::EyeL.to_ffi(), 0);
    assert_eq!(EyeType::EyeR.to_ffi(), 1);
}

#[test]
fn hmd_type_codes() {
    assert_eq!(HmdType::from_ffi(0), HmdType::HmdNone);
    assert_eq!(HmdType::from_ffi(3), HmdType::HmdDK1);
    assert_eq!(HmdType::from_ffi(4), HmdType::HmdDKHD);
    assert_eq!(HmdType::from_ffi(6), HmdType::HmdDK2);
    assert_eq!(HmdType::from_ffi(7), HmdType::HmdOther);
    assert_eq!(HmdType::from_ffi(5), HmdType::HmdOther);
    assert_eq!(HmdType::from_ffi(1), HmdType::HmdOther);
    assert_eq!(HmdType::HmdDK2.to_ffi(), 6);
    assert_eq!(HmdType::HmdOther.to_ffi(), 7);
}

#[test]
fn hmd_type_round_trip() {
    for t in [
        HmdType::HmdNone,
        HmdType::HmdDK1,
        HmdType::HmdDKHD,
        HmdType::HmdDK2,
        HmdType::HmdOther,
    ] {
        assert_eq!(HmdType::from_ffi(t.to_ffi()), t);
    }
    for code in [Hmd_None, Hmd_DK1, Hmd_DKHD, Hmd_DK2, Hmd_Other] {
        assert_eq!(HmdType::from_ffi(code).to_ffi(), code);
    }
}

#[test]
fn native_bool_decoding() {
    assert!(!ovr_bool(0));
    assert!(ovr_bool(1));
    assert!(ovr_bool(-1));
    assert!(ovr_bool(42));
}

#[test]
fn records_survive_native_layout() {
    let v = Vector2i { x: -3, y: 17 };
    assert_eq!(v.to_words(), [-3, 17]);
    assert_eq!(Vector2i::from_words(v.to_words()), v);
    let s = Sizei { x: 1182, y: 1461 };
    assert_eq!(s.to_words(), [1182, 1461]);
    assert_eq!(Sizei::from_words(s.to_words()), s);
    let r = Recti { pos: Vector2i { x: 5, y: -6 }, size: Sizei { x: 640, y: 800 } };
    assert_eq!(r.to_words(), [5, -6, 640, 800]);
    let back = Recti::from_words(r.to_words());
    assert_eq!(back.pos.x, 5);
    assert_eq!(back.pos.y, -6);
    assert_eq!(back.size.x, 640);
    assert_eq!(back.size.y, 800);
    assert_eq!(back, r);
}

#[test]
fn records_copy_field_for_field() {
    let r = Recti { pos: Vector2i { x: i32::MIN, y: i32::MAX }, size: Sizei { x: 0, y: -1 } };
    let copy = r;
    assert_eq!(copy, r);
    assert_eq!(Recti::default(), Recti { pos: Vector2i { x: 0, y: 0 }, size: Sizei { x: 0, y: 0 } });
}
