use rovr::ffi::flags::{
    ovrDistortionCap_Overdrive, ovrDistortionCap_TimeWarp, ovrHmdCap_DebugDevice,
    ovrHmdCap_DisplayOff, ovrHmdCap_DynamicPrediction, ovrHmdCap_ExtendDesktop,
    ovrHmdCap_LowPersistence, ovrHmdCap_NoMirrorToWindow, ovrHmdCap_NoVSync,
    ovrHmdCap_Service_Mask, ovrHmdCap_Writable_Mask, ovrInit_Debug, ovrInit_RequestVersion,
    ovrLayerFlag_HeadLocked, ovrProjection_ClipRangeOpenGL, ovrProjection_RightHanded,
    ovrTrackingCap_Idle, ovrTrackingCap_MagYawCorrection, ovrTrackingCap_Orientation,
    ovrTrackingCap_Position,
};
use rovr::ffi::{
    ovrDistortionCaps, ovrHmdCaps, ovrInitFlags, ovrLayerFlags, ovrProjectionModifier,
    ovrTrackingCaps,
};
use rovr::TrackingOptions;

#[test]
fn named_flags_have_their_bits() {
    assert_eq!(ovrInit_Debug, 0x1);
    assert_eq!(ovrInit_RequestVersion, 0x4);
    assert_eq!(ovrHmdCap_ExtendDesktop, 0x0008);
    assert_eq!(ovrHmdCap_DebugDevice, 0x0010);
    assert_eq!(ovrHmdCap_DisplayOff, 0x0040);
    assert_eq!(ovrHmdCap_LowPersistence, 0x0080);
    assert_eq!(ovrHmdCap_DynamicPrediction, 0x0200);
    assert_eq!(ovrHmdCap_NoVSync, 0x1000);
    assert_eq!(ovrHmdCap_NoMirrorToWindow, 0x2000);
    assert_eq!(ovrTrackingCap_Orientation, 0x0010);
    assert_eq!(ovrTrackingCap_MagYawCorrection, 0x0020);
    assert_eq!(ovrTrackingCap_Position, 0x0040);
    assert_eq!(ovrTrackingCap_Idle, 0x0100);
    assert_eq!(ovrDistortionCap_TimeWarp, 0x02);
    assert_eq!(ovrDistortionCap_Overdrive, 0x80);
    assert_eq!(ovrProjection_RightHanded, 0x01);
    assert_eq!(ovrProjection_ClipRangeOpenGL, 0x08);
}

#[test]
fn writable_mask_is_the_five_switches() {
    assert_eq!(
        ovrHmdCap_Writable_Mask,
        ovrHmdCap_NoMirrorToWindow
            | ovrHmdCap_DisplayOff
            | ovrHmdCap_LowPersistence
            | ovrHmdCap_DynamicPrediction
            | ovrHmdCap_NoVSync
    );
    assert_eq!(ovrHmdCap_Service_Mask, ovrHmdCap_Writable_Mask & !ovrHmdCap_NoVSync);
}

#[test]
fn empty_set_has_no_bits() {
    let caps = ovrTrackingCaps::empty();
    assert_eq!(caps.bits(), 0);
    assert!(caps.is_empty());
    assert!(!caps.contains(ovrTrackingCap_Position));
}

#[test]
fn all_is_the_mask_of_the_family() {
    assert_eq!(ovrInitFlags::all().bits(), 0x5);
    assert_eq!(ovrHmdCaps::all().bits(), 0x32DF);
    assert_eq!(ovrTrackingCaps::all().bits(), 0x0170);
    assert_eq!(ovrDistortionCaps::all().bits(), 0x01FA);
    assert_eq!(ovrLayerFlags::all().bits(), 0x07);
    assert_eq!(ovrProjectionModifier::all().bits(), 0x0F);
}

#[test]
fn from_bits_rejects_undefined_bits() {
    assert!(ovrTrackingCaps::from_bits(0x0001).is_none());
    assert!(ovrTrackingCaps::from_bits(0x0170 | 0x8000_0000).is_none());
    assert!(ovrLayerFlags::from_bits(0x08).is_none());
    assert_eq!(ovrTrackingCaps::from_bits(0x0050).map(|c| c.bits()), Some(0x0050));
    assert_eq!(ovrTrackingCaps::from_bits(0).map(|c| c.bits()), Some(0));
}

#[test]
fn from_bits_truncate_drops_undefined_bits() {
    assert_eq!(ovrTrackingCaps::from_bits_truncate(0xFFFF_FFFF).bits(), 0x0170);
    assert_eq!(ovrTrackingCaps::from_bits_truncate(0x0041).bits(), 0x0040);
    assert_eq!(ovrHmdCaps::from_bits_truncate(0x0020).bits(), 0);
}

#[test]
fn insert_adds_defined_bits_only() {
    let mut caps = ovrHmdCaps::empty();
    caps.insert(ovrHmdCap_LowPersistence);
    assert_eq!(caps.bits(), 0x0080);
    caps.insert(ovrHmdCap_NoVSync | 0x0020);
    assert_eq!(caps.bits(), 0x1080);
    caps.insert(ovrHmdCap_LowPersistence);
    assert_eq!(caps.bits(), 0x1080);
    assert!(caps.contains(ovrHmdCap_NoVSync));
    assert!(caps.contains(ovrHmdCap_NoVSync | ovrHmdCap_LowPersistence));
    assert!(!caps.contains(ovrHmdCap_NoVSync | ovrHmdCap_DisplayOff));
}

#[test]
fn remove_clears_bits() {
    let mut caps = ovrHmdCaps::from_bits_truncate(0x0280);
    caps.remove(ovrHmdCap_LowPersistence);
    assert_eq!(caps.bits(), 0x0200);
    caps.remove(ovrHmdCap_LowPersistence);
    assert_eq!(caps.bits(), 0x0200);
    caps.remove(0xFFFF_FFFF);
    assert!(caps.is_empty());
}

#[test]
fn insert_then_remove_leaves_the_rest() {
    let mut caps = ovrTrackingCaps::from_bits_truncate(ovrTrackingCap_Orientation);
    caps.insert(ovrTrackingCap_Position);
    caps.remove(ovrTrackingCap_Position);
    assert_eq!(caps.bits(), ovrTrackingCap_Orientation);
}

#[test]
fn union_joins_two_sets() {
    let a = ovrDistortionCaps::from_bits_truncate(ovrDistortionCap_TimeWarp);
    let b = ovrDistortionCaps::from_bits_truncate(ovrDistortionCap_Overdrive);
    assert_eq!(a.union(b).bits(), 0x82);
    assert_eq!(a.union(a).bits(), 0x02);
    let copy = a;
    assert_eq!(copy.bits(), a.bits());
    assert_eq!(a.clone().bits(), 0x02);
}

#[test]
fn layer_flags_take_head_locked() {
    let mut flags = ovrLayerFlags::empty();
    flags.insert(ovrLayerFlag_HeadLocked);
    assert_eq!(flags.bits(), 0x04);
}

#[test]
fn tracking_options_start_empty() {
    assert_eq!(TrackingOptions::new().bits(), 0);
}

#[test]
fn tracking_options_with_all_enables_three() {
    assert_eq!(TrackingOptions::with_all().bits(), 0x0070);
}

#[test]
fn tracking_options_chain() {
    let mut options = TrackingOptions::new();
    options.position();
    assert_eq!(options.bits(), 0x0040);
    options.orientation().mag_yaw_correct();
    assert_eq!(options.bits(), 0x0070);
    options.position();
    assert_eq!(options.bits(), 0x0070);
    let mut yaw = TrackingOptions::new();
    yaw.mag_yaw_correct();
    assert_eq!(yaw.bits(), 0x0020);
    let mut orientation = TrackingOptions::new();
    orientation.orientation();
    assert_eq!(orientation.bits(), 0x0010);
}
