use rovr::ffi::dynamic_lib::{Platform, UnsafeDynamicLibrary};
use rovr::ffi::flags::{
    ovrHmdCap_DebugDevice, ovrHmdCap_ExtendDesktop, ovrHmdCap_LowPersistence,
    ovrTrackingCap_Orientation, ovrTrackingCap_Position,
};
use rovr::ffi::table::{FunctionTable, NativeCall, NativeReply, Step, Symbol};
use rovr::ffi::{
    ovrDetectResult, ovrEyeRenderDesc, ovrFovPort, ovrGraphicsLuid, ovrHmdCaps, ovrHmdDesc,
    ovrHmd_DK2, ovrRecti, ovrSizei, ovrTrackingCaps, ovrVector2f, ovrVector2i, ovrVector3f,
};
use rovr::shim::{self, HmdDisplayId, Session, SessionOpening, StatusPending};
use rovr::{Eye, OculusError};
use std::rc::Rc;

fn context() -> Rc<shim::Context> {
    Rc::new(shim::Context {
        function_table: FunctionTable { ptrs: [7; 26], lib: UnsafeDynamicLibrary { handle: 0x5000 } },
    })
}

fn fov(seed: f32) -> ovrFovPort {
    ovrFovPort {
        UpTan: seed.to_bits(),
        DownTan: (seed + 0.25).to_bits(),
        LeftTan: (seed + 0.5).to_bits(),
        RightTan: (seed + 0.75).to_bits(),
    }
}

fn vector(x: f32, y: f32, z: f32) -> ovrVector3f {
    ovrVector3f { x: x.to_bits(), y: y.to_bits(), z: z.to_bits() }
}

fn desc(caps: u32, order: [u32; 2]) -> ovrHmdDesc {
    ovrHmdDesc {
        Type: ovrHmd_DK2,
        HmdCaps: caps,
        TrackingCaps: 0x70,
        DistortionCaps: 0x82,
        DefaultEyeFov: [fov(1.0), fov(2.0)],
        MaxEyeFov: [fov(3.0), fov(4.0)],
        EyeRenderOrder: order,
        Resolution: ovrSizei { w: 1920, h: 1080 },
        WindowsPos: ovrVector2i { x: 2560, y: -40 },
        DisplayDeviceName: "\\\\.\\DISPLAY3".to_string(),
        DisplayId: 724,
    }
}

fn render_desc(eye: u32, offset: ovrVector3f) -> ovrEyeRenderDesc {
    ovrEyeRenderDesc {
        Eye: eye,
        Fov: fov(5.0 + eye as f32),
        DistortedViewport: ovrRecti {
            Pos: ovrVector2i { x: 0, y: 0 },
            Size: ovrSizei { w: 960, h: 1080 },
        },
        PixelsPerTanAngleAtCenter: ovrVector2f { x: 0, y: 0 },
        HmdToEyeViewOffset: offset,
    }
}

/// A platform with or without a headset. Without one it backs sessions
/// with a simulated headset if `debug` is set.
fn platform(connected: bool, debug: bool, call: NativeCall) -> NativeReply {
    match call {
        NativeCall::Detect { .. } => NativeReply::Detected(ovrDetectResult {
            IsOculusServiceRunning: 1,
            IsOculusHMDConnected: if connected { 1 } else { 0 },
        }),
        NativeCall::Create => {
            if connected || debug {
                NativeReply::Created {
                    status: 1,
                    session: 0xA000,
                    luid: ovrGraphicsLuid { Reserved: [0; 8] },
                }
            } else {
                NativeReply::Created {
                    status: -3000,
                    session: 0,
                    luid: ovrGraphicsLuid { Reserved: [0; 8] },
                }
            }
        }
        NativeCall::GetHmdDesc { .. } => NativeReply::HmdDesc(desc(
            if connected { ovrHmdCap_ExtendDesktop } else { ovrHmdCap_DebugDevice },
            [1, 0],
        )),
        NativeCall::GetRenderDesc { eye, .. } => NativeReply::RenderDesc(render_desc(
            eye as u32,
            if eye == 0 { vector(-0.032, 0.0, 0.0) } else { vector(0.032, 0.0, 0.0) },
        )),
        _ => NativeReply::Nothing,
    }
}

fn open(
    require_headset: bool,
    connected: bool,
    debug: bool,
) -> (Vec<NativeCall>, Result<Session, OculusError>) {
    let mut calls = Vec::new();
    let mut step = Session::new(require_headset, context());
    loop {
        match step {
            Step::Done(result) => return (calls, result),
            Step::Call(call, state) => {
                calls.push(call);
                step = state.resume(platform(connected, debug, call));
            }
        }
    }
}

#[test]
fn optional_headset_falls_back_to_debug_device() {
    let (calls, result) = open(false, false, true);
    assert_eq!(
        calls,
        vec![
            NativeCall::Create,
            NativeCall::GetHmdDesc { session: 0xA000 },
            NativeCall::GetRenderDesc { session: 0xA000, eye: 0, fov: fov(1.0) },
            NativeCall::GetRenderDesc { session: 0xA000, eye: 1, fov: fov(2.0) },
        ]
    );
    let session = result.unwrap();
    assert!(session.is_debug());
    assert_eq!(session.session, 0xA000);
    assert_eq!(session.desc.Type, ovrHmd_DK2);
}

#[test]
fn required_headset_that_is_absent_is_no_device_found() {
    let (calls, result) = open(true, false, true);
    assert_eq!(calls, vec![NativeCall::Detect { timeout_ms: 0 }]);
    assert_eq!(result, Err(OculusError::NoDeviceFound));
}

#[test]
fn required_headset_that_is_present_opens() {
    let (calls, result) = open(true, true, false);
    assert_eq!(calls.len(), 5);
    assert_eq!(calls[0], NativeCall::Detect { timeout_ms: 0 });
    assert_eq!(calls[1], NativeCall::Create);
    let session = result.unwrap();
    assert!(!session.is_debug());
    assert_eq!(session.eye_offsets, [vector(-0.032, 0.0, 0.0), vector(0.032, 0.0, 0.0)]);
    assert_eq!(session.render_order, [Eye::Right, Eye::Left]);
    assert_eq!(session.context, context());
}

#[test]
fn optional_headset_without_fallback_is_sdk_error() {
    let (calls, result) = open(false, false, false);
    assert_eq!(calls, vec![NativeCall::Create]);
    assert_eq!(result, Err(OculusError::SdkError("ovr_Create")));
}

#[test]
fn create_with_status_zero_fails() {
    let state = SessionOpening::Creating { context: context() };
    let step = state.resume(NativeReply::Created {
        status: 0,
        session: 0xA000,
        luid: ovrGraphicsLuid { Reserved: [0; 8] },
    });
    assert_eq!(step, Step::Done(Err(OculusError::SdkError("ovr_Create"))));
}

#[test]
fn foreign_reply_to_detect_fails() {
    let state = SessionOpening::Probing { context: context() };
    assert_eq!(
        state.resume(NativeReply::Status(1)),
        Step::Done(Err(OculusError::SdkError("ovr_Detect")))
    );
}

#[test]
fn service_without_headset_is_no_device() {
    let state = SessionOpening::Probing { context: context() };
    let step = state.resume(NativeReply::Detected(ovrDetectResult {
        IsOculusServiceRunning: 1,
        IsOculusHMDConnected: 2,
    }));
    assert_eq!(step, Step::Done(Err(OculusError::NoDeviceFound)));
}

#[test]
fn render_order_must_name_eyes() {
    assert_eq!(shim::render_order(&[0, 1]), Some([Eye::Left, Eye::Right]));
    assert_eq!(shim::render_order(&[1, 0]), Some([Eye::Right, Eye::Left]));
    assert_eq!(shim::render_order(&[0, 0]), Some([Eye::Left, Eye::Left]));
    assert_eq!(shim::render_order(&[2, 0]), None);
    assert_eq!(shim::render_order(&[0, u32::MAX]), None);
}

#[test]
fn description_with_a_third_eye_destroys_the_session() {
    let state = SessionOpening::Describing { context: context(), session: 0xA000 };
    let step = state.resume(NativeReply::HmdDesc(desc(0, [0, 2])));
    let state = match step {
        Step::Call(NativeCall::Destroy { session: 0xA000 }, state) => state,
        other => panic!("{:?}", other),
    };
    assert_eq!(
        state,
        SessionOpening::Destroying { error: OculusError::SdkError("ovr_GetHmdDesc") }
    );
    assert_eq!(
        state.resume(NativeReply::Nothing),
        Step::Done(Err(OculusError::SdkError("ovr_GetHmdDesc")))
    );
}

#[test]
fn foreign_reply_while_measuring_destroys_the_session() {
    let state = SessionOpening::MeasuringLeft {
        context: context(),
        session: 0xA000,
        desc: desc(0, [0, 1]),
        render_order: [Eye::Left, Eye::Right],
    };
    match state.resume(NativeReply::Nothing) {
        Step::Call(NativeCall::Destroy { session: 0xA000 }, SessionOpening::Destroying { error }) => {
            assert_eq!(error, OculusError::SdkError("ovr_GetRenderDesc"))
        }
        other => panic!("{:?}", other),
    }
    let state = SessionOpening::MeasuringRight {
        context: context(),
        session: 0xA000,
        desc: desc(0, [0, 1]),
        render_order: [Eye::Left, Eye::Right],
        left_offset: vector(1.0, 2.0, 3.0),
    };
    match state.resume(NativeReply::TextureSize(ovrSizei { w: 1, h: 1 })) {
        Step::Call(NativeCall::Destroy { session: 0xA000 }, _) => {}
        other => panic!("{:?}", other),
    }
}

#[test]
fn configure_tracking_with_empty_set_calls_with_no_bits() {
    let session = open(false, true, false).1.unwrap();
    let step = session.configure_tracking(ovrTrackingCaps::empty());
    assert_eq!(
        step,
        Step::Call(
            NativeCall::ConfigureTracking { session: 0xA000, supported: 0, required: 0 },
            StatusPending { entry: Symbol::ConfigureTracking }
        )
    );
    match step {
        Step::Call(_, pending) => {
            assert_eq!(pending.resume(NativeReply::Status(1)), Step::Done(Ok(())))
        }
        other => panic!("{:?}", other),
    }
}

#[test]
fn configure_tracking_passes_caps_as_supported() {
    let session = open(false, true, false).1.unwrap();
    let caps = ovrTrackingCaps::from_bits_truncate(ovrTrackingCap_Orientation | ovrTrackingCap_Position);
    match session.configure_tracking(caps) {
        Step::Call(call, pending) => {
            assert_eq!(
                call,
                NativeCall::ConfigureTracking { session: 0xA000, supported: 0x50, required: 0 }
            );
            assert_eq!(
                pending.resume(NativeReply::Status(0)),
                Step::Done(Err(OculusError::SdkError("ovr_ConfigureTracking")))
            );
        }
        other => panic!("{:?}", other),
    }
    match session.configure_tracking(caps) {
        Step::Call(_, pending) => assert_eq!(
            pending.resume(NativeReply::Nothing),
            Step::Done(Err(OculusError::SdkError("ovr_ConfigureTracking")))
        ),
        other => panic!("{:?}", other),
    }
}

#[test]
fn status_pending_names_its_entry() {
    let pending = StatusPending { entry: Symbol::AttachToWindow };
    assert_eq!(pending.resume(NativeReply::Status(1000)), Step::Done(Ok(())));
    assert_eq!(
        pending.resume(NativeReply::Status(-1)),
        Step::Done(Err(OculusError::SdkError("ovrHmd_AttachToWindow")))
    );
}

#[test]
fn single_calls_name_the_session() {
    let session = open(false, true, false).1.unwrap();
    assert_eq!(session.recenter_pose(), NativeCall::RecenterPose { session: 0xA000 });
    assert_eq!(session.dismiss_hsw(), NativeCall::DismissHSWDisplay { session: 0xA000 });
    let caps = ovrHmdCaps::from_bits_truncate(ovrHmdCap_LowPersistence | 0x0020);
    assert_eq!(
        session.set_caps(caps),
        NativeCall::SetEnabledCaps { session: 0xA000, caps: 0x0080 }
    );
    assert_eq!(session.close(), NativeCall::Destroy { session: 0xA000 });
}

#[test]
fn resolution_is_the_descriptions() {
    let session = open(false, true, false).1.unwrap();
    assert_eq!(session.resolution(), (1920, 1080));
}

#[test]
fn negative_resolution_wraps() {
    let mut session = open(false, true, false).1.unwrap();
    session.desc.Resolution = ovrSizei { w: -1, h: i32::MIN };
    assert_eq!(session.resolution(), (u32::MAX, 0x8000_0000));
}

#[test]
fn extended_desktop_is_not_direct() {
    let extended = open(true, true, false).1.unwrap();
    assert!(!extended.is_direct());
    let direct = open(false, false, true).1.unwrap();
    assert!(direct.is_direct());
}

#[test]
fn display_identity_depends_on_the_platform() {
    let session = open(false, true, false).1.unwrap();
    let windows = session.get_display(Platform::Windows);
    assert_eq!(windows.id, HmdDisplayId::Name("\\\\.\\DISPLAY3".to_string()));
    assert_eq!((windows.x, windows.y, windows.width, windows.height), (2560, -40, 1920, 1080));
    let mac = session.get_display(Platform::MacOs);
    assert_eq!(mac.id, HmdDisplayId::Numeric(724));
    assert_eq!((mac.x, mac.y, mac.width, mac.height), (2560, -40, 1920, 1080));
    let linux = session.get_display(Platform::Linux);
    assert_eq!(linux.id, HmdDisplayId::Unavailable);
}

#[test]
fn eyes_have_indices() {
    assert_eq!(Eye::Left.index(), 0);
    assert_eq!(Eye::Right.index(), 1);
    assert_eq!(Eye::from_index(0), Some(Eye::Left));
    assert_eq!(Eye::from_index(1), Some(Eye::Right));
    assert_eq!(Eye::from_index(2), None);
}
