use rovr::ffi::dynamic_lib::{Platform, UnsafeDynamicLibrary};
use rovr::ffi::table::{FunctionTable, NativeCall, NativeReply, Step};
use rovr::ffi::{
    ovrEyeRenderDesc, ovrFovPort, ovrGLConfig, ovrGLTexture, ovrHmdDesc, ovrMatrix4f, ovrPosef,
    ovrQuatf, ovrRecti, ovrSizei, ovrTextureHeader, ovrVector2f, ovrVector2i, ovrVector3f,
};
use rovr::render::{Frame, RenderContext, TextureBinding};
use rovr::shim::{
    self, CreateRenderContext, Fatal, FrameOpening, GlConfigBuilder, RenderSetup, Session,
};
use rovr::target::GlutinRenderTarget;
use rovr::{Eye, Hmd, OculusError};
use std::rc::Rc;

fn bits(values: [f32; 4]) -> ovrFovPort {
    ovrFovPort {
        UpTan: values[0].to_bits(),
        DownTan: values[1].to_bits(),
        LeftTan: values[2].to_bits(),
        RightTan: values[3].to_bits(),
    }
}

fn left_max() -> ovrFovPort {
    bits([1.33, 1.33, 1.06, 1.09])
}

fn right_max() -> ovrFovPort {
    bits([1.33, 1.33, 1.09, 1.06])
}

fn left_granted() -> ovrFovPort {
    bits([1.3, 1.3, 1.0, 1.05])
}

fn right_granted() -> ovrFovPort {
    bits([1.3, 1.3, 1.05, 1.0])
}

fn vector(x: f32, y: f32, z: f32) -> ovrVector3f {
    ovrVector3f { x: x.to_bits(), y: y.to_bits(), z: z.to_bits() }
}

fn session(caps: u32, order: [Eye; 2]) -> Session {
    Session {
        session: 0xC000,
        eye_offsets: [vector(-0.03, 0.0, 0.0), vector(0.03, 0.0, 0.0)],
        desc: ovrHmdDesc {
            Type: 6,
            HmdCaps: caps,
            TrackingCaps: 0,
            DistortionCaps: 0,
            DefaultEyeFov: [left_granted(), right_granted()],
            MaxEyeFov: [left_max(), right_max()],
            EyeRenderOrder: [order[0].index() as u32, order[1].index() as u32],
            Resolution: ovrSizei { w: 1920, h: 1080 },
            WindowsPos: ovrVector2i { x: 0, y: 0 },
            DisplayDeviceName: String::new(),
            DisplayId: 0,
        },
        render_order: order,
        context: Rc::new(shim::Context {
            function_table: FunctionTable { ptrs: [1; 26], lib: UnsafeDynamicLibrary { handle: 1 } },
        }),
    }
}

fn eye_desc(eye: u32, fov: ovrFovPort, offset: ovrVector3f) -> ovrEyeRenderDesc {
    ovrEyeRenderDesc {
        Eye: eye,
        Fov: fov,
        DistortedViewport: ovrRecti {
            Pos: ovrVector2i { x: 0, y: 0 },
            Size: ovrSizei { w: 0, h: 0 },
        },
        PixelsPerTanAngleAtCenter: ovrVector2f { x: 0, y: 0 },
        HmdToEyeViewOffset: offset,
    }
}

fn answer(call: NativeCall) -> NativeReply {
    answer_granting([left_granted(), right_granted()], call)
}

fn answer_granting(granted: [ovrFovPort; 2], call: NativeCall) -> NativeReply {
    match call {
        NativeCall::ConfigureRendering { .. } => NativeReply::RenderingConfigured {
            status: 1,
            eye_render_desc: [
                eye_desc(0, granted[0], vector(-0.0325, 0.0, 0.0)),
                eye_desc(1, granted[1], vector(0.0325, 0.0, 0.0)),
            ],
        },
        NativeCall::AttachToWindow { .. } => NativeReply::Status(1),
        NativeCall::GetFovTextureSize { eye: 0, .. } => {
            NativeReply::TextureSize(ovrSizei { w: 1182, h: 1461 })
        }
        NativeCall::GetFovTextureSize { .. } => {
            NativeReply::TextureSize(ovrSizei { w: 1183, h: 1462 })
        }
        _ => NativeReply::Nothing,
    }
}

fn configure<'a>(
    hmd: &'a Session,
    window: usize,
    platform: Platform,
) -> (Vec<NativeCall>, Result<RenderContext<'a>, OculusError>) {
    let mut calls = Vec::new();
    let mut step = RenderContext::configure(hmd, 4, window, platform);
    loop {
        match step {
            Step::Done(result) => return (calls, result),
            Step::Call(call, state) => {
                calls.push(call);
                step = state.resume(answer(call));
            }
        }
    }
}

fn texture(size: ovrSizei, id: u32) -> ovrGLTexture {
    ovrGLTexture {
        Header: ovrTextureHeader {
            API: 1,
            TextureSize: size,
            RenderViewport: ovrRecti { Pos: ovrVector2i { x: 0, y: 0 }, Size: size },
        },
        TexId: id,
    }
}

fn pose(seed: f32) -> ovrPosef {
    ovrPosef {
        Orientation: ovrQuatf {
            x: (seed + 0.1).to_bits(),
            y: (seed + 0.2).to_bits(),
            z: (seed + 0.3).to_bits(),
            w: (seed + 0.4).to_bits(),
        },
        Position: vector(seed + 1.0, seed + 2.0, seed + 3.0),
    }
}

fn begin<'a>(context: &mut RenderContext, binding: &'a TextureBinding) -> (Vec<NativeCall>, Frame<'a>) {
    let mut calls = Vec::new();
    let mut step = Frame::new(context, binding);
    loop {
        match step {
            Step::Done(result) => return (calls, result.unwrap()),
            Step::Call(call, state) => {
                calls.push(call);
                let reply = match call {
                    NativeCall::GetEyePoses { .. } => NativeReply::EyePoses([pose(10.0), pose(20.0)]),
                    _ => NativeReply::Nothing,
                };
                step = state.resume(reply);
            }
        }
    }
}

#[test]
fn gl_config_builder_sets_window_on_windows_only() {
    let mut builder = GlConfigBuilder::new(1920, 1080, 4);
    assert_eq!(
        builder.build(),
        ovrGLConfig {
            API: 1,
            BackBufferSize: ovrSizei { w: 1920, h: 1080 },
            Multisample: 4,
            Window: 0
        }
    );
    builder.native_window(Platform::Linux, 0x77);
    assert_eq!(builder.build().Window, 0);
    builder.native_window(Platform::MacOs, 0x77);
    assert_eq!(builder.build().Window, 0);
    let config = builder.native_window(Platform::Windows, 0x77).build();
    assert_eq!(config.Window, 0x77);
    assert_eq!(config.Multisample, 4);
    assert_eq!(builder.native_window(Platform::Linux, 0x99).build().Window, 0x77);
}

#[test]
fn gl_config_builder_wraps_large_sizes() {
    let builder = GlConfigBuilder::new(u32::MAX, 0x8000_0000, -1);
    assert_eq!(builder.build().BackBufferSize, ovrSizei { w: -1, h: i32::MIN });
    assert_eq!(builder.build().Multisample, -1);
}

#[test]
fn gl_config_defaults_to_zero() {
    let config: ovrGLConfig = Default::default();
    assert_eq!(
        config,
        ovrGLConfig {
            API: 0,
            BackBufferSize: ovrSizei { w: 0, h: 0 },
            Multisample: 0,
            Window: 0
        }
    );
}

#[test]
fn extended_mode_configures_without_attaching() {
    let hmd = session(0x0008, [Eye::Left, Eye::Right]);
    let (calls, result) = configure(&hmd, 0x1234, Platform::Windows);
    assert_eq!(
        calls,
        vec![
            NativeCall::ConfigureRendering {
                session: 0xC000,
                config: Some(ovrGLConfig {
                    API: 1,
                    BackBufferSize: ovrSizei { w: 1920, h: 1080 },
                    Multisample: 4,
                    Window: 0x1234
                }),
                distortion_caps: 0x82,
                fov: [left_max(), right_max()],
            },
            NativeCall::GetFovTextureSize {
                session: 0xC000,
                eye: 0,
                fov: left_max(),
                pixels_per_display_pixel: 1.0f32.to_bits()
            },
            NativeCall::GetFovTextureSize {
                session: 0xC000,
                eye: 1,
                fov: right_max(),
                pixels_per_display_pixel: 1.0f32.to_bits()
            },
        ]
    );
    let context = result.unwrap();
    assert_eq!(context.target_texture_size(&Eye::Left), (1182, 1461));
    assert_eq!(context.target_texture_size(&Eye::Right), (1183, 1462));
    assert_eq!(context.fov(&Eye::Left), left_granted());
    assert_eq!(context.fov(&Eye::Right), right_granted());
    assert_eq!(context.eye_offset(&Eye::Left), vector(-0.0325, 0.0, 0.0));
    assert_eq!(context.eye_offset(&Eye::Right), vector(0.0325, 0.0, 0.0));
    assert_eq!(context.session(), &hmd);
    assert!(!context.has_open_frame());
}

#[test]
fn direct_mode_attaches_to_the_window() {
    let hmd = session(0, [Eye::Left, Eye::Right]);
    let (calls, result) = configure(&hmd, 0x1234, Platform::Linux);
    assert_eq!(calls.len(), 4);
    match calls[0] {
        NativeCall::ConfigureRendering { config: Some(config), .. } => assert_eq!(config.Window, 0),
        other => panic!("{:?}", other),
    }
    assert_eq!(calls[1], NativeCall::AttachToWindow { session: 0xC000, window: 0x1234 });
    assert!(result.is_ok());
}

#[test]
fn failed_configuration_is_sdk_error() {
    let hmd = session(0, [Eye::Left, Eye::Right]);
    let state = RenderSetup::Configuring { owning_hmd: &hmd, native_window: 0 };
    let step = state.resume(NativeReply::RenderingConfigured {
        status: 0,
        eye_render_desc: [
            eye_desc(0, left_granted(), vector(0.0, 0.0, 0.0)),
            eye_desc(1, right_granted(), vector(0.0, 0.0, 0.0)),
        ],
    });
    assert_eq!(step, Step::Done(Err(OculusError::SdkError("ovrHmd_ConfigureRendering"))));
    let state = RenderSetup::Configuring { owning_hmd: &hmd, native_window: 0 };
    assert_eq!(
        state.resume(NativeReply::Status(1)),
        Step::Done(Err(OculusError::SdkError("ovrHmd_ConfigureRendering")))
    );
}

#[test]
fn failed_attach_is_sdk_error() {
    let hmd = session(0, [Eye::Left, Eye::Right]);
    let descs = [
        eye_desc(0, left_granted(), vector(0.0, 0.0, 0.0)),
        eye_desc(1, right_granted(), vector(0.0, 0.0, 0.0)),
    ];
    let state = RenderSetup::Attaching { owning_hmd: &hmd, eye_render_desc: descs };
    assert_eq!(
        state.resume(NativeReply::Status(0)),
        Step::Done(Err(OculusError::SdkError("ovrHmd_AttachToWindow")))
    );
    let state = RenderSetup::Attaching { owning_hmd: &hmd, eye_render_desc: descs };
    assert_eq!(
        state.resume(NativeReply::Nothing),
        Step::Done(Err(OculusError::SdkError("ovrHmd_AttachToWindow")))
    );
}

#[test]
fn foreign_reply_while_sizing_is_sdk_error() {
    let hmd = session(0, [Eye::Left, Eye::Right]);
    let descs = [
        eye_desc(0, left_granted(), vector(0.0, 0.0, 0.0)),
        eye_desc(1, right_granted(), vector(0.0, 0.0, 0.0)),
    ];
    let state = RenderSetup::SizingLeft { owning_hmd: &hmd, eye_render_desc: descs };
    assert_eq!(
        state.resume(NativeReply::Nothing),
        Step::Done(Err(OculusError::SdkError("ovr_GetFovTextureSize")))
    );
    let state = RenderSetup::SizingRight {
        owning_hmd: &hmd,
        eye_render_desc: descs,
        left: ovrSizei { w: 1, h: 1 },
    };
    assert_eq!(
        state.resume(NativeReply::Status(1)),
        Step::Done(Err(OculusError::SdkError("ovr_GetFovTextureSize")))
    );
}

#[test]
fn render_target_supplies_samples_and_window() {
    let hmd = session(0x0008, [Eye::Left, Eye::Right]);
    let target = GlutinRenderTarget::new(0x4242, 8, Platform::Windows);
    match RenderContext::new(&hmd, &target, Platform::Windows) {
        Step::Call(NativeCall::ConfigureRendering { config: Some(config), .. }, state) => {
            assert_eq!(config.Multisample, 8);
            assert_eq!(config.Window, 0x4242);
            assert_eq!(state, RenderSetup::Configuring { owning_hmd: &hmd, native_window: 0x4242 });
        }
        other => panic!("{:?}", other),
    }
    let facade = Hmd { shim_hmd: session(0x0008, [Eye::Left, Eye::Right]) };
    match facade.render_to(&target, Platform::Windows) {
        Step::Call(NativeCall::ConfigureRendering { config: Some(config), .. }, _) => {
            assert_eq!(config.Multisample, 8);
            assert_eq!(config.BackBufferSize, ovrSizei { w: 1920, h: 1080 });
        }
        other => panic!("{:?}", other),
    }
}

#[test]
fn target_texture_size_is_per_eye() {
    let hmd = session(0x0008, [Eye::Left, Eye::Right]);
    let context = configure(&hmd, 0, Platform::Linux).1.unwrap();
    assert_eq!(context.target_texture_size(&Eye::Left), (1182, 1461));
    assert_eq!(context.target_texture_size(&Eye::Right), (1183, 1462));
}

#[test]
fn target_texture_size_is_stable_across_frames() {
    let hmd = session(0x0008, [Eye::Left, Eye::Right]);
    let mut context = configure(&hmd, 0, Platform::Linux).1.unwrap();
    let binding = context.create_binding(1, 2);
    let before = (context.target_texture_size(&Eye::Left), context.target_texture_size(&Eye::Right));
    for _ in 0..3 {
        let (_, frame) = begin(&mut context, &binding);
        assert_eq!(context.target_texture_size(&Eye::Left), before.0);
        assert_eq!(context.target_texture_size(&Eye::Right), before.1);
        assert!(matches!(
            Frame::new(&mut context, &binding),
            Step::Done(Err(OculusError::FrameInProgress))
        ));
        assert_eq!(context.target_texture_size(&Eye::Left), before.0);
        context.end_frame(frame);
        assert_eq!(context.target_texture_size(&Eye::Left), before.0);
        assert_eq!(context.target_texture_size(&Eye::Right), before.1);
    }
}

#[test]
fn projection_asks_with_the_granted_fov() {
    let hmd = session(0x0008, [Eye::Left, Eye::Right]);
    let context = configure(&hmd, 0, Platform::Linux).1.unwrap();
    let near = 0.2f32.to_bits();
    let far = 1000.0f32.to_bits();
    match context.projection_matrix(&Eye::Left, near, far) {
        Step::Call(call, _) => assert_eq!(
            call,
            NativeCall::Projection { fov: left_granted(), znear: near, zfar: far, flags: 0x09 }
        ),
        other => panic!("{:?}", other),
    }
    match context.projection_matrix(&Eye::Right, near, far) {
        Step::Call(call, _) => assert_eq!(
            call,
            NativeCall::Projection { fov: right_granted(), znear: near, zfar: far, flags: 0x09 }
        ),
        other => panic!("{:?}", other),
    }
}

#[test]
fn projection_does_not_depend_on_the_eye_label() {
    let hmd = session(0x0008, [Eye::Left, Eye::Right]);
    let context = configure(&hmd, 0, Platform::Linux).1.unwrap();
    let mut step = RenderContext::configure(&hmd, 4, 0, Platform::Linux);
    let swapped = loop {
        match step {
            Step::Done(result) => break result.unwrap(),
            Step::Call(call, state) => {
                step = state.resume(answer_granting([right_granted(), left_granted()], call))
            }
        }
    };
    assert_eq!(swapped.fov(&Eye::Left), context.fov(&Eye::Right));
    let near = 0.1f32.to_bits();
    let far = 50.0f32.to_bits();
    assert_eq!(
        context.projection_matrix(&Eye::Left, near, far),
        swapped.projection_matrix(&Eye::Right, near, far)
    );
    assert_eq!(
        context.projection_matrix(&Eye::Right, near, far),
        swapped.projection_matrix(&Eye::Left, near, far)
    );
}

#[test]
fn projection_is_returned_column_major() {
    let hmd = session(0x0008, [Eye::Left, Eye::Right]);
    let context = configure(&hmd, 0, Platform::Linux).1.unwrap();
    let mut rows = [[0u32; 4]; 4];
    for row in 0..4 {
        for col in 0..4 {
            rows[row][col] = ((row * 10 + col) as f32).to_bits();
        }
    }
    let pending = match context.projection_matrix(&Eye::Left, 0, 0) {
        Step::Call(_, pending) => pending,
        other => panic!("{:?}", other),
    };
    let matrix = match pending.resume(NativeReply::Matrix(ovrMatrix4f { M: rows })) {
        Step::Done(Ok(matrix)) => matrix,
        other => panic!("{:?}", other),
    };
    for row in 0..4 {
        for col in 0..4 {
            assert_eq!(f32::from_bits(matrix[col][row]), (row * 10 + col) as f32);
        }
    }
    assert_eq!(f32::from_bits(matrix[0][3]), 30.0);
    assert_eq!(f32::from_bits(matrix[3][0]), 3.0);
    assert_eq!(shim::column_major(&ovrMatrix4f { M: matrix }), rows);
    assert_eq!(
        pending.resume(NativeReply::Nothing),
        Step::Done(Err(OculusError::SdkError("ovrMatrix4f_Projection")))
    );
}

#[test]
fn identity_matrix_is_the_default() {
    let identity: ovrMatrix4f = Default::default();
    for row in 0..4 {
        for col in 0..4 {
            let expected = if row == col { 1.0 } else { 0.0 };
            assert_eq!(f32::from_bits(identity.M[row][col]), expected);
        }
    }
    assert_eq!(shim::column_major(&identity), identity.M);
}

#[test]
fn binding_round_trips_sizes_and_ids() {
    let left = ovrSizei { w: 1182, h: 1461 };
    let right = ovrSizei { w: 640, h: 480 };
    let binding = TextureBinding::new((left, 17), (right, 23));
    assert_eq!(binding.textures, [texture(left, 17), texture(right, 23)]);
    assert_eq!(binding.texture_size(&Eye::Left), left);
    assert_eq!(binding.texture_size(&Eye::Right), right);
    assert_eq!(binding.viewport(&Eye::Left).Pos, ovrVector2i { x: 0, y: 0 });
    assert_eq!(binding.viewport(&Eye::Left).Size, left);
    assert_eq!(binding.viewport(&Eye::Right).Pos, ovrVector2i { x: 0, y: 0 });
    assert_eq!(binding.viewport(&Eye::Right).Size, right);
    assert_eq!(binding.texture_id(&Eye::Left), 17);
    assert_eq!(binding.texture_id(&Eye::Right), 23);
}

#[test]
fn binding_keeps_degenerate_sizes() {
    let odd = ovrSizei { w: -5, h: 0 };
    let binding = TextureBinding::new((odd, 0), (odd, u32::MAX));
    assert_eq!(binding.viewport(&Eye::Left).Size, odd);
    assert_eq!(binding.texture_size(&Eye::Right), odd);
    assert_eq!(binding.texture_id(&Eye::Right), u32::MAX);
}

#[test]
fn zeroed_texture_is_the_default() {
    let zero: ovrGLTexture = Default::default();
    assert_eq!(
        zero,
        ovrGLTexture {
            Header: ovrTextureHeader {
                API: 0,
                TextureSize: ovrSizei { w: 0, h: 0 },
                RenderViewport: ovrRecti {
                    Pos: ovrVector2i { x: 0, y: 0 },
                    Size: ovrSizei { w: 0, h: 0 }
                }
            },
            TexId: 0
        }
    );
}

#[test]
fn create_binding_uses_the_suggested_sizes() {
    let hmd = session(0x0008, [Eye::Left, Eye::Right]);
    let context = configure(&hmd, 0, Platform::Linux).1.unwrap();
    let binding = context.create_binding(5, 6);
    assert_eq!(
        binding,
        TextureBinding::new(
            (ovrSizei { w: 1182, h: 1461 }, 5),
            (ovrSizei { w: 1183, h: 1462 }, 6)
        )
    );
}

#[test]
fn frame_begins_and_reads_poses() {
    let hmd = session(0x0008, [Eye::Left, Eye::Right]);
    let mut context = configure(&hmd, 0, Platform::Linux).1.unwrap();
    let binding = context.create_binding(5, 6);
    let (calls, frame) = begin(&mut context, &binding);
    assert_eq!(
        calls,
        vec![
            NativeCall::BeginFrame { session: 0xC000, frame_index: 0 },
            NativeCall::GetEyePoses {
                session: 0xC000,
                frame_index: 0,
                offsets: [vector(-0.0325, 0.0, 0.0), vector(0.0325, 0.0, 0.0)]
            },
        ]
    );
    assert!(context.has_open_frame());
    assert_eq!(frame.poses, [pose(10.0), pose(20.0)]);
    assert_eq!(frame.textures, &binding);
}

#[test]
fn second_frame_is_refused_while_the_first_is_open() {
    let hmd = session(0x0008, [Eye::Left, Eye::Right]);
    let mut context = configure(&hmd, 0, Platform::Linux).1.unwrap();
    let binding = context.create_binding(5, 6);
    let other = context.create_binding(7, 8);
    let (_, frame) = begin(&mut context, &binding);
    let before = format!("{:?}", context);
    assert!(context.has_open_frame());
    assert_eq!(Frame::new(&mut context, &other), Step::Done(Err(OculusError::FrameInProgress)));
    assert_eq!(Frame::new(&mut context, &binding), Step::Done(Err(OculusError::FrameInProgress)));
    assert_eq!(format!("{:?}", context), before);
    assert!(context.has_open_frame());
    assert_eq!(frame.textures, &binding);
    let call = context.end_frame(frame);
    assert_eq!(
        call,
        Some(NativeCall::EndFrame {
            session: 0xC000,
            poses: [pose(10.0), pose(20.0)],
            textures: binding.textures
        })
    );
    assert!(!context.has_open_frame());
    let (calls, _) = begin(&mut context, &other);
    assert_eq!(calls.len(), 2);
}

#[test]
fn end_frame_without_open_frame_makes_no_call() {
    let hmd = session(0x0008, [Eye::Left, Eye::Right]);
    let mut context = configure(&hmd, 0, Platform::Linux).1.unwrap();
    let binding = context.create_binding(5, 6);
    let (_, frame) = begin(&mut context, &binding);
    let stray = Frame { poses: frame.poses, textures: frame.textures, render_order: frame.render_order };
    assert!(context.end_frame(frame).is_some());
    assert_eq!(context.end_frame(stray), None);
    assert!(!context.has_open_frame());
}

#[test]
fn missing_poses_stay_at_zero() {
    let binding = TextureBinding::new((ovrSizei { w: 1, h: 1 }, 1), (ovrSizei { w: 1, h: 1 }, 2));
    let state = FrameOpening::Posing { render_order: [Eye::Left, Eye::Right], textures: &binding };
    let zero: ovrPosef = Default::default();
    match state.resume(NativeReply::Nothing) {
        Step::Done(Ok(frame)) => assert_eq!(frame.poses, [zero, zero]),
        other => panic!("{:?}", other),
    }
    assert_eq!(zero.Orientation, ovrQuatf { x: 0, y: 0, z: 0, w: 0 });
    assert_eq!(zero.Position, ovrVector3f { x: 0, y: 0, z: 0 });
}

#[test]
fn eye_poses_follow_the_render_order() {
    let hmd = session(0x0008, [Eye::Right, Eye::Left]);
    let mut context = configure(&hmd, 0, Platform::Linux).1.unwrap();
    let binding = context.create_binding(5, 6);
    let (_, frame) = begin(&mut context, &binding);
    let poses = frame.eye_poses();
    assert_eq!(poses.len(), 2);
    assert_eq!(poses[0].eye, Eye::Right);
    assert_eq!(poses[1].eye, Eye::Left);
    assert_eq!(f32::from_bits(poses[0].orientation.0), 20.4);
    assert_eq!(
        poses[0].orientation.1.map(f32::from_bits),
        [20.1, 20.2, 20.3]
    );
    assert_eq!(poses[0].position.map(f32::from_bits), [21.0, 22.0, 23.0]);
    assert_eq!(f32::from_bits(poses[1].orientation.0), 10.4);
    assert_eq!(poses[1].orientation.1.map(f32::from_bits), [10.1, 10.2, 10.3]);
    assert_eq!(poses[1].position.map(f32::from_bits), [11.0, 12.0, 13.0]);
}

#[test]
fn eye_poses_in_index_order() {
    let hmd = session(0x0008, [Eye::Left, Eye::Right]);
    let mut context = configure(&hmd, 0, Platform::Linux).1.unwrap();
    let binding = context.create_binding(5, 6);
    let (_, frame) = begin(&mut context, &binding);
    let poses = frame.eye_poses();
    assert_eq!(poses[0].eye, Eye::Left);
    assert_eq!(poses[0].position.map(f32::from_bits), [11.0, 12.0, 13.0]);
    assert_eq!(poses[1].eye, Eye::Right);
    assert_eq!(poses[1].position.map(f32::from_bits), [21.0, 22.0, 23.0]);
}

#[test]
fn context_forwards_single_calls() {
    let hmd = session(0x0008, [Eye::Left, Eye::Right]);
    let context = configure(&hmd, 0, Platform::Linux).1.unwrap();
    assert_eq!(context.dismiss_hsw(), NativeCall::DismissHSWDisplay { session: 0xC000 });
    assert_eq!(context.recenter_pose(), NativeCall::RecenterPose { session: 0xC000 });
}

#[test]
fn closing_reverses_the_configuration() {
    let hmd = session(0x0008, [Eye::Left, Eye::Right]);
    let context = configure(&hmd, 0, Platform::Linux).1.unwrap();
    let (call, pending) = match context.close() {
        Step::Call(call, pending) => (call, pending),
        other => panic!("{:?}", other),
    };
    assert_eq!(
        call,
        NativeCall::ConfigureRendering {
            session: 0xC000,
            config: None,
            distortion_caps: 0,
            fov: [left_max(), right_max()]
        }
    );
    let descs = [
        eye_desc(0, left_granted(), vector(0.0, 0.0, 0.0)),
        eye_desc(1, right_granted(), vector(0.0, 0.0, 0.0)),
    ];
    assert_eq!(
        pending.resume(NativeReply::RenderingConfigured { status: 1, eye_render_desc: descs }),
        Step::Done(Ok(()))
    );
    assert_eq!(
        pending.resume(NativeReply::RenderingConfigured { status: 0, eye_render_desc: descs }),
        Step::Done(Err(Fatal::RenderingNotReversed))
    );
    assert_eq!(
        pending.resume(NativeReply::Status(1)),
        Step::Done(Err(Fatal::RenderingNotReversed))
    );
}
