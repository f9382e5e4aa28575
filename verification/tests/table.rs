use rovr::ffi::dynamic_lib::UnsafeDynamicLibrary;
use rovr::ffi::table::{
    FunctionTable, NativeCall, NativeReply, Step, Symbol, TableLoading, SYMBOL_COUNT,
};
use rovr::ffi::ovrFovPort;
use rovr::OculusError;

type Loading = Step<TableLoading, Result<FunctionTable, (OculusError, UnsafeDynamicLibrary)>>;

fn load_with(answer: &dyn Fn(usize, Symbol) -> NativeReply) -> (Vec<Symbol>, Loading) {
    let mut asked = Vec::new();
    let mut step = FunctionTable::load(UnsafeDynamicLibrary { handle: 0x7000 });
    loop {
        match step {
            Step::Call(NativeCall::ResolveSymbol { library, symbol }, state) => {
                assert_eq!(library, 0x7000);
                let reply = answer(asked.len(), symbol);
                asked.push(symbol);
                step = state.resume(reply);
            }
            other => return (asked, other),
        }
    }
}

#[test]
fn table_has_twenty_six_entries() {
    assert_eq!(SYMBOL_COUNT, 26);
    assert_eq!(Symbol::at(26), None);
    assert_eq!(Symbol::at(usize::MAX), None);
    for index in 0..SYMBOL_COUNT {
        let symbol = Symbol::at(index).unwrap();
        assert_eq!(symbol.index(), index);
    }
}

#[test]
fn symbols_have_their_exported_names() {
    assert_eq!(Symbol::at(0), Some(Symbol::Detect));
    assert_eq!(Symbol::Detect.name(), "ovr_Detect");
    assert_eq!(Symbol::Initialize.name(), "ovr_Initialize");
    assert_eq!(Symbol::Shutdown.name(), "ovr_Shutdown");
    assert_eq!(Symbol::Create.name(), "ovr_Create");
    assert_eq!(Symbol::Destroy.name(), "ovr_Destroy");
    assert_eq!(Symbol::GetHmdDesc.name(), "ovr_GetHmdDesc");
    assert_eq!(Symbol::ConfigureTracking.name(), "ovr_ConfigureTracking");
    assert_eq!(Symbol::RecenterPose.name(), "ovr_RecenterPose");
    assert_eq!(Symbol::GetFovTextureSize.name(), "ovr_GetFovTextureSize");
    assert_eq!(Symbol::GetRenderDesc.name(), "ovr_GetRenderDesc");
    assert_eq!(Symbol::CreateMirrorTextureGL.name(), "ovr_CreateMirrorTextureGL");
    assert_eq!(Symbol::DestroyMirrorTexture.name(), "ovr_DestroyMirrorTexture");
    assert_eq!(Symbol::CreateSwapTextureSetGL.name(), "ovr_CreateSwapTextureSetGL");
    assert_eq!(Symbol::DestroySwapTextureSet.name(), "ovr_DestroySwapTextureSet");
    assert_eq!(Symbol::GetPredictedDisplayTime.name(), "ovr_GetPredictedDisplayTime");
    assert_eq!(Symbol::GetTrackingState.name(), "ovr_GetTrackingState");
    assert_eq!(Symbol::CalcEyePoses.name(), "ovr_CalcEyePoses");
    assert_eq!(Symbol::SubmitFrame.name(), "ovr_SubmitFrame");
    assert_eq!(Symbol::Projection.name(), "ovrMatrix4f_Projection");
    assert_eq!(Symbol::SetEnabledCaps.name(), "ovrHmd_SetEnabledCaps");
    assert_eq!(Symbol::ConfigureRendering.name(), "ovrHmd_ConfigureRendering");
    assert_eq!(Symbol::AttachToWindow.name(), "ovrHmd_AttachToWindow");
    assert_eq!(Symbol::BeginFrame.name(), "ovrHmd_BeginFrame");
    assert_eq!(Symbol::GetEyePoses.name(), "ovrHmd_GetEyePoses");
    assert_eq!(Symbol::EndFrame.name(), "ovrHmd_EndFrame");
    assert_eq!(Symbol::DismissHSWDisplay.name(), "ovrHmd_DismissHSWDisplay");
    assert_eq!(Symbol::DismissHSWDisplay.index(), 25);
}

#[test]
fn symbol_names_are_distinct() {
    for a in 0..SYMBOL_COUNT {
        for b in 0..a {
            assert_ne!(Symbol::at(a).unwrap().name(), Symbol::at(b).unwrap().name());
        }
    }
}

#[test]
fn calls_name_their_entry_point() {
    assert_eq!(NativeCall::LoadLibrary { library: None }.entry(), None);
    assert_eq!(
        NativeCall::ResolveSymbol { library: 1, symbol: Symbol::Create }.entry(),
        None
    );
    assert_eq!(NativeCall::UnloadLibrary { library: 1 }.entry(), None);
    assert_eq!(NativeCall::Detect { timeout_ms: 0 }.entry(), Some(Symbol::Detect));
    assert_eq!(NativeCall::Shutdown.entry(), Some(Symbol::Shutdown));
    assert_eq!(NativeCall::Create.entry(), Some(Symbol::Create));
    assert_eq!(NativeCall::Destroy { session: 3 }.entry(), Some(Symbol::Destroy));
    assert_eq!(NativeCall::BeginFrame { session: 3, frame_index: 0 }.entry(), Some(Symbol::BeginFrame));
    let fov = ovrFovPort { UpTan: 0, DownTan: 0, LeftTan: 0, RightTan: 0 };
    assert_eq!(
        NativeCall::Projection { fov, znear: 0, zfar: 0, flags: 9 }.entry(),
        Some(Symbol::Projection)
    );
}

#[test]
fn replies_report_their_status() {
    assert_eq!(NativeReply::Status(-7).status(), Some(-7));
    assert_eq!(NativeReply::Nothing.status(), None);
    assert_eq!(
        NativeReply::SwapTextureSet { status: 1, texture_set: 4, textures: vec![9], current: 0 }
            .status(),
        Some(1)
    );
    assert_eq!(NativeReply::Loaded(Ok(5)).status(), None);
}

#[test]
fn load_asks_for_every_symbol_in_table_order() {
    let (asked, end) = load_with(&|index, _| NativeReply::Resolved(Ok(0x1000 + index)));
    assert_eq!(asked.len(), 26);
    for (index, symbol) in asked.iter().enumerate() {
        assert_eq!(symbol.index(), index);
    }
    match end {
        Step::Done(Ok(table)) => {
            assert_eq!(table.lib, UnsafeDynamicLibrary { handle: 0x7000 });
            for index in 0..26 {
                assert_eq!(table.ptrs[index], 0x1000 + index);
            }
            assert_eq!(table.pointer(Symbol::Detect), 0x1000);
            assert_eq!(table.pointer(Symbol::Projection), 0x1012);
            assert_eq!(table.pointer(Symbol::DismissHSWDisplay), 0x1019);
            assert_eq!(table.into_library().handle, 0x7000);
        }
        other => panic!("{:?}", other),
    }
}

#[test]
fn load_fails_at_the_first_missing_symbol() {
    let (asked, end) = load_with(&|index, symbol| {
        if index >= 6 {
            NativeReply::Resolved(Err(format!("undefined symbol: {}", symbol.name())))
        } else {
            NativeReply::Resolved(Ok(0x1000 + index))
        }
    });
    assert_eq!(asked.len(), 7);
    assert_eq!(asked[6], Symbol::ConfigureTracking);
    assert_eq!(
        end,
        Step::Done(Err((
            OculusError::SymbolNotFound("undefined symbol: ovr_ConfigureTracking".to_string()),
            UnsafeDynamicLibrary { handle: 0x7000 }
        )))
    );
}

#[test]
fn load_fails_at_the_very_first_symbol() {
    let (asked, end) = load_with(&|_, _| NativeReply::Resolved(Err("no".to_string())));
    assert_eq!(asked, vec![Symbol::Detect]);
    assert_eq!(
        end,
        Step::Done(Err((
            OculusError::SymbolNotFound("no".to_string()),
            UnsafeDynamicLibrary { handle: 0x7000 }
        )))
    );
}

#[test]
fn load_fails_at_the_last_symbol() {
    let (asked, end) = load_with(&|index, _| {
        if index == 25 {
            NativeReply::Resolved(Err("late".to_string()))
        } else {
            NativeReply::Resolved(Ok(1))
        }
    });
    assert_eq!(asked.len(), 26);
    assert!(matches!(end, Step::Done(Err((OculusError::SymbolNotFound(_), _)))));
}

#[test]
fn load_takes_a_foreign_reply_as_a_failed_lookup() {
    let (asked, end) = load_with(&|index, _| {
        if index == 3 {
            NativeReply::Status(1)
        } else {
            NativeReply::Resolved(Ok(1))
        }
    });
    assert_eq!(asked.len(), 4);
    assert_eq!(
        end,
        Step::Done(Err((
            OculusError::SdkError("ovr_Create"),
            UnsafeDynamicLibrary { handle: 0x7000 }
        )))
    );
}

#[test]
fn null_addresses_are_stored_as_resolved() {
    let (_, end) = load_with(&|_, _| NativeReply::Resolved(Ok(0)));
    match end {
        Step::Done(Ok(table)) => assert!(table.ptrs.iter().all(|p| *p == 0)),
        other => panic!("{:?}", other),
    }
}
