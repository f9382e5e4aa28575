use rovr::OculusError;

#[test]
fn loader_errors_say_what_the_loader_said() {
    assert_eq!(
        OculusError::RuntimeNotFound("libOVRRT64_0.so.5: no such file".to_string()).message(),
        "libOVRRT64_0.so.5: no such file"
    );
    assert_eq!(
        OculusError::SymbolNotFound("undefined symbol: ovr_Create".to_string()).message(),
        "undefined symbol: ovr_Create"
    );
    assert_eq!(OculusError::RuntimeNotFound(String::new()).message(), "");
}

#[test]
fn sdk_errors_name_the_entry_point() {
    assert_eq!(OculusError::SdkError("ovr_Initialize").message(), "ovr_Initialize failed");
    assert_eq!(OculusError::SdkError("").message(), " failed");
}

#[test]
fn fixed_errors_have_fixed_messages() {
    assert_eq!(
        OculusError::DuplicateContext.message(),
        "Context creation failed because another Context is already active in this process"
    );
    assert_eq!(OculusError::NoDeviceFound.message(), "No headset is connected");
    assert_eq!(OculusError::FrameInProgress.message(), "A frame is already open");
}
