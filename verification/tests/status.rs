use rovr::ffi::{ovrFailure, ovrSuccess, ovrUnqualifiedSuccess};

#[test]
fn positive_codes_are_successes() {
    assert!(ovrSuccess(1));
    assert!(ovrSuccess(1000));
    assert!(ovrSuccess(4104));
    assert!(!ovrSuccess(0));
    assert!(!ovrSuccess(-1));
}

#[test]
fn failure_negates_success() {
    assert!(ovrFailure(0));
    assert!(ovrFailure(-3000));
    assert!(!ovrFailure(1));
}

#[test]
fn only_zero_is_unqualified() {
    assert!(ovrUnqualifiedSuccess(0));
    assert!(!ovrUnqualifiedSuccess(1));
    assert!(!ovrUnqualifiedSuccess(-1));
}
