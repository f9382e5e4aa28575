use rovr::ffi::dynamic_lib::Platform;
use rovr::shim::{HmdDisplay, HmdDisplayId};
use rovr::target::{find_glutin_monitor, GlutinRenderTarget, MonitorId};
use rovr::RenderTarget;

fn display(id: HmdDisplayId) -> HmdDisplay {
    HmdDisplay { id, x: 0, y: 0, width: 1920, height: 1080 }
}

#[test]
fn render_target_keeps_the_window_on_windows_only() {
    let target = GlutinRenderTarget::new(0xABCD, 4, Platform::Windows);
    assert_eq!(target.get_multisample(), 4);
    assert_eq!(target.get_native_window(), 0xABCD);
    for platform in [Platform::MacOs, Platform::Linux] {
        let target = GlutinRenderTarget::new(0xABCD, 16, platform);
        assert_eq!(target.get_multisample(), 16);
        assert_eq!(target.get_native_window(), 0);
    }
}

#[test]
fn numbers_match_numbers() {
    assert!(HmdDisplayId::Numeric(3).is_monitor(&MonitorId::Numeric(3)));
    assert!(!HmdDisplayId::Numeric(3).is_monitor(&MonitorId::Numeric(4)));
    assert!(MonitorId::Numeric(3).is_display(&HmdDisplayId::Numeric(3)));
    assert!(!MonitorId::Numeric(0).is_display(&HmdDisplayId::Numeric(3)));
}

#[test]
fn names_match_names() {
    let name = HmdDisplayId::Name("\\\\.\\DISPLAY2".to_string());
    assert!(name.is_monitor(&MonitorId::Name("\\\\.\\DISPLAY2".to_string())));
    assert!(!name.is_monitor(&MonitorId::Name("\\\\.\\DISPLAY1".to_string())));
    assert!(!name.is_monitor(&MonitorId::Name(String::new())));
    assert!(MonitorId::Name("\\\\.\\DISPLAY2".to_string()).is_display(&name));
}

#[test]
fn kinds_do_not_mix() {
    assert!(!HmdDisplayId::Numeric(2).is_monitor(&MonitorId::Name("2".to_string())));
    assert!(!HmdDisplayId::Name("2".to_string()).is_monitor(&MonitorId::Numeric(2)));
    assert!(!HmdDisplayId::Numeric(0).is_monitor(&MonitorId::Unavailable));
}

#[test]
fn unavailable_matches_nothing() {
    assert!(!HmdDisplayId::Unavailable.is_monitor(&MonitorId::Unavailable));
    assert!(!HmdDisplayId::Unavailable.is_monitor(&MonitorId::Numeric(0)));
    assert!(!MonitorId::Unavailable.is_display(&HmdDisplayId::Unavailable));
}

#[test]
fn first_matching_monitor_is_found() {
    let monitors = vec![
        MonitorId::Unavailable,
        MonitorId::Numeric(1),
        MonitorId::Name("a".to_string()),
        MonitorId::Numeric(7),
        MonitorId::Numeric(7),
    ];
    assert_eq!(find_glutin_monitor(&display(HmdDisplayId::Numeric(7)), &monitors), Some(3));
    assert_eq!(find_glutin_monitor(&display(HmdDisplayId::Numeric(1)), &monitors), Some(1));
    assert_eq!(
        find_glutin_monitor(&display(HmdDisplayId::Name("a".to_string())), &monitors),
        Some(2)
    );
}

#[test]
fn no_monitor_is_found_without_a_match() {
    let monitors = vec![MonitorId::Unavailable, MonitorId::Numeric(1)];
    assert_eq!(find_glutin_monitor(&display(HmdDisplayId::Numeric(2)), &monitors), None);
    assert_eq!(find_glutin_monitor(&display(HmdDisplayId::Unavailable), &monitors), None);
    assert_eq!(find_glutin_monitor(&display(HmdDisplayId::Numeric(1)), &Vec::new()), None);
}
