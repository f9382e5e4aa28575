use rovr::ffi::dynamic_lib::{
    check_for_error_code, check_for_errors_in, decimal, is_c_string, open_windows, opened_windows,
    LibraryName, Platform, PointerWidth, UnsafeDynamicLibrary, WindowsOpen, LAZY,
};
use rovr::ffi::table::{NativeCall, Symbol};

fn name(platform: Platform, width: PointerWidth) -> String {
    LibraryName { platform, width, product: "0", major: "5" }.file_name()
}

fn strings(items: &[&str]) -> Vec<String> {
    items.iter().map(|s| s.to_string()).collect()
}

#[test]
fn windows_library_name_has_bits_product_and_major() {
    assert_eq!(name(Platform::Windows, PointerWidth::Bits64), "LibOVRRT64_0_5");
    assert_eq!(name(Platform::Windows, PointerWidth::Bits32), "LibOVRRT32_0_5");
}

#[test]
fn mac_library_name_is_a_framework_path() {
    let expected = "LibOVRRT_0.framework/Versions/5/LibOVRRT_0";
    assert_eq!(name(Platform::MacOs, PointerWidth::Bits64), expected);
    assert_eq!(name(Platform::MacOs, PointerWidth::Bits32), expected);
}

#[test]
fn linux_library_name_is_a_versioned_so() {
    assert_eq!(name(Platform::Linux, PointerWidth::Bits64), "/usr/local/lib/libOVRRT64_0.so.5");
    assert_eq!(name(Platform::Linux, PointerWidth::Bits32), "/usr/local/lib/libOVRRT32_0.so.5");
}

#[test]
fn library_name_takes_other_versions() {
    let library = LibraryName {
        platform: Platform::Windows,
        width: PointerWidth::Bits64,
        product: "1",
        major: "12",
    };
    assert_eq!(library.file_name(), "LibOVRRT64_1_12");
    let library = LibraryName { platform: Platform::Linux, ..library };
    assert_eq!(library.file_name(), "/usr/local/lib/libOVRRT64_1.so.12");
    let library = LibraryName { platform: Platform::MacOs, ..library };
    assert_eq!(library.file_name(), "LibOVRRT_1.framework/Versions/12/LibOVRRT_1");
}

#[test]
fn pointer_width_in_bits() {
    assert_eq!(PointerWidth::Bits32.bits(), "32");
    assert_eq!(PointerWidth::Bits64.bits(), "64");
    assert_eq!(PointerWidth::Bits32.bytes(), 4);
    assert_eq!(PointerWidth::Bits64.bytes(), 8);
}

#[test]
fn search_path_variable_per_platform() {
    assert_eq!(UnsafeDynamicLibrary::envvar(Platform::Windows), "PATH");
    assert_eq!(UnsafeDynamicLibrary::envvar(Platform::MacOs), "DYLD_LIBRARY_PATH");
    assert_eq!(UnsafeDynamicLibrary::envvar(Platform::Linux), "LD_LIBRARY_PATH");
}

#[test]
fn separator_per_platform() {
    assert_eq!(UnsafeDynamicLibrary::separator(Platform::Windows), ";");
    assert_eq!(UnsafeDynamicLibrary::separator(Platform::MacOs), ":");
    assert_eq!(UnsafeDynamicLibrary::separator(Platform::Linux), ":");
    assert_eq!(Platform::Windows.separator_char(), ';');
    assert_eq!(Platform::Linux.separator_char(), ':');
}

#[test]
fn create_path_joins_with_the_separator() {
    let paths = strings(&["/opt/ovr/lib", "/usr/lib", "/lib"]);
    assert_eq!(
        UnsafeDynamicLibrary::create_path(&paths, Platform::Linux),
        "/opt/ovr/lib:/usr/lib:/lib"
    );
    assert_eq!(
        UnsafeDynamicLibrary::create_path(&strings(&["C:\\ovr", "C:\\Windows"]), Platform::Windows),
        "C:\\ovr;C:\\Windows"
    );
}

#[test]
fn create_path_of_none_and_of_one() {
    assert_eq!(UnsafeDynamicLibrary::create_path(&Vec::new(), Platform::Linux), "");
    assert_eq!(UnsafeDynamicLibrary::create_path(&strings(&["/a"]), Platform::Linux), "/a");
    assert_eq!(UnsafeDynamicLibrary::create_path(&strings(&["", ""]), Platform::Linux), ":");
}

#[test]
fn search_path_splits_at_the_separator() {
    assert_eq!(
        UnsafeDynamicLibrary::search_path(Some("/opt/ovr/lib:/usr/lib:/lib"), Platform::Linux),
        strings(&["/opt/ovr/lib", "/usr/lib", "/lib"])
    );
    assert_eq!(
        UnsafeDynamicLibrary::search_path(Some("C:\\ovr;C:\\Windows"), Platform::Windows),
        strings(&["C:\\ovr", "C:\\Windows"])
    );
    assert_eq!(
        UnsafeDynamicLibrary::search_path(Some("C:\\ovr;D:\\x"), Platform::Linux),
        strings(&["C", "\\ovr;D", "\\x"])
    );
}

#[test]
fn search_path_keeps_empty_entries() {
    assert_eq!(UnsafeDynamicLibrary::search_path(None, Platform::Linux), Vec::<String>::new());
    assert_eq!(UnsafeDynamicLibrary::search_path(Some(""), Platform::Linux), strings(&[""]));
    assert_eq!(UnsafeDynamicLibrary::search_path(Some(":"), Platform::Linux), strings(&["", ""]));
    assert_eq!(
        UnsafeDynamicLibrary::search_path(Some(":/a::/b:"), Platform::Linux),
        strings(&["", "/a", "", "/b", ""])
    );
    assert_eq!(
        UnsafeDynamicLibrary::search_path(Some("/päth/ü:λ"), Platform::Linux),
        strings(&["/päth/ü", "λ"])
    );
}

#[test]
fn split_of_joined_gives_the_entries_back() {
    for platform in [Platform::Windows, Platform::MacOs, Platform::Linux] {
        let paths = strings(&["/one", "two/three", "", "four"]);
        let joined = UnsafeDynamicLibrary::create_path(&paths, platform);
        assert_eq!(UnsafeDynamicLibrary::search_path(Some(joined.as_str()), platform), paths);
    }
}

#[test]
fn prepend_puts_the_path_first() {
    assert_eq!(
        UnsafeDynamicLibrary::prepend_search_path("/opt/ovr", Some("/usr/lib:/lib"), Platform::Linux),
        "/opt/ovr:/usr/lib:/lib"
    );
    assert_eq!(
        UnsafeDynamicLibrary::prepend_search_path("/opt/ovr", None, Platform::Linux),
        "/opt/ovr"
    );
    assert_eq!(
        UnsafeDynamicLibrary::prepend_search_path("/opt/ovr", Some(""), Platform::Linux),
        "/opt/ovr:"
    );
    assert_eq!(
        UnsafeDynamicLibrary::prepend_search_path("C:\\ovr", Some("C:\\Windows"), Platform::Windows),
        "C:\\ovr;C:\\Windows"
    );
    let value = UnsafeDynamicLibrary::prepend_search_path("/first", Some("/a:/b"), Platform::MacOs);
    assert_eq!(
        UnsafeDynamicLibrary::search_path(Some(value.as_str()), Platform::MacOs)[0],
        "/first"
    );
}

#[test]
fn loader_requests_name_the_library() {
    let library = LibraryName {
        platform: Platform::Linux,
        width: PointerWidth::Bits64,
        product: "0",
        major: "5",
    };
    assert_eq!(
        UnsafeDynamicLibrary::open(Some(library)),
        NativeCall::LoadLibrary { library: Some(library) }
    );
    assert_eq!(UnsafeDynamicLibrary::open(None), NativeCall::LoadLibrary { library: None });
    let lib = UnsafeDynamicLibrary::opened(Ok(0x9000)).unwrap();
    assert_eq!(lib.handle, 0x9000);
    assert_eq!(
        lib.symbol(Symbol::Create),
        NativeCall::ResolveSymbol { library: 0x9000, symbol: Symbol::Create }
    );
    assert_eq!(lib.close(), NativeCall::UnloadLibrary { library: 0x9000 });
}

#[test]
fn failed_open_makes_no_library() {
    assert_eq!(
        UnsafeDynamicLibrary::opened(Err("image not found".to_string())),
        Err("image not found".to_string())
    );
}

#[test]
fn unix_calls_fail_exactly_when_the_loader_holds_an_error() {
    assert_eq!(check_for_errors_in(0x10usize, None), Ok(0x10));
    assert_eq!(check_for_errors_in(0usize, None), Ok(0));
    assert_eq!(
        check_for_errors_in(0x10usize, Some("undefined symbol: ovr_Create".to_string())),
        Err("undefined symbol: ovr_Create".to_string())
    );
    assert_eq!(check_for_errors_in((), Some(String::new())), Err(String::new()));
}

#[test]
fn windows_calls_fail_exactly_on_a_nonzero_code() {
    assert_eq!(check_for_error_code(0x10usize, 0), Ok(0x10));
    assert_eq!(check_for_error_code(0x10usize, 126), Err("Error code 126".to_string()));
    assert_eq!(check_for_error_code((), 5), Err("Error code 5".to_string()));
    assert_eq!(check_for_error_code((), u32::MAX), Err("Error code 4294967295".to_string()));
}

#[test]
fn decimal_has_no_leading_zeros() {
    assert_eq!(decimal(0), "0");
    assert_eq!(decimal(7), "7");
    assert_eq!(decimal(10), "10");
    assert_eq!(decimal(1203), "1203");
    assert_eq!(decimal(987654321), "987654321");
    assert_eq!(decimal(u32::MAX), u32::MAX.to_string());
}

#[test]
fn windows_opens_by_name_or_the_process() {
    assert_eq!(open_windows(true), WindowsOpen::LoadLibrary);
    assert_eq!(open_windows(false), WindowsOpen::ModuleHandle);
}

#[test]
fn windows_load_fails_on_null_handle() {
    assert_eq!(opened_windows(WindowsOpen::LoadLibrary, 0x400000, false), Ok(0x400000));
    assert_eq!(opened_windows(WindowsOpen::LoadLibrary, 0x400000, true), Ok(0x400000));
    assert_eq!(
        opened_windows(WindowsOpen::LoadLibrary, 0, true),
        Err("LoadLibraryW failed".to_string())
    );
}

#[test]
fn windows_module_handle_fails_on_false() {
    assert_eq!(opened_windows(WindowsOpen::ModuleHandle, 0x400000, true), Ok(0x400000));
    assert_eq!(opened_windows(WindowsOpen::ModuleHandle, 0, true), Ok(0));
    assert_eq!(
        opened_windows(WindowsOpen::ModuleHandle, 0x400000, false),
        Err("GetModuleHandleExW failed".to_string())
    );
}

#[test]
fn names_with_nul_are_no_c_strings() {
    assert!(is_c_string("ovr_Initialize"));
    assert!(is_c_string(""));
    assert!(!is_c_string("ovr\0Initialize"));
    assert!(!is_c_string("\0"));
    assert!(!is_c_string("ovr_Initialize\0"));
    for index in 0..26 {
        assert!(is_c_string(Symbol::at(index).unwrap().name()));
    }
}

#[test]
fn libraries_are_opened_lazily() {
    assert_eq!(LAZY, 1);
}
