use zenoh_flow_python_operator_wrapper::loader::{load_request, LoadRequest, Platform, Resolution};

/// The prefix and the suffix that this platform names its libraries with.
fn naming() -> (String, String) {
    let probe = libloading::library_filename("@").to_string_lossy().into_owned();
    let (prefix, suffix) = probe.split_once('@').unwrap();
    (prefix.to_string(), suffix.to_string())
}

#[test]
fn posix_asks_for_global_immediate_resolution() {
    assert_eq!(
        load_request("python3.11", Platform::Posix, "lib", ".so").resolution,
        Resolution::GlobalImmediate
    );
}

#[test]
fn other_platforms_load_by_default() {
    assert_eq!(
        load_request("python3.11", Platform::Other, "", ".dll").resolution,
        Resolution::PlatformDefault
    );
}

#[test]
fn file_name_is_prefix_name_and_suffix() {
    assert_eq!(
        load_request("python3.11", Platform::Posix, "lib", ".so"),
        LoadRequest {
            file_name: "libpython3.11.so".to_string(),
            resolution: Resolution::GlobalImmediate
        }
    );
    assert_eq!(load_request("python3.11", Platform::Posix, "lib", ".dylib").file_name, "libpython3.11.dylib");
    assert_eq!(load_request("python311", Platform::Other, "", ".dll").file_name, "python311.dll");
    assert_eq!(load_request("x", Platform::Other, "", "").file_name, "x");
    assert_eq!(load_request("", Platform::Posix, "lib", ".so").file_name, "lib.so");
}

#[test]
fn file_name_is_the_platform_s_for_the_name() {
    let (prefix, suffix) = naming();
    for name in ["python3.11", "python3", "", "a b"] {
        let expected = libloading::library_filename(name).to_string_lossy().into_owned();
        assert_eq!(load_request(name, Platform::Posix, &prefix, &suffix).file_name, expected);
    }
}

#[test]
fn the_same_library_is_asked_for_every_time() {
    let (prefix, suffix) = naming();
    assert_eq!(
        load_request("python3.11", Platform::Posix, &prefix, &suffix),
        load_request("python3.11", Platform::Posix, &prefix, &suffix)
    );
}
