use boring_build::bindings::{
    android_sysroot_args, bindgen_header_paths, bindgen_include_path, bindgen_options,
    bindings_output_path, ios_sdk_name, ios_sysroot_args, layout_tests_enabled, ndk_prebuilt_dir,
    pick_ndk_toolchain,
};

fn entries(list: &[(&str, bool)]) -> Vec<(String, bool)> {
    list.iter().map(|(n, d)| (n.to_string(), *d)).collect()
}

#[test]
fn picker_prefers_linux_x86_64() {
    let e = entries(&[
        ("windows-x86_64", true),
        ("linux-x86_64", true),
        ("darwin-x86_64", true),
    ]);
    assert_eq!(pick_ndk_toolchain(&e), Some("linux-x86_64".to_string()));
}

#[test]
fn picker_takes_darwin_when_it_is_alone() {
    let e = entries(&[("darwin-x86_64", true)]);
    assert_eq!(pick_ndk_toolchain(&e), Some("darwin-x86_64".to_string()));
}

#[test]
fn picker_falls_back_to_any_subdirectory() {
    let e = entries(&[("NOTICE.txt", false), ("linux-aarch64", true)]);
    assert_eq!(pick_ndk_toolchain(&e), Some("linux-aarch64".to_string()));
}

#[test]
fn picker_fails_without_subdirectories() {
    assert_eq!(pick_ndk_toolchain(&entries(&[])), None);
    assert_eq!(pick_ndk_toolchain(&entries(&[("NOTICE.txt", false)])), None);
}

#[test]
fn android_sysroot_points_below_the_picked_toolchain() {
    let e = entries(&[("linux-x86_64", true), ("darwin-x86_64", true)]);
    let args = android_sysroot_args("/opt/ndk", &e).unwrap();
    assert_eq!(
        args,
        vec![
            "--sysroot".to_string(),
            "/opt/ndk/toolchains/llvm/prebuilt/linux-x86_64/sysroot".to_string(),
        ]
    );
    assert_eq!(
        ndk_prebuilt_dir("/opt/ndk"),
        "/opt/ndk/toolchains/llvm/prebuilt"
    );
}

#[test]
fn android_sysroot_absent_when_nothing_can_be_picked() {
    assert!(android_sysroot_args("/opt/ndk", &entries(&[])).is_none());
}

#[test]
fn sdk_names_follow_the_target_table() {
    assert_eq!(
        ios_sdk_name("aarch64-apple-ios"),
        Some("iphoneos".to_string())
    );
    assert_eq!(
        ios_sdk_name("aarch64-apple-ios-sim"),
        Some("iphonesimulator".to_string())
    );
    assert_eq!(
        ios_sdk_name("x86_64-apple-ios"),
        Some("iphonesimulator".to_string())
    );
    assert_eq!(ios_sdk_name("x86_64-unknown-linux-gnu"), None);
}

#[test]
fn ios_sysroot_args_trim_the_tool_output() {
    let args = ios_sysroot_args(&Some("/Applications/SDKs/iPhoneSimulator.sdk\n".to_string()));
    assert_eq!(
        args,
        vec![
            "-isysroot".to_string(),
            "/Applications/SDKs/iPhoneSimulator.sdk".to_string(),
        ]
    );
}

#[test]
fn ios_sysroot_args_absent_when_the_tool_failed() {
    assert!(ios_sysroot_args(&None).is_empty());
}

#[test]
fn include_path_defaults_depend_on_fips_mode() {
    assert_eq!(
        bindgen_include_path("/src/bssl", &None, true),
        "/src/bssl/include"
    );
    assert_eq!(
        bindgen_include_path("/src/bssl", &None, false),
        "/src/bssl/src/include"
    );
    assert_eq!(
        bindgen_include_path("/src/bssl", &Some("/inc".to_string()), false),
        "/inc"
    );
}

#[test]
fn header_list_is_complete_and_ordered() {
    let paths = bindgen_header_paths("/inc");
    assert_eq!(paths.len(), 29);
    assert_eq!(paths[0], "/inc/openssl/aes.h");
    assert_eq!(paths[9], "/inc/openssl/curve25519.h");
    assert_eq!(paths[28], "/inc/openssl/x509v3.h");
    assert!(paths.contains(&"/inc/openssl/hkdf.h".to_string()));
    assert!(paths.contains(&"/inc/openssl/trust_token.h".to_string()));
}

#[test]
fn layout_tests_disabled_only_on_underaligned_sdk_targets() {
    assert!(!layout_tests_enabled("aarch64-apple-ios"));
    assert!(!layout_tests_enabled("aarch64-apple-ios-sim"));
    assert!(layout_tests_enabled("x86_64-apple-ios"));
    assert!(layout_tests_enabled("x86_64-unknown-linux-gnu"));
}

#[test]
fn generator_options_match_the_contract() {
    let o = bindgen_options("x86_64-apple-ios");
    assert!(o.derive_copy && o.derive_debug && o.derive_default && o.derive_eq);
    assert!(o.enum_newtype && !o.enum_newtype_is_bitfield && !o.enum_newtype_is_global);
    assert!(o.macro_constants_signed);
    assert!(o.generate_comments && !o.fit_macro_constants);
    assert!(o.size_t_is_usize && o.prepend_enum_name);
    assert!(o.layout_tests);
    let o2 = bindgen_options("aarch64-apple-ios");
    assert!(!o2.layout_tests);
}

#[test]
fn bindings_are_written_into_the_output_directory() {
    assert_eq!(bindings_output_path("/out"), "/out/bindings.rs");
}
