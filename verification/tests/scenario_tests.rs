//! End-to-end scenarios at the library level: resolve a configuration from
//! a synthetic environment snapshot, plan the build, and check the emitted
//! directives.

use boring_build::bindings::{
    android_sysroot_args, bindings_output_path, ios_sdk_name, ios_sysroot_args,
    layout_tests_enabled,
};
use boring_build::config::{fips_mode, resolve_config, AcquisitionMode, ConfigError, Features};
use boring_build::directives::{link_lib_lines, link_search_lines, rerun_lines};
use boring_build::fips::{bcm_listing_ok, libcrypto_path, splice_plan, FipsProbes};
use boring_build::native_build::{build_plan, platform_output_subdir};
use boring_build::patches::patch_applier_runs;

fn no_features() -> Features {
    Features {
        fips: false,
        fips_link_precompiled: false,
        pq_experimental: false,
        rpk: false,
        fuzzing: false,
        ndk_old_gcc: false,
        underscore_wildcards: false,
    }
}

fn no_probes() -> FipsProbes {
    FipsProbes {
        clang12_cc: None,
        clang12_cxx: None,
        clang_cc: None,
        clang_cxx: None,
        cc_cc: None,
        cc_cxx: None,
    }
}

fn base_env(host: &str, target: &str, arch: &str, os: &str) -> Vec<(String, String)> {
    vec![
        ("CARGO_MANIFEST_DIR".to_string(), "/repo".to_string()),
        ("OUT_DIR".to_string(), "/out".to_string()),
        ("HOST".to_string(), host.to_string()),
        ("TARGET".to_string(), target.to_string()),
        ("CARGO_CFG_TARGET_ARCH".to_string(), arch.to_string()),
        ("CARGO_CFG_TARGET_OS".to_string(), os.to_string()),
    ]
}

#[test]
fn native_host_build_without_features() {
    let linux = "x86_64-unknown-linux-gnu";
    let env = base_env(linux, linux, "x86_64", "linux");
    let c = resolve_config(no_features(), &env).unwrap();
    let plan = build_plan(&c, "/work", &no_probes()).unwrap();
    assert!(plan.defines.is_empty());
    assert_eq!(plan.build_targets, vec!["ssl".to_string(), "crypto".to_string()]);

    let subdir = platform_output_subdir(&c.target, &c.overrides.debug, &c.overrides.opt_level)
        .unwrap();
    assert_eq!(subdir, "");
    let search = link_search_lines(fips_mode(c.features), "/out/bssl", &subdir);
    assert_eq!(search.len(), 1);
    let libs = link_lib_lines();
    assert_eq!(libs.len(), 2);
    assert_eq!(bindings_output_path(&c.out_dir), "/out/bindings.rs");
    let reruns = rerun_lines(&c.consulted);
    assert!(reruns.contains(&"cargo:rerun-if-env-changed=BORING_BSSL_PATH".to_string()));
}

#[test]
fn android_aarch64_cross_build_with_new_ndk() {
    let mut env = base_env(
        "x86_64-unknown-linux-gnu",
        "aarch64-linux-android",
        "aarch64",
        "android",
    );
    env.push(("ANDROID_NDK_HOME".to_string(), "/opt/ndk".to_string()));
    let c = resolve_config(no_features(), &env).unwrap();
    let plan = build_plan(&c, "/work", &no_probes()).unwrap();
    assert!(plan
        .defines
        .contains(&("ANDROID_ABI".to_string(), "arm64-v8a".to_string())));
    assert!(plan.defines.contains(&(
        "CMAKE_TOOLCHAIN_FILE".to_string(),
        "/opt/ndk/build/cmake/android.toolchain.cmake".to_string()
    )));
    let listing = vec![
        ("darwin-x86_64".to_string(), true),
        ("linux-x86_64".to_string(), true),
    ];
    let ndk_home = c.overrides.android_ndk_home.as_deref().unwrap();
    let args = android_sysroot_args(ndk_home, &listing).unwrap();
    assert_eq!(
        args,
        vec![
            "--sysroot".to_string(),
            "/opt/ndk/toolchains/llvm/prebuilt/linux-x86_64/sysroot".to_string(),
        ]
    );
}

#[test]
fn ios_simulator_x86_64_cross_build() {
    let env = base_env(
        "aarch64-apple-darwin",
        "x86_64-apple-ios",
        "x86_64",
        "ios",
    );
    let c = resolve_config(no_features(), &env).unwrap();
    let plan = build_plan(&c, "/work", &no_probes()).unwrap();
    assert!(plan.cflags.contains(&"-fembed-bitcode".to_string()));
    assert!(plan
        .cflags
        .contains(&"-target x86_64-apple-ios-simulator".to_string()));
    assert!(plan.asmflags.contains(&"-fembed-bitcode".to_string()));
    assert!(plan
        .asmflags
        .contains(&"-target x86_64-apple-ios-simulator".to_string()));
    assert_eq!(ios_sdk_name(&c.target), Some("iphonesimulator".to_string()));
    let args = ios_sysroot_args(&Some("/sdk/iPhoneSimulator.sdk\n".to_string()));
    assert_eq!(args[0], "-isysroot");
    assert_eq!(args[1], "/sdk/iPhoneSimulator.sdk");
    assert!(layout_tests_enabled(&c.target));
}

#[test]
fn precompiled_library_skips_build_and_patches() {
    let linux = "x86_64-unknown-linux-gnu";
    let mut env = base_env(linux, linux, "x86_64", "linux");
    env.push(("BORING_BSSL_PATH".to_string(), "/opt/boring".to_string()));
    let c = resolve_config(no_features(), &env).unwrap();
    let dir = match &c.mode {
        AcquisitionMode::Precompiled { path } => path.clone(),
        _ => panic!("expected the precompiled mode"),
    };
    assert!(!patch_applier_runs(&c));
    let search = link_search_lines(fips_mode(c.features), &dir, "");
    assert_eq!(
        search,
        vec!["cargo:rustc-link-search=native=/opt/boring/build/".to_string()]
    );
    assert_eq!(link_lib_lines().len(), 2);
}

#[test]
fn fips_link_precompiled_splice() {
    let linux = "x86_64-unknown-linux-gnu";
    let mut env = base_env(linux, linux, "x86_64", "linux");
    env.push((
        "BORING_SSL_PRECOMPILED_BCM_O".to_string(),
        "/tmp/bcm.o".to_string(),
    ));
    let mut f = no_features();
    f.fips_link_precompiled = true;
    let c = resolve_config(f, &env).unwrap();
    let bcm = match &c.mode {
        AcquisitionMode::BuildFromSourcesWithFipsSplice {
            precompiled_core_object,
            ..
        } => precompiled_core_object.clone(),
        _ => panic!("expected the splice mode"),
    };
    assert_eq!(bcm, "/tmp/bcm.o");
    let bssl_dir = "/out/bssl";
    let lib = libcrypto_path(bssl_dir);
    let plan = splice_plan(bssl_dir, &lib, &bcm);
    assert_eq!(plan.list_args[0], "t");
    assert_eq!(plan.list_args[2], "bcm.o");
    assert!(bcm_listing_ok("bcm.o"));
    assert_eq!(plan.insert_args[0], "rb");
    assert_eq!(plan.insert_args[1], "bcm.o");
    assert_eq!(plan.insert_args[3], "/out/bssl/build/bcm-fips.o");
    let search = link_search_lines(fips_mode(c.features), bssl_dir, "");
    assert_eq!(search.len(), 2);
    assert!(search[0].contains("/build/crypto/"));
    assert!(search[1].contains("/build/ssl/"));
}

#[test]
fn mutual_exclusion_fails_before_any_work() {
    let linux = "x86_64-unknown-linux-gnu";
    let env = base_env(linux, linux, "x86_64", "linux");
    let mut f = no_features();
    f.fips = true;
    f.rpk = true;
    let r = resolve_config(f, &env);
    assert_eq!(r.err(), Some(ConfigError::FipsAndRpkConflict));
}
