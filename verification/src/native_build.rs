//! The native-build driver's decisions: the complete build configuration
//! for the cross-platform build system — defines, compiler flags, toolchain
//! files and build targets — as a pure function of the configuration
//! record, plus the platform-conditional output subdirectory.

use vstd::prelude::*;

use crate::config::AcquisitionMode;
use crate::config::Config;
use crate::config::Features;
use crate::fips::FipsProbes;
use crate::fips::FipsToolchainError;
use crate::fips::pick_fips_compilers;
use crate::fips::spec_pick_fips_compilers;
use crate::strutil::concat2;
use crate::strutil::contains_substr;
use crate::strutil::eq_str;
use crate::strutil::join_path;
use crate::strutil::spec_contains;
use crate::strutil::spec_join_path;

verus! {

proof fn lemma_os_literals_distinct()
    ensures
        "android"@ != "ios"@,
        "android"@ != "windows"@,
        "android"@ != "linux"@,
        "ios"@ != "windows"@,
        "ios"@ != "linux"@,
        "windows"@ != "linux"@,
{
    reveal_strlit("android");
    reveal_strlit("ios");
    reveal_strlit("windows");
    reveal_strlit("linux");
    assert("android"@[0] == 'a');
    assert("windows"@[0] == 'w');
    assert("android"@.len() == 7);
    assert("ios"@.len() == 3);
    assert("windows"@.len() == 7);
    assert("linux"@.len() == 5);
}

/// Why the platform-conditional subdirectory cannot be computed.
#[derive(Clone, Copy, PartialEq, Eq, Structural, Debug)]
pub enum SubdirError {
    MissingDebugVar,
    UnknownDebugValue,
    MissingOptLevelVar,
    UnknownOptLevelValue,
}

/// The MSVC generator's output subdirectory, from the debug setting and the
/// optimization level: level `0` is `Debug`; `1`..`3` are `RelWithDebInfo`
/// with debug info and `Release` without; `s` and `z` are `MinSizeRel`.
pub open spec fn spec_msvc_subdir(debug: Option<Seq<char>>, opt_level: Option<Seq<char>>) -> Result<
    Seq<char>,
    SubdirError,
> {
    if debug is None {
        Err(SubdirError::MissingDebugVar)
    } else if !(debug->0 == "true"@ || debug->0 == "false"@) {
        Err(SubdirError::UnknownDebugValue)
    } else if opt_level is None {
        Err(SubdirError::MissingOptLevelVar)
    } else {
        let deb_info = debug->0 == "true"@;
        let o = opt_level->0;
        if o == "0"@ {
            Ok("Debug"@)
        } else if o == "1"@ || o == "2"@ || o == "3"@ {
            if deb_info {
                Ok("RelWithDebInfo"@)
            } else {
                Ok("Release"@)
            }
        } else if o == "s"@ || o == "z"@ {
            Ok("MinSizeRel"@)
        } else {
            Err(SubdirError::UnknownOptLevelValue)
        }
    }
}

/// The platform-conditional output subdirectory: the MSVC rule on MSVC
/// targets, the empty string everywhere else.
pub open spec fn spec_platform_subdir(
    target: Seq<char>,
    debug: Option<Seq<char>>,
    opt_level: Option<Seq<char>>,
) -> Result<Seq<char>, SubdirError> {
    if spec_contains(target, "msvc"@) {
        spec_msvc_subdir(debug, opt_level)
    } else {
        Ok(""@)
    }
}

/// Computes the platform-conditional output subdirectory for the target.
pub fn platform_output_subdir(
    target: &str,
    debug: &Option<String>,
    opt_level: &Option<String>,
) -> (r: Result<String, SubdirError>)
    ensures
        match r {
            Result::Ok(s) => spec_platform_subdir(target@, debug.deep_view(), opt_level.deep_view())
                == Ok::<Seq<char>, SubdirError>(s@),
            Result::Err(e) => spec_platform_subdir(
                target@,
                debug.deep_view(),
                opt_level.deep_view(),
            ) == Err::<Seq<char>, SubdirError>(e),
        },
{
    if !contains_substr(target, "msvc") {
        proof {
            reveal_strlit("");
            assert(""@ =~= Seq::<char>::empty());
        }
        return Ok(String::new());
    }
    let deb_info: bool = match debug {
        Some(d) => {
            if eq_str(d.as_str(), "true") {
                true
            } else if eq_str(d.as_str(), "false") {
                false
            } else {
                return Err(SubdirError::UnknownDebugValue);
            }
        },
        None => {
            return Err(SubdirError::MissingDebugVar);
        },
    };
    match opt_level {
        Some(o) => {
            if eq_str(o.as_str(), "0") {
                Ok(String::from_str("Debug"))
            } else if eq_str(o.as_str(), "1") || eq_str(o.as_str(), "2") || eq_str(
                o.as_str(),
                "3",
            ) {
                if deb_info {
                    Ok(String::from_str("RelWithDebInfo"))
                } else {
                    Ok(String::from_str("Release"))
                }
            } else if eq_str(o.as_str(), "s") || eq_str(o.as_str(), "z") {
                Ok(String::from_str("MinSizeRel"))
            } else {
                Err(SubdirError::UnknownOptLevelValue)
            }
        },
        None => Err(SubdirError::MissingOptLevelVar),
    }
}

/// The architecture-specific defines for an Android cross-build: the ABI
/// table for a current NDK, the named-toolchain table for an old NDK with
/// GCC; an architecture outside the tables contributes nothing.
pub open spec fn spec_android_arch_defines(arch: Seq<char>, ndk_old_gcc: bool) -> Seq<
    (Seq<char>, Seq<char>),
> {
    if ndk_old_gcc {
        if arch == "aarch64"@ {
            seq![("ANDROID_TOOLCHAIN_NAME"@, "aarch64-linux-android-4.9"@)]
        } else if arch == "arm"@ {
            seq![("ANDROID_TOOLCHAIN_NAME"@, "arm-linux-androideabi-4.9"@)]
        } else if arch == "x86"@ {
            seq![("ANDROID_TOOLCHAIN_NAME"@, "x86-linux-android-4.9"@)]
        } else if arch == "x86_64"@ {
            seq![("ANDROID_TOOLCHAIN_NAME"@, "x86_64-linux-android-4.9"@)]
        } else {
            Seq::<(Seq<char>, Seq<char>)>::empty()
        }
    } else {
        if arch == "aarch64"@ {
            seq![("ANDROID_ABI"@, "arm64-v8a"@)]
        } else if arch == "arm"@ {
            seq![("ANDROID_ABI"@, "armeabi-v7a"@)]
        } else if arch == "x86"@ {
            seq![("ANDROID_ABI"@, "x86"@)]
        } else if arch == "x86_64"@ {
            seq![("ANDROID_ABI"@, "x86_64"@)]
        } else {
            Seq::<(Seq<char>, Seq<char>)>::empty()
        }
    }
}

fn append_dv<T: DeepView>(dst: &mut Vec<T>, src: Vec<T>)
    ensures
        final(dst).deep_view() == old(dst).deep_view() + src.deep_view(),
        final(dst)@ == old(dst)@ + src@,
{
    let ghost src0 = src;
    let mut s = src;
    dst.append(&mut s);
    proof {
        assert forall|j: int| 0 <= j < dst.deep_view().len() implies dst.deep_view()[j] == (old(
            dst,
        ).deep_view() + src0.deep_view())[j] by {
            assert(dst.deep_view()[j] == dst@[j].deep_view());
            if j < old(dst)@.len() {
                assert(old(dst).deep_view()[j] == old(dst)@[j].deep_view());
            } else {
                assert(src0.deep_view()[j - old(dst)@.len()] == src0@[j
                    - old(dst)@.len()].deep_view());
            }
        }
        assert(dst.deep_view() =~= old(dst).deep_view() + src0.deep_view());
    }
}

fn push_define(v: &mut Vec<(String, String)>, name: &str, value: &str)
    ensures
        final(v)@.len() == old(v)@.len() + 1,
        final(v).deep_view() == old(v).deep_view().push((name@, value@)),
{
    v.push((name.to_owned(), value.to_owned()));
    proof {
        assert(v.deep_view() =~= old(v).deep_view().push((name@, value@)));
    }
}

/// The architecture table rows for an Android cross-build.
pub fn android_arch_defines(arch: &str, ndk_old_gcc: bool) -> (r: Vec<(String, String)>)
    ensures
        r.deep_view() == spec_android_arch_defines(arch@, ndk_old_gcc),
{
    let mut r: Vec<(String, String)> = Vec::new();
    if ndk_old_gcc {
        if eq_str(arch, "aarch64") {
            push_define(&mut r, "ANDROID_TOOLCHAIN_NAME", "aarch64-linux-android-4.9");
        } else if eq_str(arch, "arm") {
            push_define(&mut r, "ANDROID_TOOLCHAIN_NAME", "arm-linux-androideabi-4.9");
        } else if eq_str(arch, "x86") {
            push_define(&mut r, "ANDROID_TOOLCHAIN_NAME", "x86-linux-android-4.9");
        } else if eq_str(arch, "x86_64") {
            push_define(&mut r, "ANDROID_TOOLCHAIN_NAME", "x86_64-linux-android-4.9");
        }
    } else {
        if eq_str(arch, "aarch64") {
            push_define(&mut r, "ANDROID_ABI", "arm64-v8a");
        } else if eq_str(arch, "arm") {
            push_define(&mut r, "ANDROID_ABI", "armeabi-v7a");
        } else if eq_str(arch, "x86") {
            push_define(&mut r, "ANDROID_ABI", "x86");
        } else if eq_str(arch, "x86_64") {
            push_define(&mut r, "ANDROID_ABI", "x86_64");
        }
    }
    proof {
        assert(r.deep_view() =~= spec_android_arch_defines(arch@, ndk_old_gcc));
    }
    r
}

/// All defines for an Android cross-build: the architecture rows, then the
/// NDK toolchain file, the native API level `21`, and the shared C++
/// runtime.
pub open spec fn spec_android_defines(
    arch: Seq<char>,
    ndk_old_gcc: bool,
    ndk_home: Seq<char>,
) -> Seq<(Seq<char>, Seq<char>)> {
    spec_android_arch_defines(arch, ndk_old_gcc) + seq![
        ("CMAKE_TOOLCHAIN_FILE"@, ndk_home + "/build/cmake/android.toolchain.cmake"@),
        ("ANDROID_NATIVE_API_LEVEL"@, "21"@),
        ("ANDROID_STL"@, "c++_shared"@),
    ]
}

fn android_defines(arch: &str, ndk_old_gcc: bool, ndk_home: &str) -> (r: Vec<(String, String)>)
    ensures
        r.deep_view() == spec_android_defines(arch@, ndk_old_gcc, ndk_home@),
{
    let mut r = android_arch_defines(arch, ndk_old_gcc);
    let toolchain_file = concat2(ndk_home, "/build/cmake/android.toolchain.cmake");
    r.push((String::from_str("CMAKE_TOOLCHAIN_FILE"), toolchain_file));
    push_define(&mut r, "ANDROID_NATIVE_API_LEVEL", "21");
    push_define(&mut r, "ANDROID_STL", "c++_shared");
    proof {
        assert(r.deep_view() =~= spec_android_defines(arch@, ndk_old_gcc, ndk_home@));
    }
    r
}

/// The defines for an iOS cross-build, by target triple: the architecture
/// and the SDK, `iphoneos` for the device target and `iphonesimulator` for
/// the two simulator targets.
pub open spec fn spec_ios_defines(target: Seq<char>) -> Seq<(Seq<char>, Seq<char>)> {
    if target == "aarch64-apple-ios"@ {
        seq![("CMAKE_OSX_ARCHITECTURES"@, "arm64"@), ("CMAKE_OSX_SYSROOT"@, "iphoneos"@)]
    } else if target == "aarch64-apple-ios-sim"@ {
        seq![("CMAKE_OSX_ARCHITECTURES"@, "arm64"@), ("CMAKE_OSX_SYSROOT"@, "iphonesimulator"@)]
    } else if target == "x86_64-apple-ios"@ {
        seq![("CMAKE_OSX_ARCHITECTURES"@, "x86_64"@), ("CMAKE_OSX_SYSROOT"@, "iphonesimulator"@)]
    } else {
        Seq::<(Seq<char>, Seq<char>)>::empty()
    }
}

fn ios_defines(target: &str) -> (r: Vec<(String, String)>)
    ensures
        r.deep_view() == spec_ios_defines(target@),
{
    let mut r: Vec<(String, String)> = Vec::new();
    if eq_str(target, "aarch64-apple-ios") {
        push_define(&mut r, "CMAKE_OSX_ARCHITECTURES", "arm64");
        push_define(&mut r, "CMAKE_OSX_SYSROOT", "iphoneos");
    } else if eq_str(target, "aarch64-apple-ios-sim") {
        push_define(&mut r, "CMAKE_OSX_ARCHITECTURES", "arm64");
        push_define(&mut r, "CMAKE_OSX_SYSROOT", "iphonesimulator");
    } else if eq_str(target, "x86_64-apple-ios") {
        push_define(&mut r, "CMAKE_OSX_ARCHITECTURES", "x86_64");
        push_define(&mut r, "CMAKE_OSX_SYSROOT", "iphonesimulator");
    }
    proof {
        assert(r.deep_view() =~= spec_ios_defines(target@));
    }
    r
}

/// The C and assembler flags for an iOS cross-build: bitcode is always
/// embedded, and the x86_64 simulator additionally names its target
/// explicitly.
pub open spec fn spec_ios_flags(arch: Seq<char>) -> Seq<Seq<char>> {
    if arch == "x86_64"@ {
        seq!["-fembed-bitcode"@, "-target x86_64-apple-ios-simulator"@]
    } else {
        seq!["-fembed-bitcode"@]
    }
}

fn ios_flags(arch: &str) -> (r: Vec<String>)
    ensures
        r.deep_view() == spec_ios_flags(arch@),
{
    let mut r: Vec<String> = Vec::new();
    r.push(String::from_str("-fembed-bitcode"));
    if eq_str(arch, "x86_64") {
        r.push(String::from_str("-target x86_64-apple-ios-simulator"));
    }
    proof {
        assert(r.deep_view() =~= spec_ios_flags(arch@));
    }
    r
}

/// A soft degradation of the build plan, recorded for the operator.
#[derive(Clone, Copy, PartialEq, Eq, Structural, Debug)]
pub enum PlanWarning {
    /// A Linux cross-build for an architecture with no bundled toolchain
    /// file proceeds without one.
    NoToolchainFileForTarget,
}

/// Why no build plan can be produced.
#[derive(Clone, Copy, PartialEq, Eq, Structural, Debug)]
pub enum BuildPlanError {
    /// An Android cross-build requires the NDK location.
    MissingAndroidNdkHome,
    /// A FIPS build from sources found no compiler pair satisfying the
    /// security policy.
    FipsToolchain(FipsToolchainError),
}

/// The build configuration handed to the cross-platform build system.
pub struct BuildPlan {
    /// The source tree the build reads.
    pub sources: String,
    /// Name/value defines, in order.
    pub defines: Vec<(String, String)>,
    /// Flags for the C compiler.
    pub cflags: Vec<String>,
    /// Flags for the C++ compiler.
    pub cxxflags: Vec<String>,
    /// Flags for the assembler.
    pub asmflags: Vec<String>,
    /// The build-system targets to request, in order.
    pub build_targets: Vec<String>,
    /// Soft degradations for the operator.
    pub warnings: Vec<PlanWarning>,
}

/// The source tree named by the acquisition mode.
pub open spec fn spec_mode_sources(m: AcquisitionMode) -> Seq<char> {
    match m {
        AcquisitionMode::BuildFromSources { sources } => sources@,
        AcquisitionMode::BuildFromSourcesWithFipsSplice { sources, .. } => sources@,
        AcquisitionMode::Precompiled { path } => path@,
    }
}

/// The platform-dispatch defines: nothing for a native build; the Android,
/// iOS, Windows-host and Linux rules for cross-builds; nothing for other
/// systems.
pub open spec fn spec_platform_defines(c: Config, pwd: Seq<char>, sources: Seq<char>) -> Seq<
    (Seq<char>, Seq<char>),
> {
    if c.host@ == c.target@ {
        Seq::<(Seq<char>, Seq<char>)>::empty()
    } else if c.target_os@ == "android"@ {
        spec_android_defines(
            c.target_arch@,
            c.features.ndk_old_gcc,
            c.overrides.android_ndk_home->0@,
        )
    } else if c.target_os@ == "ios"@ {
        spec_ios_defines(c.target@)
    } else if c.target_os@ == "windows"@ {
        if spec_contains(c.host@, "windows"@) {
            seq![("OPENSSL_NO_ASM"@, "YES"@)]
        } else {
            Seq::<(Seq<char>, Seq<char>)>::empty()
        }
    } else if c.target_os@ == "linux"@ {
        if c.target_arch@ == "x86"@ {
            seq![
                (
                    "CMAKE_TOOLCHAIN_FILE"@,
                    spec_join_path(pwd, sources) + "/src/util/32-bit-toolchain.cmake"@,
                ),
            ]
        } else if c.target_arch@ == "aarch64"@ {
            seq![("CMAKE_TOOLCHAIN_FILE"@, pwd + "/cmake/aarch64-linux.cmake"@)]
        } else {
            Seq::<(Seq<char>, Seq<char>)>::empty()
        }
    } else {
        Seq::<(Seq<char>, Seq<char>)>::empty()
    }
}

/// The FIPS-related defines that close the define list: the policy-chosen
/// compilers and `FIPS=1` for a FIPS build from sources, `FIPS=1` alone
/// when a precompiled core object will be spliced in.
pub open spec fn spec_fips_defines(features: Features, picked: (Seq<char>, Seq<char>)) -> Seq<
    (Seq<char>, Seq<char>),
> {
    if features.fips && !features.fips_link_precompiled {
        seq![
            ("CMAKE_C_COMPILER"@, picked.0),
            ("CMAKE_CXX_COMPILER"@, picked.1),
            ("CMAKE_ASM_COMPILER"@, picked.0),
            ("FIPS"@, "1"@),
        ]
    } else if features.fips_link_precompiled {
        seq![("FIPS"@, "1"@)]
    } else {
        Seq::<(Seq<char>, Seq<char>)>::empty()
    }
}

/// Why the plan fails: a missing NDK location first, then an unsatisfiable
/// FIPS compiler policy.
pub open spec fn spec_build_plan_error(c: Config, probes: FipsProbes) -> Option<BuildPlanError> {
    if c.host@ != c.target@ && c.target_os@ == "android"@
        && c.overrides.android_ndk_home is None {
        Some(BuildPlanError::MissingAndroidNdkHome)
    } else if c.features.fips && !c.features.fips_link_precompiled && spec_pick_fips_compilers(
        probes,
    ) is Err {
        Some(BuildPlanError::FipsToolchain(spec_pick_fips_compilers(probes)->Err_0))
    } else {
        None
    }
}

/// The warnings of a plan: a Linux cross-build for an architecture with no
/// bundled toolchain file.
pub open spec fn spec_plan_warnings(c: Config) -> Seq<PlanWarning> {
    if c.host@ != c.target@ && c.target_os@ == "linux"@ && c.target_arch@ != "x86"@
        && c.target_arch@ != "aarch64"@ {
        seq![PlanWarning::NoToolchainFileForTarget]
    } else {
        Seq::<PlanWarning>::empty()
    }
}

/// The C and assembler flags of a plan: the iOS flags on an iOS
/// cross-build, nothing otherwise.
pub open spec fn spec_plan_cflags(c: Config) -> Seq<Seq<char>> {
    if c.host@ != c.target@ && c.target_os@ == "ios"@ {
        spec_ios_flags(c.target_arch@)
    } else {
        Seq::<Seq<char>>::empty()
    }
}

/// The C++ flags of a plan: the two unsafe-mode preprocessor definitions
/// under `fuzzing`, nothing otherwise.
pub open spec fn spec_plan_cxxflags(features: Features) -> Seq<Seq<char>> {
    if features.fuzzing {
        seq!["-DBORINGSSL_UNSAFE_DETERMINISTIC_MODE"@, "-DBORINGSSL_UNSAFE_FUZZER_MODE"@]
    } else {
        Seq::<Seq<char>>::empty()
    }
}

/// Materializes the build configuration for a build from sources. `pwd` is
/// the working directory the invoking runner started the orchestrator in;
/// `probes` reports the candidate compiler versions, consulted only for a
/// FIPS build from sources.
pub fn build_plan(c: &Config, pwd: &str, probes: &FipsProbes) -> (r: Result<
    BuildPlan,
    BuildPlanError,
>)
    requires
        !(c.mode matches AcquisitionMode::Precompiled { .. }),
    ensures
        match r {
            Result::Ok(plan) => {
                &&& spec_build_plan_error(*c, *probes) is None
                &&& plan.sources@ == spec_mode_sources(c.mode)
                &&& (c.features.fips && !c.features.fips_link_precompiled ==> (
                spec_pick_fips_compilers(*probes) matches Ok(pair) && plan.defines.deep_view()
                    == spec_platform_defines(*c, pwd@, plan.sources@) + spec_fips_defines(
                    c.features,
                    pair,
                )))
                &&& (!(c.features.fips && !c.features.fips_link_precompiled)
                    ==> plan.defines.deep_view() == spec_platform_defines(*c, pwd@, plan.sources@)
                    + spec_fips_defines(c.features, (""@, ""@)))
                &&& plan.cflags.deep_view() == spec_plan_cflags(*c)
                &&& plan.asmflags.deep_view() == spec_plan_cflags(*c)
                &&& plan.cxxflags.deep_view() == spec_plan_cxxflags(c.features)
                &&& plan.build_targets.deep_view() == seq!["ssl"@, "crypto"@]
                &&& plan.warnings@ == spec_plan_warnings(*c)
            },
            Result::Err(e) => spec_build_plan_error(*c, *probes) == Some(e),
        },
{
    let sources: String = match &c.mode {
        AcquisitionMode::BuildFromSources { sources } => sources.clone(),
        AcquisitionMode::BuildFromSourcesWithFipsSplice { sources, .. } => sources.clone(),
        AcquisitionMode::Precompiled { path } => path.clone(),
    };
    let cross = !eq_str(c.host.as_str(), c.target.as_str());
    let mut defines: Vec<(String, String)> = Vec::new();
    let mut cflags: Vec<String> = Vec::new();
    let mut asmflags: Vec<String> = Vec::new();
    let mut warnings: Vec<PlanWarning> = Vec::new();

    if cross {
        if eq_str(c.target_os.as_str(), "android") {
            let ndk: String = match &c.overrides.android_ndk_home {
                Some(n) => n.clone(),
                None => {
                    return Err(BuildPlanError::MissingAndroidNdkHome);
                },
            };
            let d = android_defines(c.target_arch.as_str(), c.features.ndk_old_gcc, ndk.as_str());
            append_dv(&mut defines, d);
        } else if eq_str(c.target_os.as_str(), "ios") {
            let d = ios_defines(c.target.as_str());
            append_dv(&mut defines, d);
            let f1 = ios_flags(c.target_arch.as_str());
            append_dv(&mut cflags, f1);
            let f2 = ios_flags(c.target_arch.as_str());
            append_dv(&mut asmflags, f2);
        } else if eq_str(c.target_os.as_str(), "windows") {
            if contains_substr(c.host.as_str(), "windows") {
                push_define(&mut defines, "OPENSSL_NO_ASM", "YES");
            }
        } else if eq_str(c.target_os.as_str(), "linux") {
            if eq_str(c.target_arch.as_str(), "x86") {
                let base = join_path(pwd, sources.as_str());
                let toolchain = concat2(base.as_str(), "/src/util/32-bit-toolchain.cmake");
                defines.push((String::from_str("CMAKE_TOOLCHAIN_FILE"), toolchain));
            } else if eq_str(c.target_arch.as_str(), "aarch64") {
                let toolchain = concat2(pwd, "/cmake/aarch64-linux.cmake");
                defines.push((String::from_str("CMAKE_TOOLCHAIN_FILE"), toolchain));
            } else {
                warnings.push(PlanWarning::NoToolchainFileForTarget);
            }
        }
    }
    proof {
        lemma_os_literals_distinct();
        assert(defines.deep_view() =~~= spec_platform_defines(*c, pwd@, sources@));
        assert(cflags.deep_view() =~= spec_plan_cflags(*c));
        assert(asmflags.deep_view() =~= spec_plan_cflags(*c));
        assert(warnings@ =~= spec_plan_warnings(*c));
    }

    let mut cxxflags: Vec<String> = Vec::new();
    if c.features.fuzzing {
        cxxflags.push(String::from_str("-DBORINGSSL_UNSAFE_DETERMINISTIC_MODE"));
        cxxflags.push(String::from_str("-DBORINGSSL_UNSAFE_FUZZER_MODE"));
    }
    proof {
        assert(cxxflags.deep_view() =~= spec_plan_cxxflags(c.features));
    }

    if c.features.fips && !c.features.fips_link_precompiled {
        match pick_fips_compilers(probes) {
            Ok(pair) => {
                let (cc, cxx) = pair;
                defines.push((String::from_str("CMAKE_C_COMPILER"), cc.clone()));
                defines.push((String::from_str("CMAKE_CXX_COMPILER"), cxx));
                defines.push((String::from_str("CMAKE_ASM_COMPILER"), cc));
                push_define(&mut defines, "FIPS", "1");
            },
            Err(e) => {
                return Err(BuildPlanError::FipsToolchain(e));
            },
        }
    } else if c.features.fips_link_precompiled {
        push_define(&mut defines, "FIPS", "1");
    }

    let mut build_targets: Vec<String> = Vec::new();
    build_targets.push(String::from_str("ssl"));
    build_targets.push(String::from_str("crypto"));

    proof {
        assert(build_targets.deep_view() =~= seq!["ssl"@, "crypto"@]);
        if c.features.fips && !c.features.fips_link_precompiled {
            let pair = spec_pick_fips_compilers(*probes)->Ok_0;
            assert(defines.deep_view() =~= spec_platform_defines(*c, pwd@, sources@)
                + spec_fips_defines(c.features, pair));
        } else {
            assert(defines.deep_view() =~= spec_platform_defines(*c, pwd@, sources@)
                + spec_fips_defines(c.features, (""@, ""@)));
        }
    }

    Ok(
        BuildPlan {
            sources,
            defines,
            cflags,
            cxxflags,
            asmflags,
            build_targets,
            warnings,
        },
    )
}

} // verus!
