//! The binding generator's decisions: the fixed public-header list, the
//! include root, the target-appropriate sysroot arguments, the generator
//! options, and the output location.

use vstd::prelude::*;

use crate::strutil::concat2;
use crate::strutil::concat3;
use crate::strutil::eq_str;
use crate::strutil::spec_trim_end;
use crate::strutil::trim_end_ws;

verus! {

/// Some entry of the listing bears this name.
pub open spec fn spec_has_entry_named(entries: Seq<(Seq<char>, bool)>, name: Seq<char>) -> bool {
    exists|i: int| 0 <= i < entries.len() && entries[i].0 == name
}

/// The first entry of the listing that is a directory, if any.
pub open spec fn spec_first_dir(entries: Seq<(Seq<char>, bool)>) -> Option<Seq<char>>
    decreases entries.len(),
{
    if entries.len() == 0 {
        None
    } else if entries[0].1 {
        Some(entries[0].0)
    } else {
        spec_first_dir(entries.drop_first())
    }
}

/// The prebuilt NDK toolchain to use, from a listing of the `prebuilt`
/// directory (entry name, and whether the entry is a directory): the
/// documented host names are preferred in a fixed order; failing those, any
/// subdirectory serves; failing that, nothing.
pub open spec fn spec_pick_ndk_toolchain(entries: Seq<(Seq<char>, bool)>) -> Option<Seq<char>> {
    if spec_has_entry_named(entries, "linux-x86_64"@) {
        Some("linux-x86_64"@)
    } else if spec_has_entry_named(entries, "darwin-x86_64"@) {
        Some("darwin-x86_64"@)
    } else if spec_has_entry_named(entries, "windows-x86_64"@) {
        Some("windows-x86_64"@)
    } else {
        spec_first_dir(entries)
    }
}

fn has_entry_named(entries: &Vec<(String, bool)>, name: &str) -> (r: bool)
    ensures
        r == spec_has_entry_named(entries.deep_view(), name@),
{
    let n: usize = entries.len();
    let mut i: usize = 0;
    while i < n
        invariant
            i <= n,
            n == entries@.len(),
            forall|j: int| 0 <= j < i ==> #[trigger] entries.deep_view()[j].0 != name@,
        decreases n - i,
    {
        proof {
            assert(entries.deep_view()[i as int] == (entries@[i as int].0@, entries@[i as int].1));
        }
        if eq_str(entries[i].0.as_str(), name) {
            return true;
        }
        i = i + 1;
    }
    false
}

fn first_dir(entries: &Vec<(String, bool)>) -> (r: Option<String>)
    ensures
        r.deep_view() == spec_first_dir(entries.deep_view()),
{
    let n: usize = entries.len();
    proof {
        assert(entries.deep_view().skip(0) =~= entries.deep_view());
    }
    let mut i: usize = 0;
    while i < n
        invariant
            i <= n,
            n == entries@.len(),
            spec_first_dir(entries.deep_view()) == spec_first_dir(
                entries.deep_view().skip(i as int),
            ),
        decreases n - i,
    {
        proof {
            assert(entries.deep_view()[i as int] == (entries@[i as int].0@, entries@[i as int].1));
            assert(entries.deep_view().skip(i as int)[0] == entries.deep_view()[i as int]);
        }
        if entries[i].1 {
            return Some(entries[i].0.clone());
        }
        proof {
            assert(entries.deep_view().skip(i as int).drop_first() =~= entries.deep_view().skip(
                i as int + 1,
            ));
        }
        i = i + 1;
    }
    proof {
        assert(entries.deep_view().skip(n as int) =~= Seq::<(Seq<char>, bool)>::empty());
    }
    None
}

/// Picks the prebuilt NDK toolchain from a directory listing: one of the
/// documented host names when present, else the first subdirectory, else
/// nothing.
pub fn pick_ndk_toolchain(entries: &Vec<(String, bool)>) -> (r: Option<String>)
    ensures
        r.deep_view() == spec_pick_ndk_toolchain(entries.deep_view()),
{
    if has_entry_named(entries, "linux-x86_64") {
        Some(String::from_str("linux-x86_64"))
    } else if has_entry_named(entries, "darwin-x86_64") {
        Some(String::from_str("darwin-x86_64"))
    } else if has_entry_named(entries, "windows-x86_64") {
        Some(String::from_str("windows-x86_64"))
    } else {
        first_dir(entries)
    }
}

/// Where the prebuilt NDK toolchains live below the NDK root.
pub fn ndk_prebuilt_dir(ndk_home: &str) -> (r: String)
    ensures
        r@ == ndk_home@ + "/toolchains/llvm/prebuilt"@,
{
    concat2(ndk_home, "/toolchains/llvm/prebuilt")
}

/// The sysroot below a picked prebuilt toolchain.
pub open spec fn spec_android_sysroot(ndk_home: Seq<char>, toolchain: Seq<char>) -> Seq<char> {
    ndk_home + "/toolchains/llvm/prebuilt/"@ + toolchain + "/sysroot"@
}

/// The extra clang arguments for an Android target: `--sysroot` pointing
/// below the picked prebuilt toolchain, or nothing when no toolchain can be
/// picked (the caller warns and proceeds).
pub fn android_sysroot_args(ndk_home: &str, entries: &Vec<(String, bool)>) -> (r: Option<
    Vec<String>,
>)
    ensures
        match spec_pick_ndk_toolchain(entries.deep_view()) {
            Some(t) => r is Some && r->0.deep_view() == seq![
                "--sysroot"@,
                spec_android_sysroot(ndk_home@, t),
            ],
            None => r is None,
        },
{
    match pick_ndk_toolchain(entries) {
        Some(toolchain) => {
            let prefix = concat3(ndk_home, "/toolchains/llvm/prebuilt/", toolchain.as_str());
            let sysroot = concat2(prefix.as_str(), "/sysroot");
            let mut args: Vec<String> = Vec::new();
            args.push(String::from_str("--sysroot"));
            args.push(sysroot);
            proof {
                assert(args.deep_view() =~= seq![
                    "--sysroot"@,
                    spec_android_sysroot(ndk_home@, toolchain@),
                ]);
            }
            Some(args)
        },
        None => None,
    }
}

/// The SDK the platform SDK-path tool is asked for, by target triple:
/// `iphoneos` for the device target, `iphonesimulator` for the simulator
/// targets, nothing for a triple outside the table.
pub open spec fn spec_ios_sdk_name(target: Seq<char>) -> Option<Seq<char>> {
    if target == "aarch64-apple-ios"@ {
        Some("iphoneos"@)
    } else if target == "aarch64-apple-ios-sim"@ {
        Some("iphonesimulator"@)
    } else if target == "x86_64-apple-ios"@ {
        Some("iphonesimulator"@)
    } else {
        None
    }
}

/// Names the SDK for an iOS target triple.
pub fn ios_sdk_name(target: &str) -> (r: Option<String>)
    ensures
        r.deep_view() == spec_ios_sdk_name(target@),
{
    if eq_str(target, "aarch64-apple-ios") {
        Some(String::from_str("iphoneos"))
    } else if eq_str(target, "aarch64-apple-ios-sim") {
        Some(String::from_str("iphonesimulator"))
    } else if eq_str(target, "x86_64-apple-ios") {
        Some(String::from_str("iphonesimulator"))
    } else {
        None
    }
}

/// The extra clang arguments for an iOS target, from what the SDK-path tool
/// printed: `-isysroot` with the path, its trailing whitespace trimmed; or
/// nothing when the tool failed (the caller warns and proceeds).
pub fn ios_sysroot_args(sdk_path_output: &Option<String>) -> (r: Vec<String>)
    ensures
        match sdk_path_output {
            Some(out) => r.deep_view() == seq!["-isysroot"@, spec_trim_end(out@)],
            None => r@.len() == 0,
        },
{
    let mut args: Vec<String> = Vec::new();
    match sdk_path_output {
        Some(out) => {
            args.push(String::from_str("-isysroot"));
            args.push(trim_end_ws(out.as_str()));
            proof {
                assert(args.deep_view() =~= seq!["-isysroot"@, spec_trim_end(out@)]);
            }
        },
        None => {},
    }
    args
}

/// The include root the generator reads headers from: the operator's
/// override when given, else `include` below the sources in FIPS mode and
/// `src/include` otherwise.
pub open spec fn spec_include_path(
    sources: Seq<char>,
    override_path: Option<Seq<char>>,
    fips: bool,
) -> Seq<char> {
    match override_path {
        Some(p) => p,
        None => if fips {
            sources + "/include"@
        } else {
            sources + "/src/include"@
        },
    }
}

/// Resolves the include root for the binding generator.
pub fn bindgen_include_path(sources: &str, override_path: &Option<String>, fips: bool) -> (r:
    String)
    ensures
        r@ == spec_include_path(sources@, override_path.deep_view(), fips),
{
    match override_path {
        Some(p) => p.clone(),
        None => {
            if fips {
                concat2(sources, "/include")
            } else {
                concat2(sources, "/src/include")
            }
        },
    }
}

/// The fixed list of public headers the bindings cover, as paths below the
/// include root's `openssl` directory.
pub open spec fn spec_header_names() -> Seq<Seq<char>> {
    seq![
        "aes.h"@,
        "asn1_mac.h"@,
        "asn1t.h"@,
        "blake2.h"@,
        "blowfish.h"@,
        "cast.h"@,
        "chacha.h"@,
        "cmac.h"@,
        "cpu.h"@,
        "curve25519.h"@,
        "des.h"@,
        "dtls1.h"@,
        "hkdf.h"@,
        "hrss.h"@,
        "md4.h"@,
        "md5.h"@,
        "obj_mac.h"@,
        "objects.h"@,
        "opensslv.h"@,
        "ossl_typ.h"@,
        "pkcs12.h"@,
        "poly1305.h"@,
        "rand.h"@,
        "rc4.h"@,
        "ripemd.h"@,
        "siphash.h"@,
        "srtp.h"@,
        "trust_token.h"@,
        "x509v3.h"@,
    ]
}

/// The full header paths below the include root, in the fixed order.
pub fn bindgen_header_paths(include_path: &str) -> (r: Vec<String>)
    ensures
        r.deep_view() == spec_header_names().map_values(
            |h: Seq<char>| include_path@ + "/openssl/"@ + h,
        ),
{
    let mut r: Vec<String> = Vec::new();
    r.push(concat3(include_path, "/openssl/", "aes.h"));
    r.push(concat3(include_path, "/openssl/", "asn1_mac.h"));
    r.push(concat3(include_path, "/openssl/", "asn1t.h"));
    r.push(concat3(include_path, "/openssl/", "blake2.h"));
    r.push(concat3(include_path, "/openssl/", "blowfish.h"));
    r.push(concat3(include_path, "/openssl/", "cast.h"));
    r.push(concat3(include_path, "/openssl/", "chacha.h"));
    r.push(concat3(include_path, "/openssl/", "cmac.h"));
    r.push(concat3(include_path, "/openssl/", "cpu.h"));
    r.push(concat3(include_path, "/openssl/", "curve25519.h"));
    r.push(concat3(include_path, "/openssl/", "des.h"));
    r.push(concat3(include_path, "/openssl/", "dtls1.h"));
    r.push(concat3(include_path, "/openssl/", "hkdf.h"));
    r.push(concat3(include_path, "/openssl/", "hrss.h"));
    r.push(concat3(include_path, "/openssl/", "md4.h"));
    r.push(concat3(include_path, "/openssl/", "md5.h"));
    r.push(concat3(include_path, "/openssl/", "obj_mac.h"));
    r.push(concat3(include_path, "/openssl/", "objects.h"));
    r.push(concat3(include_path, "/openssl/", "opensslv.h"));
    r.push(concat3(include_path, "/openssl/", "ossl_typ.h"));
    r.push(concat3(include_path, "/openssl/", "pkcs12.h"));
    r.push(concat3(include_path, "/openssl/", "poly1305.h"));
    r.push(concat3(include_path, "/openssl/", "rand.h"));
    r.push(concat3(include_path, "/openssl/", "rc4.h"));
    r.push(concat3(include_path, "/openssl/", "ripemd.h"));
    r.push(concat3(include_path, "/openssl/", "siphash.h"));
    r.push(concat3(include_path, "/openssl/", "srtp.h"));
    r.push(concat3(include_path, "/openssl/", "trust_token.h"));
    r.push(concat3(include_path, "/openssl/", "x509v3.h"));
    proof {
        assert(r.deep_view() =~= spec_header_names().map_values(
            |h: Seq<char>| include_path@ + "/openssl/"@ + h,
        ));
    }
    r
}

/// Layout tests are generated everywhere except the two targets whose
/// platform SDK deliberately under-aligns types, where such tests are
/// unsound.
pub open spec fn spec_layout_tests_enabled(target: Seq<char>) -> bool {
    !(target == "aarch64-apple-ios"@ || target == "aarch64-apple-ios-sim"@)
}

/// Whether the generator keeps its layout tests for this target.
pub fn layout_tests_enabled(target: &str) -> (r: bool)
    ensures
        r == spec_layout_tests_enabled(target@),
{
    !(eq_str(target, "aarch64-apple-ios") || eq_str(target, "aarch64-apple-ios-sim"))
}

/// The generator options: derive the value traits on record types, treat
/// enumerations as distinct opaque newtypes, treat macro constants as
/// signed, keep doc comments, use the native pointer-sized integer for the
/// machine word, and keep layout tests where they are sound.
pub struct BindgenOptions {
    pub derive_copy: bool,
    pub derive_debug: bool,
    pub derive_default: bool,
    pub derive_eq: bool,
    pub enum_newtype: bool,
    pub enum_newtype_is_bitfield: bool,
    pub enum_newtype_is_global: bool,
    pub macro_constants_signed: bool,
    pub generate_comments: bool,
    pub fit_macro_constants: bool,
    pub size_t_is_usize: bool,
    pub prepend_enum_name: bool,
    pub layout_tests: bool,
}

/// The generator options for this target.
pub fn bindgen_options(target: &str) -> (r: BindgenOptions)
    ensures
        r.derive_copy,
        r.derive_debug,
        r.derive_default,
        r.derive_eq,
        r.enum_newtype,
        !r.enum_newtype_is_bitfield,
        !r.enum_newtype_is_global,
        r.macro_constants_signed,
        r.generate_comments,
        !r.fit_macro_constants,
        r.size_t_is_usize,
        r.prepend_enum_name,
        r.layout_tests == spec_layout_tests_enabled(target@),
{
    BindgenOptions {
        derive_copy: true,
        derive_debug: true,
        derive_default: true,
        derive_eq: true,
        enum_newtype: true,
        enum_newtype_is_bitfield: false,
        enum_newtype_is_global: false,
        macro_constants_signed: true,
        generate_comments: true,
        fit_macro_constants: false,
        size_t_is_usize: true,
        prepend_enum_name: true,
        layout_tests: layout_tests_enabled(target),
    }
}

/// Where the generated declarations are written: the name is an interface
/// contract with the surrounding wrapper.
pub fn bindings_output_path(out_dir: &str) -> (r: String)
    ensures
        r@ == out_dir@ + "/bindings.rs"@,
{
    concat2(out_dir, "/bindings.rs")
}

} // verus!
