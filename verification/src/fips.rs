//! FIPS build support: the compiler-version policy for FIPS builds from
//! sources, and the plan for splicing a precompiled cryptographic-core
//! object into the freshly built cryptography archive.

use vstd::prelude::*;

use crate::strutil::concat2;
use crate::strutil::contains_substr;
use crate::strutil::spec_contains;

verus! {

/// What probing the candidate compilers reported: for each tool, the first
/// line of its version output, or nothing when the tool is missing or
/// failed to run.
pub struct FipsProbes {
    pub clang12_cc: Option<String>,
    pub clang12_cxx: Option<String>,
    pub clang_cc: Option<String>,
    pub clang_cxx: Option<String>,
    pub cc_cc: Option<String>,
    pub cc_cxx: Option<String>,
}

/// Why no compiler pair satisfies the FIPS security policy.
#[derive(Clone, Copy, PartialEq, Eq, Structural, Debug)]
pub enum FipsToolchainError {
    /// A candidate C compiler reported the required version but its C++
    /// sibling did not.
    MismatchedCompilerVersions,
    /// The final fallback `cc` was reached and does not report the required
    /// version, so the policy cannot be satisfied.
    UnsupportedCcVersion,
}

/// A version report satisfies the policy: it exists and its first line
/// holds the required version string.
pub open spec fn spec_version_ok(v: Option<Seq<char>>) -> bool {
    v is Some && spec_contains(v->0, "12.0.0"@)
}

/// The compiler pair the policy picks: the candidates are probed in the
/// fixed order `(clang-12, clang++-12)`, `(clang, clang++)`, `(cc, c++)`;
/// the first whose C compiler reports the required version wins, provided
/// its C++ sibling agrees; a non-matching version is only fatal once `cc`,
/// the last candidate, is reached.
pub open spec fn spec_pick_fips_compilers(p: FipsProbes) -> Result<
    (Seq<char>, Seq<char>),
    FipsToolchainError,
> {
    if spec_version_ok(p.clang12_cc.deep_view()) {
        if spec_version_ok(p.clang12_cxx.deep_view()) {
            Ok(("clang-12"@, "clang++-12"@))
        } else {
            Err(FipsToolchainError::MismatchedCompilerVersions)
        }
    } else if spec_version_ok(p.clang_cc.deep_view()) {
        if spec_version_ok(p.clang_cxx.deep_view()) {
            Ok(("clang"@, "clang++"@))
        } else {
            Err(FipsToolchainError::MismatchedCompilerVersions)
        }
    } else if spec_version_ok(p.cc_cc.deep_view()) {
        if spec_version_ok(p.cc_cxx.deep_view()) {
            Ok(("cc"@, "c++"@))
        } else {
            Err(FipsToolchainError::MismatchedCompilerVersions)
        }
    } else {
        Err(FipsToolchainError::UnsupportedCcVersion)
    }
}

fn probe_ok(v: &Option<String>) -> (r: bool)
    ensures
        r == spec_version_ok(v.deep_view()),
{
    match v {
        Some(line) => contains_substr(line.as_str(), "12.0.0"),
        None => false,
    }
}

/// Picks the compiler pair for a FIPS build from sources, enforcing the
/// security policy's required compiler version.
pub fn pick_fips_compilers(p: &FipsProbes) -> (r: Result<(String, String), FipsToolchainError>)
    ensures
        match r {
            Result::Ok(pair) => spec_pick_fips_compilers(*p) == Ok::<_, FipsToolchainError>(
                (pair.0@, pair.1@),
            ),
            Result::Err(e) => spec_pick_fips_compilers(*p) == Err::<(Seq<char>, Seq<char>), _>(e),
        },
{
    if probe_ok(&p.clang12_cc) {
        if probe_ok(&p.clang12_cxx) {
            Ok((String::from_str("clang-12"), String::from_str("clang++-12")))
        } else {
            Err(FipsToolchainError::MismatchedCompilerVersions)
        }
    } else if probe_ok(&p.clang_cc) {
        if probe_ok(&p.clang_cxx) {
            Ok((String::from_str("clang"), String::from_str("clang++")))
        } else {
            Err(FipsToolchainError::MismatchedCompilerVersions)
        }
    } else if probe_ok(&p.cc_cc) {
        if probe_ok(&p.cc_cxx) {
            Ok((String::from_str("cc"), String::from_str("c++")))
        } else {
            Err(FipsToolchainError::MismatchedCompilerVersions)
        }
    } else {
        Err(FipsToolchainError::UnsupportedCcVersion)
    }
}

/// The location of the built cryptography archive below the build output
/// directory.
pub fn libcrypto_path(bssl_dir: &str) -> (r: String)
    ensures
        r@ == bssl_dir@ + "/build/crypto/libcrypto.a"@,
{
    concat2(bssl_dir, "/build/crypto/libcrypto.a")
}

/// The splice of the precompiled cryptographic-core object into the built
/// archive, as arguments for the archive tool: first list the member named
/// `bcm.o` to verify it is present, then insert the precompiled object
/// immediately before it, so that symbol resolution prefers the validated
/// object.
pub struct SplicePlan {
    /// The operator-supplied precompiled object, to be copied first.
    pub bcm_source: String,
    /// Where the copy lands: a stable name inside the build output tree.
    pub bcm_destination: String,
    /// Arguments for the archive tool's listing call.
    pub list_args: Vec<String>,
    /// Arguments for the archive tool's replace-before insertion.
    pub insert_args: Vec<String>,
}

/// Builds the splice plan. `libcrypto` is the (canonicalized) path of the
/// built cryptography archive; `bcm_src` the operator-supplied object.
pub fn splice_plan(bssl_dir: &str, libcrypto: &str, bcm_src: &str) -> (r: SplicePlan)
    ensures
        r.bcm_source@ == bcm_src@,
        r.bcm_destination@ == bssl_dir@ + "/build/bcm-fips.o"@,
        r.list_args.deep_view() == seq!["t"@, libcrypto@, "bcm.o"@],
        r.insert_args.deep_view() == seq!["rb"@, "bcm.o"@, libcrypto@, bssl_dir@
            + "/build/bcm-fips.o"@],
{
    let dst = concat2(bssl_dir, "/build/bcm-fips.o");
    let mut list_args: Vec<String> = Vec::new();
    list_args.push(String::from_str("t"));
    list_args.push(libcrypto.to_owned());
    list_args.push(String::from_str("bcm.o"));
    let mut insert_args: Vec<String> = Vec::new();
    insert_args.push(String::from_str("rb"));
    insert_args.push(String::from_str("bcm.o"));
    insert_args.push(libcrypto.to_owned());
    insert_args.push(dst.clone());
    proof {
        assert(list_args.deep_view() =~= seq!["t"@, libcrypto@, "bcm.o"@]);
        assert(insert_args.deep_view() =~= seq!["rb"@, "bcm.o"@, libcrypto@, bssl_dir@
            + "/build/bcm-fips.o"@]);
    }
    SplicePlan { bcm_source: bcm_src.to_owned(), bcm_destination: dst, list_args, insert_args }
}

/// Whether the archive tool's listing confirms a member named exactly
/// `bcm.o`; anything else means the module is missing or mis-named, which
/// is fatal.
pub fn bcm_listing_ok(listing: &str) -> (r: bool)
    ensures
        r == (listing@ == "bcm.o"@),
{
    crate::strutil::eq_str(listing, "bcm.o")
}

} // verus!

