//! The linker-directive emitter: the lines handed to the invoking build
//! runner, pinned character for character. A FIPS build exposes the two
//! per-archive search paths; every other build exposes the single build
//! directory; both archives are always linked statically; and every
//! environment variable the resolver consulted is re-declared as a rerun
//! trigger.

use vstd::prelude::*;

use crate::strutil::concat2;
use crate::strutil::concat4;

verus! {

/// The native search-path directives: two paths (cryptography archive
/// first, TLS archive second) under FIPS, one otherwise. `subdir` is the
/// platform-conditional output subdirectory, empty outside MSVC.
pub open spec fn spec_link_search_lines(fips: bool, dir: Seq<char>, subdir: Seq<char>) -> Seq<
    Seq<char>,
> {
    if fips {
        seq![
            "cargo:rustc-link-search=native="@ + dir + "/build/crypto/"@ + subdir,
            "cargo:rustc-link-search=native="@ + dir + "/build/ssl/"@ + subdir,
        ]
    } else {
        seq!["cargo:rustc-link-search=native="@ + dir + "/build/"@ + subdir]
    }
}

/// Emits the native search-path lines; exactly two under FIPS, exactly one
/// otherwise.
pub fn link_search_lines(fips: bool, bssl_dir: &str, subdir: &str) -> (r: Vec<String>)
    ensures
        r.deep_view() == spec_link_search_lines(fips, bssl_dir@, subdir@),
        r@.len() == if fips {
            2int
        } else {
            1int
        },
{
    let mut r: Vec<String> = Vec::new();
    if fips {
        r.push(concat4("cargo:rustc-link-search=native=", bssl_dir, "/build/crypto/", subdir));
        r.push(concat4("cargo:rustc-link-search=native=", bssl_dir, "/build/ssl/", subdir));
    } else {
        r.push(concat4("cargo:rustc-link-search=native=", bssl_dir, "/build/", subdir));
    }
    proof {
        assert(r.deep_view() =~= spec_link_search_lines(fips, bssl_dir@, subdir@));
    }
    r
}

/// The static-link directives, always both archives: cryptography first,
/// TLS second.
pub fn link_lib_lines() -> (r: Vec<String>)
    ensures
        r.deep_view() == seq![
            "cargo:rustc-link-lib=static=crypto"@,
            "cargo:rustc-link-lib=static=ssl"@,
        ],
{
    let mut r: Vec<String> = Vec::new();
    r.push(String::from_str("cargo:rustc-link-lib=static=crypto"));
    r.push(String::from_str("cargo:rustc-link-lib=static=ssl"));
    proof {
        assert(r.deep_view() =~= seq![
            "cargo:rustc-link-lib=static=crypto"@,
            "cargo:rustc-link-lib=static=ssl"@,
        ]);
    }
    r
}

/// One rerun-if-changed declaration per consulted environment variable,
/// present or not, in the order the variables were consulted.
pub open spec fn spec_rerun_lines(consulted: Seq<Seq<char>>) -> Seq<Seq<char>> {
    consulted.map_values(|n: Seq<char>| "cargo:rerun-if-env-changed="@ + n)
}

/// Emits the rerun-if-changed lines for every consulted variable.
pub fn rerun_lines(consulted: &Vec<String>) -> (r: Vec<String>)
    ensures
        r.deep_view() == spec_rerun_lines(consulted.deep_view()),
{
    let n: usize = consulted.len();
    let mut r: Vec<String> = Vec::new();
    let mut i: usize = 0;
    while i < n
        invariant
            i <= n,
            n == consulted@.len(),
            r@.len() == i,
            forall|j: int| 0 <= j < i ==> #[trigger] r@[j]@ == "cargo:rerun-if-env-changed="@
                + consulted@[j]@,
        decreases n - i,
    {
        let line = concat2("cargo:rerun-if-env-changed=", consulted[i].as_str());
        r.push(line);
        i = i + 1;
    }
    proof {
        assert forall|j: int| 0 <= j < r.deep_view().len() implies r.deep_view()[j]
            == spec_rerun_lines(consulted.deep_view())[j] by {
            assert(r.deep_view()[j] == r@[j]@);
            assert(consulted.deep_view()[j] == consulted@[j]@);
        }
        assert(r.deep_view() =~= spec_rerun_lines(consulted.deep_view()));
    }
    r
}

} // verus!
