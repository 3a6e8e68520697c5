use boring_build::fips::{
    bcm_listing_ok, libcrypto_path, pick_fips_compilers, splice_plan, FipsProbes,
    FipsToolchainError,
};

fn no_probes() -> FipsProbes {
    FipsProbes {
        clang12_cc: None,
        clang12_cxx: None,
        clang_cc: None,
        clang_cxx: None,
        cc_cc: None,
        cc_cxx: None,
    }
}

#[test]
fn picks_clang_12_when_both_report_the_version() {
    let mut p = no_probes();
    p.clang12_cc = Some("clang version 12.0.0".to_string());
    p.clang12_cxx = Some("clang version 12.0.0".to_string());
    let pair = pick_fips_compilers(&p).unwrap();
    assert_eq!(pair.0, "clang-12");
    assert_eq!(pair.1, "clang++-12");
}

#[test]
fn falls_through_to_plain_clang_when_clang_12_is_absent() {
    let mut p = no_probes();
    p.clang_cc = Some("Apple clang version 12.0.0 (clang-1200)".to_string());
    p.clang_cxx = Some("Apple clang version 12.0.0 (clang-1200)".to_string());
    let pair = pick_fips_compilers(&p).unwrap();
    assert_eq!(pair.0, "clang");
    assert_eq!(pair.1, "clang++");
}

#[test]
fn skips_a_non_matching_clang_and_takes_cc() {
    let mut p = no_probes();
    p.clang_cc = Some("clang version 14.0.6".to_string());
    p.cc_cc = Some("cc based on clang 12.0.0".to_string());
    p.cc_cxx = Some("c++ based on clang 12.0.0".to_string());
    let pair = pick_fips_compilers(&p).unwrap();
    assert_eq!(pair.0, "cc");
    assert_eq!(pair.1, "c++");
}

#[test]
fn fails_when_cc_reports_a_non_matching_version() {
    let mut p = no_probes();
    p.cc_cc = Some("cc (GCC) 11.2.0".to_string());
    let r = pick_fips_compilers(&p);
    assert_eq!(r.err(), Some(FipsToolchainError::UnsupportedCcVersion));
}

#[test]
fn fails_when_every_candidate_is_missing() {
    let r = pick_fips_compilers(&no_probes());
    assert_eq!(r.err(), Some(FipsToolchainError::UnsupportedCcVersion));
}

#[test]
fn mismatched_cxx_version_is_fatal() {
    let mut p = no_probes();
    p.clang12_cc = Some("clang version 12.0.0".to_string());
    p.clang12_cxx = Some("clang version 13.0.1".to_string());
    let r = pick_fips_compilers(&p);
    assert_eq!(
        r.err(),
        Some(FipsToolchainError::MismatchedCompilerVersions)
    );
}

#[test]
fn splice_plan_names_the_archive_tool_calls() {
    let lib = libcrypto_path("/bssl");
    assert_eq!(lib, "/bssl/build/crypto/libcrypto.a");
    let plan = splice_plan("/bssl", &lib, "/tmp/bcm.o");
    assert_eq!(plan.bcm_source, "/tmp/bcm.o");
    assert_eq!(plan.bcm_destination, "/bssl/build/bcm-fips.o");
    assert_eq!(
        plan.list_args,
        vec![
            "t".to_string(),
            "/bssl/build/crypto/libcrypto.a".to_string(),
            "bcm.o".to_string(),
        ]
    );
    assert_eq!(
        plan.insert_args,
        vec![
            "rb".to_string(),
            "bcm.o".to_string(),
            "/bssl/build/crypto/libcrypto.a".to_string(),
            "/bssl/build/bcm-fips.o".to_string(),
        ]
    );
}

#[test]
fn bcm_listing_must_match_exactly() {
    assert!(bcm_listing_ok("bcm.o"));
    assert!(!bcm_listing_ok("bcm.o\n"));
    assert!(!bcm_listing_ok("other.o"));
    assert!(!bcm_listing_ok(""));
}
