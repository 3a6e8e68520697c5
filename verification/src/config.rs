//! The configuration resolver: from a snapshot of the environment and the
//! selected feature set to a single immutable configuration record, or a
//! precise error. Downstream components read only this record.

use vstd::prelude::*;

use crate::envmap::lookup;
use crate::envmap::resolve_var;
use crate::envmap::spec_consulted;
use crate::envmap::spec_lookup;
use crate::envmap::spec_resolve;
use crate::strutil::concat2;
use crate::strutil::eq_str;

verus! {

/// The feature selections, an ordinary record: every branch downstream is a
/// runtime branch on these fields.
#[derive(Clone, Copy, PartialEq, Eq, Structural, Debug)]
pub struct Features {
    pub fips: bool,
    pub fips_link_precompiled: bool,
    pub pq_experimental: bool,
    pub rpk: bool,
    pub fuzzing: bool,
    pub ndk_old_gcc: bool,
    pub underscore_wildcards: bool,
}

/// A FIPS build, whether built wholly from sources or completed by splicing
/// in a precompiled core object: both lay the archives out the FIPS way and
/// ship the FIPS include root.
pub open spec fn spec_fips_mode(features: Features) -> bool {
    features.fips || features.fips_link_precompiled
}

/// Whether this is a FIPS build in either form.
pub fn fips_mode(features: Features) -> (r: bool)
    ensures
        r == spec_fips_mode(features),
{
    features.fips || features.fips_link_precompiled
}

/// The environment overrides the resolver captures, each found through the
/// four-tier precedence scheme.
pub struct EnvOverrides {
    pub path: Option<String>,
    pub include_path: Option<String>,
    pub source_path: Option<String>,
    pub assume_patched: bool,
    pub precompiled_bcm_o: Option<String>,
    pub android_ndk_home: Option<String>,
    pub debug: Option<String>,
    pub opt_level: Option<String>,
}

/// How the native library archives arrive on disk. Chosen exactly once, by
/// the resolver.
pub enum AcquisitionMode {
    Precompiled { path: String },
    BuildFromSources { sources: String },
    BuildFromSourcesWithFipsSplice { sources: String, precompiled_core_object: String },
}

/// A misconfiguration, reported before any external work is attempted.
#[derive(Clone, Copy, PartialEq, Eq, Structural, Debug)]
pub enum ConfigError {
    MissingManifestDir,
    MissingOutDir,
    MissingHost,
    MissingTarget,
    MissingTargetArch,
    MissingTargetOs,
    FipsAndRpkConflict,
    PrecompiledWithIncompatibleFeatures,
    AssumePatchedWithoutSources,
    MissingPrecompiledBcmObject,
}

/// A soft degradation the resolver records for the operator to see.
#[derive(Clone, Copy, PartialEq, Eq, Structural, Debug)]
pub enum ConfigWarning {
    PrecompiledIgnoresPatches,
}

/// The configuration record. Invariant: downstream components read from
/// this record and never re-read the process environment for inputs
/// captured here.
pub struct Config {
    pub manifest_dir: String,
    pub out_dir: String,
    pub host: String,
    pub target: String,
    pub target_arch: String,
    pub target_os: String,
    pub features: Features,
    pub overrides: EnvOverrides,
    pub mode: AcquisitionMode,
    pub consulted: Vec<String>,
    pub warnings: Vec<ConfigWarning>,
}

/// Whether the patch applier is to be skipped: the override is set to a
/// non-empty value.
pub open spec fn spec_assume_patched(
    env: Seq<(Seq<char>, Seq<char>)>,
    target: Seq<char>,
    host_eq_target: bool,
) -> bool {
    match spec_resolve(env, "BORING_BSSL_ASSUME_PATCHED"@, target, host_eq_target) {
        Some(v) => v.len() > 0,
        None => false,
    }
}

/// The vendored location of the sources under the manifest directory: the
/// FIPS-validated tree for a FIPS build from sources, the ordinary tree
/// otherwise.
pub open spec fn spec_default_sources(manifest_dir: Seq<char>, features: Features) -> Seq<char> {
    if features.fips && !features.fips_link_precompiled {
        manifest_dir + "/deps/boringssl-fips"@
    } else {
        manifest_dir + "/deps/boringssl"@
    }
}

/// The source tree the build uses: the operator's override when given, the
/// vendored default otherwise.
pub open spec fn spec_sources(
    manifest_dir: Seq<char>,
    source_path: Option<Seq<char>>,
    features: Features,
) -> Seq<char> {
    match source_path {
        Some(p) => p,
        None => spec_default_sources(manifest_dir, features),
    }
}

/// The error the resolver reports, if any: missing required context first,
/// in a fixed order, then the feature-compatibility rules, then the inputs
/// the chosen acquisition mode itself requires.
pub open spec fn spec_config_error(features: Features, env: Seq<(Seq<char>, Seq<char>)>) -> Option<
    ConfigError,
> {
    if spec_lookup(env, "CARGO_MANIFEST_DIR"@) is None {
        Some(ConfigError::MissingManifestDir)
    } else if spec_lookup(env, "OUT_DIR"@) is None {
        Some(ConfigError::MissingOutDir)
    } else if spec_lookup(env, "HOST"@) is None {
        Some(ConfigError::MissingHost)
    } else if spec_lookup(env, "TARGET"@) is None {
        Some(ConfigError::MissingTarget)
    } else if spec_lookup(env, "CARGO_CFG_TARGET_ARCH"@) is None {
        Some(ConfigError::MissingTargetArch)
    } else if spec_lookup(env, "CARGO_CFG_TARGET_OS"@) is None {
        Some(ConfigError::MissingTargetOs)
    } else if features.fips && features.rpk {
        Some(ConfigError::FipsAndRpkConflict)
    } else {
        let target = spec_lookup(env, "TARGET"@)->0;
        let het = spec_lookup(env, "HOST"@)->0 == target;
        let path = spec_resolve(env, "BORING_BSSL_PATH"@, target, het);
        let source_path = spec_resolve(env, "BORING_BSSL_SOURCE_PATH"@, target, het);
        if path is Some && (features.fips || features.pq_experimental || features.rpk) {
            Some(ConfigError::PrecompiledWithIncompatibleFeatures)
        } else if spec_assume_patched(env, target, het) && path is None && source_path is None {
            Some(ConfigError::AssumePatchedWithoutSources)
        } else if path is None && features.fips_link_precompiled && spec_resolve(
            env,
            "BORING_SSL_PRECOMPILED_BCM_O"@,
            target,
            het,
        ) is None {
            Some(ConfigError::MissingPrecompiledBcmObject)
        } else {
            None
        }
    }
}

/// Every key the resolver consults, in the order it consults them: the six
/// required context variables, then the four-tier lookups of each override.
pub open spec fn spec_all_consulted(
    env: Seq<(Seq<char>, Seq<char>)>,
    target: Seq<char>,
    het: bool,
) -> Seq<Seq<char>> {
    seq![
        "CARGO_MANIFEST_DIR"@,
        "OUT_DIR"@,
        "HOST"@,
        "TARGET"@,
        "CARGO_CFG_TARGET_ARCH"@,
        "CARGO_CFG_TARGET_OS"@,
    ] + spec_consulted(env, "BORING_BSSL_PATH"@, target, het) + spec_consulted(
        env,
        "BORING_BSSL_INCLUDE_PATH"@,
        target,
        het,
    ) + spec_consulted(env, "BORING_BSSL_SOURCE_PATH"@, target, het) + spec_consulted(
        env,
        "BORING_BSSL_ASSUME_PATCHED"@,
        target,
        het,
    ) + spec_consulted(env, "BORING_SSL_PRECOMPILED_BCM_O"@, target, het) + spec_consulted(
        env,
        "ANDROID_NDK_HOME"@,
        target,
        het,
    ) + spec_consulted(env, "DEBUG"@, target, het) + spec_consulted(env, "OPT_LEVEL"@, target, het)
}

/// A well-formed configuration: what `resolve_config` promises of the
/// record it returns, relative to the snapshot it read.
pub open spec fn spec_config_ok(
    c: Config,
    features: Features,
    env: Seq<(Seq<char>, Seq<char>)>,
) -> bool {
    let target = c.target@;
    let het = c.host@ == c.target@;
    &&& Some(c.manifest_dir@) == spec_lookup(env, "CARGO_MANIFEST_DIR"@)
    &&& Some(c.out_dir@) == spec_lookup(env, "OUT_DIR"@)
    &&& Some(c.host@) == spec_lookup(env, "HOST"@)
    &&& Some(c.target@) == spec_lookup(env, "TARGET"@)
    &&& Some(c.target_arch@) == spec_lookup(env, "CARGO_CFG_TARGET_ARCH"@)
    &&& Some(c.target_os@) == spec_lookup(env, "CARGO_CFG_TARGET_OS"@)
    &&& c.features == features
    &&& c.overrides.path.deep_view() == spec_resolve(env, "BORING_BSSL_PATH"@, target, het)
    &&& c.overrides.include_path.deep_view() == spec_resolve(
        env,
        "BORING_BSSL_INCLUDE_PATH"@,
        target,
        het,
    )
    &&& c.overrides.source_path.deep_view() == spec_resolve(
        env,
        "BORING_BSSL_SOURCE_PATH"@,
        target,
        het,
    )
    &&& c.overrides.assume_patched == spec_assume_patched(env, target, het)
    &&& c.overrides.precompiled_bcm_o.deep_view() == spec_resolve(
        env,
        "BORING_SSL_PRECOMPILED_BCM_O"@,
        target,
        het,
    )
    &&& c.overrides.android_ndk_home.deep_view() == spec_resolve(
        env,
        "ANDROID_NDK_HOME"@,
        target,
        het,
    )
    &&& c.overrides.debug.deep_view() == spec_resolve(env, "DEBUG"@, target, het)
    &&& c.overrides.opt_level.deep_view() == spec_resolve(env, "OPT_LEVEL"@, target, het)
    &&& c.consulted.deep_view() == spec_all_consulted(env, target, het)
    &&& (c.overrides.path is Some ==> (c.mode matches AcquisitionMode::Precompiled { path }
        && path@ == c.overrides.path->0@))
    &&& (c.overrides.path is None && !features.fips_link_precompiled ==> (c.mode
        matches AcquisitionMode::BuildFromSources { sources } && sources@ == spec_sources(
        c.manifest_dir@,
        c.overrides.source_path.deep_view(),
        features,
    )))
    &&& (c.overrides.path is None && features.fips_link_precompiled ==> (c.mode
        matches AcquisitionMode::BuildFromSourcesWithFipsSplice {
        sources,
        precompiled_core_object,
    } && sources@ == spec_sources(c.manifest_dir@, c.overrides.source_path.deep_view(), features)
        && c.overrides.precompiled_bcm_o is Some && precompiled_core_object@
        == c.overrides.precompiled_bcm_o->0@))
    &&& c.warnings@ == (if c.overrides.path is Some && features.underscore_wildcards
        && !c.overrides.assume_patched {
        seq![ConfigWarning::PrecompiledIgnoresPatches]
    } else {
        Seq::<ConfigWarning>::empty()
    })
}

/// The source tree the configuration names: the operator's override when
/// given, the vendored default below the manifest directory otherwise. The
/// binding generator's include root is found below this tree even when the
/// archives themselves arrive precompiled.
pub fn source_tree(c: &Config) -> (r: String)
    ensures
        r@ == spec_sources(c.manifest_dir@, c.overrides.source_path.deep_view(), c.features),
{
    match &c.overrides.source_path {
        Some(p) => p.clone(),
        None => {
            if c.features.fips && !c.features.fips_link_precompiled {
                concat2(c.manifest_dir.as_str(), "/deps/boringssl-fips")
            } else {
                concat2(c.manifest_dir.as_str(), "/deps/boringssl")
            }
        },
    }
}

/// With both `fips` and `rpk` selected, the resolver rejects every
/// configuration: `resolve_config` can then never return a record.
pub proof fn lemma_fips_rpk_rejected(features: Features, env: Seq<(Seq<char>, Seq<char>)>)
    requires
        features.fips,
        features.rpk,
    ensures
        spec_config_error(features, env) is Some,
{
}

/// With a precompiled-library path set, selecting any of `fips`,
/// `pq-experimental` or `rpk` has the resolver reject the configuration.
pub proof fn lemma_precompiled_conflicts_rejected(
    features: Features,
    env: Seq<(Seq<char>, Seq<char>)>,
    target: Seq<char>,
    het: bool,
)
    requires
        spec_lookup(env, "TARGET"@) == Some(target),
        spec_lookup(env, "HOST"@) is Some,
        het == (spec_lookup(env, "HOST"@)->0 == target),
        spec_resolve(env, "BORING_BSSL_PATH"@, target, het) is Some,
        features.fips || features.pq_experimental || features.rpk,
    ensures
        spec_config_error(features, env) is Some,
{
}

/// With `assume-patched` set but neither a precompiled path nor a source
/// path, the resolver rejects the configuration.
pub proof fn lemma_assume_patched_needs_sources(
    features: Features,
    env: Seq<(Seq<char>, Seq<char>)>,
    target: Seq<char>,
    het: bool,
)
    requires
        spec_lookup(env, "TARGET"@) == Some(target),
        spec_lookup(env, "HOST"@) is Some,
        het == (spec_lookup(env, "HOST"@)->0 == target),
        spec_assume_patched(env, target, het),
        spec_resolve(env, "BORING_BSSL_PATH"@, target, het) is None,
        spec_resolve(env, "BORING_BSSL_SOURCE_PATH"@, target, het) is None,
    ensures
        spec_config_error(features, env) is Some,
{
}

/// Resolves the configuration from the feature selections and a snapshot of
/// the environment. Fails fast, with the precise error `spec_config_error`
/// names; on success every field of the record is pinned to the snapshot.
pub fn resolve_config(features: Features, env: &Vec<(String, String)>) -> (r: Result<
    Config,
    ConfigError,
>)
    ensures
        match r {
            Result::Ok(c) => spec_config_error(features, env.deep_view()) is None
                && spec_config_ok(c, features, env.deep_view()),
            Result::Err(e) => spec_config_error(features, env.deep_view()) == Some(e),
        },
{
    let manifest_dir = match lookup(env, "CARGO_MANIFEST_DIR") {
        Some(v) => v,
        None => {
            return Err(ConfigError::MissingManifestDir);
        },
    };
    let out_dir = match lookup(env, "OUT_DIR") {
        Some(v) => v,
        None => {
            return Err(ConfigError::MissingOutDir);
        },
    };
    let host = match lookup(env, "HOST") {
        Some(v) => v,
        None => {
            return Err(ConfigError::MissingHost);
        },
    };
    let target = match lookup(env, "TARGET") {
        Some(v) => v,
        None => {
            return Err(ConfigError::MissingTarget);
        },
    };
    let target_arch = match lookup(env, "CARGO_CFG_TARGET_ARCH") {
        Some(v) => v,
        None => {
            return Err(ConfigError::MissingTargetArch);
        },
    };
    let target_os = match lookup(env, "CARGO_CFG_TARGET_OS") {
        Some(v) => v,
        None => {
            return Err(ConfigError::MissingTargetOs);
        },
    };
    if features.fips && features.rpk {
        return Err(ConfigError::FipsAndRpkConflict);
    }

    let het = eq_str(host.as_str(), target.as_str());
    let mut consulted: Vec<String> = Vec::new();
    consulted.push(String::from_str("CARGO_MANIFEST_DIR"));
    consulted.push(String::from_str("OUT_DIR"));
    consulted.push(String::from_str("HOST"));
    consulted.push(String::from_str("TARGET"));
    consulted.push(String::from_str("CARGO_CFG_TARGET_ARCH"));
    consulted.push(String::from_str("CARGO_CFG_TARGET_OS"));

    let path = resolve_var(env, "BORING_BSSL_PATH", target.as_str(), het, &mut consulted);
    let include_path = resolve_var(
        env,
        "BORING_BSSL_INCLUDE_PATH",
        target.as_str(),
        het,
        &mut consulted,
    );
    let source_path = resolve_var(
        env,
        "BORING_BSSL_SOURCE_PATH",
        target.as_str(),
        het,
        &mut consulted,
    );
    let assume_patched_raw = resolve_var(
        env,
        "BORING_BSSL_ASSUME_PATCHED",
        target.as_str(),
        het,
        &mut consulted,
    );
    let precompiled_bcm_o = resolve_var(
        env,
        "BORING_SSL_PRECOMPILED_BCM_O",
        target.as_str(),
        het,
        &mut consulted,
    );
    let android_ndk_home = resolve_var(env, "ANDROID_NDK_HOME", target.as_str(), het, &mut consulted);
    let debug = resolve_var(env, "DEBUG", target.as_str(), het, &mut consulted);
    let opt_level = resolve_var(env, "OPT_LEVEL", target.as_str(), het, &mut consulted);

    let assume_patched = match &assume_patched_raw {
        Some(v) => v.as_str().unicode_len() > 0,
        None => false,
    };

    if path.is_some() && (features.fips || features.pq_experimental || features.rpk) {
        return Err(ConfigError::PrecompiledWithIncompatibleFeatures);
    }
    if assume_patched && path.is_none() && source_path.is_none() {
        return Err(ConfigError::AssumePatchedWithoutSources);
    }

    let mode: AcquisitionMode = match &path {
        Some(p) => AcquisitionMode::Precompiled { path: p.clone() },
        None => {
            let sources = match &source_path {
                Some(sp) => sp.clone(),
                None => {
                    if features.fips && !features.fips_link_precompiled {
                        concat2(manifest_dir.as_str(), "/deps/boringssl-fips")
                    } else {
                        concat2(manifest_dir.as_str(), "/deps/boringssl")
                    }
                },
            };
            if features.fips_link_precompiled {
                match &precompiled_bcm_o {
                    Some(o) => AcquisitionMode::BuildFromSourcesWithFipsSplice {
                        sources,
                        precompiled_core_object: o.clone(),
                    },
                    None => {
                        return Err(ConfigError::MissingPrecompiledBcmObject);
                    },
                }
            } else {
                AcquisitionMode::BuildFromSources { sources }
            }
        },
    };

    let mut warnings: Vec<ConfigWarning> = Vec::new();
    if path.is_some() && features.underscore_wildcards && !assume_patched {
        warnings.push(ConfigWarning::PrecompiledIgnoresPatches);
    }

    let c = Config {
        manifest_dir,
        out_dir,
        host,
        target,
        target_arch,
        target_os,
        features,
        overrides: EnvOverrides {
            path,
            include_path,
            source_path,
            assume_patched,
            precompiled_bcm_o,
            android_ndk_home,
            debug,
            opt_level,
        },
        mode,
        consulted,
        warnings,
    };
    proof {
        assert(c.consulted.deep_view() =~= spec_all_consulted(
            env.deep_view(),
            c.target@,
            c.host@ == c.target@,
        ));
        assert(c.warnings@ =~= (if c.overrides.path is Some && features.underscore_wildcards
            && !c.overrides.assume_patched {
            seq![ConfigWarning::PrecompiledIgnoresPatches]
        } else {
            Seq::<ConfigWarning>::empty()
        }));
    }
    Ok(c)
}

} // verus!
