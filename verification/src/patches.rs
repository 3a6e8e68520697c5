//! The patch applier's decisions: whether it runs at all, and which patch
//! scripts it executes, in their fixed order. The applier itself resets the
//! source tree, then runs each script with the tree as working directory,
//! all under an exclusive per-tree lock.

use vstd::prelude::*;

use crate::config::AcquisitionMode;
use crate::config::Config;
use crate::config::Features;

verus! {

/// The patch scripts the feature set implies, in the fixed order the
/// applier must follow: the post-quantum patch strictly before the raw
/// public-key patch.
pub open spec fn spec_patch_scripts(features: Features) -> Seq<Seq<char>> {
    (if features.pq_experimental {
        seq!["scripts/apply_pq_patch.sh"@]
    } else {
        Seq::<Seq<char>>::empty()
    }) + (if features.rpk {
        seq!["scripts/apply_rpk_patch.sh"@]
    } else {
        Seq::<Seq<char>>::empty()
    })
}

/// The patch scripts to execute, relative to the manifest directory.
pub fn patch_scripts(features: Features) -> (r: Vec<String>)
    ensures
        r.deep_view() == spec_patch_scripts(features),
{
    let mut r: Vec<String> = Vec::new();
    if features.pq_experimental {
        r.push(String::from_str("scripts/apply_pq_patch.sh"));
    }
    if features.rpk {
        r.push(String::from_str("scripts/apply_rpk_patch.sh"));
    }
    proof {
        assert(r.deep_view() =~= spec_patch_scripts(features));
    }
    r
}

/// Whether the patch applier runs: only when the sources are built locally,
/// and not when the operator asserts the tree is already patched.
pub open spec fn spec_patch_applier_runs(c: Config) -> bool {
    &&& !(c.mode matches AcquisitionMode::Precompiled { .. })
    &&& !c.overrides.assume_patched
}

/// Decides whether the patch applier runs for this configuration.
pub fn patch_applier_runs(c: &Config) -> (r: bool)
    ensures
        r == spec_patch_applier_runs(*c),
{
    match &c.mode {
        AcquisitionMode::Precompiled { .. } => false,
        _ => !c.overrides.assume_patched,
    }
}

} // verus!
