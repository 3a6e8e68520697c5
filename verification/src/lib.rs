//! Build-orchestration logic for a vendored BoringSSL: configuration
//! resolution, native-build planning, FIPS integration planning, binding
//! generation planning, and linker-directive emission, with the decisions
//! stated as contracts and proved.

pub mod bindings;
pub mod config;
pub mod directives;
pub mod envmap;
pub mod fips;
pub mod native_build;
pub mod patches;
pub mod strutil;
