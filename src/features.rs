//! The capabilities this build of the library offers.

use vstd::prelude::*;

verus! {

/// The stable v2 surface.
pub const V2_API_ENABLED: bool = true;

/// Preview helpers: prefixed identifiers and typed content.
pub const V3_PREVIEW_ENABLED: bool = true;

/// Deprecated v1 helpers: legacy constructors and accessors.
pub const V1_LEGACY_ENABLED: bool = true;

/// Error severity classification.
pub const ENHANCED_ERRORS_ENABLED: bool = true;

/// The alternative identifier constructor.
pub const PERFORMANCE_OPTS_ENABLED: bool = true;

/// Experimental features.
pub const EXPERIMENTAL_ENABLED: bool = false;

/// Whether the v2 API is enabled.
pub fn is_v2_api_enabled() -> (r: bool)
    ensures
        r == V2_API_ENABLED,
{
    V2_API_ENABLED
}

/// Whether the v3 preview features are enabled.
pub fn is_v3_preview_enabled() -> (r: bool)
    ensures
        r == V3_PREVIEW_ENABLED,
{
    V3_PREVIEW_ENABLED
}

/// Whether the deprecated v1 features are enabled.
pub fn is_v1_legacy_enabled() -> (r: bool)
    ensures
        r == V1_LEGACY_ENABLED,
{
    V1_LEGACY_ENABLED
}

/// Whether error severity classification is enabled.
pub fn is_enhanced_errors_enabled() -> (r: bool)
    ensures
        r == ENHANCED_ERRORS_ENABLED,
{
    ENHANCED_ERRORS_ENABLED
}

/// Whether the performance options are enabled.
pub fn is_performance_opts_enabled() -> (r: bool)
    ensures
        r == PERFORMANCE_OPTS_ENABLED,
{
    PERFORMANCE_OPTS_ENABLED
}

/// `s` with `name` appended when `on`.
pub open spec fn push_if(s: Seq<Seq<char>>, on: bool, name: Seq<char>) -> Seq<Seq<char>> {
    if on { s.push(name) } else { s }
}

/// The names of the enabled features, in a fixed order.
pub open spec fn active_feature_names() -> Seq<Seq<char>> {
    let s = push_if(Seq::empty(), V2_API_ENABLED, "v2-api"@);
    let s = push_if(s, V3_PREVIEW_ENABLED, "v3-preview"@);
    let s = push_if(s, V1_LEGACY_ENABLED, "deprecated-v1"@);
    let s = push_if(s, ENHANCED_ERRORS_ENABLED, "enhanced-errors"@);
    let s = push_if(s, PERFORMANCE_OPTS_ENABLED, "performance-opts"@);
    push_if(s, EXPERIMENTAL_ENABLED, "experimental"@)
}

/// The texts of a sequence of string slices.
pub open spec fn str_texts(v: Seq<&str>) -> Seq<Seq<char>> {
    v.map_values(|s: &str| s@)
}

/// The names of the enabled features.
pub fn active_features() -> (r: Vec<&'static str>)
    ensures
        str_texts(r@) == active_feature_names(),
{
    let mut features: Vec<&'static str> = Vec::new();
    if is_v2_api_enabled() {
        features.push("v2-api");
    }
    if is_v3_preview_enabled() {
        features.push("v3-preview");
    }
    if is_v1_legacy_enabled() {
        features.push("deprecated-v1");
    }
    if is_enhanced_errors_enabled() {
        features.push("enhanced-errors");
    }
    if is_performance_opts_enabled() {
        features.push("performance-opts");
    }
    if EXPERIMENTAL_ENABLED {
        features.push("experimental");
    }
    assert(str_texts(features@) =~= active_feature_names());
    features
}

} // verus!
