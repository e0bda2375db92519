use nodespace_core_types::compatibility::{compatibility_matrix, is_compatible_with};
use nodespace_core_types::features::{
    active_features, is_enhanced_errors_enabled, is_performance_opts_enabled, is_v1_legacy_enabled,
    is_v2_api_enabled, is_v3_preview_enabled,
};
use nodespace_core_types::version::{V1_LEGACY, V2_API, V3_PREVIEW};

#[test]
fn flags_match_active_features() {
    let active = active_features();
    assert_eq!(active.contains(&"v2-api"), is_v2_api_enabled());
    assert_eq!(active.contains(&"v3-preview"), is_v3_preview_enabled());
    assert_eq!(active.contains(&"deprecated-v1"), is_v1_legacy_enabled());
    assert_eq!(active.contains(&"enhanced-errors"), is_enhanced_errors_enabled());
    assert_eq!(active.contains(&"performance-opts"), is_performance_opts_enabled());
    assert!(!active.contains(&"experimental"));
    assert_eq!(active, vec!["v2-api", "v3-preview", "deprecated-v1", "enhanced-errors", "performance-opts"]);
}

#[test]
fn compatibility_by_major_version() {
    assert!(is_compatible_with(V2_API));
    assert!(is_compatible_with("2.7"));
    assert!(is_compatible_with(V3_PREVIEW));
    assert!(is_compatible_with(V1_LEGACY));
    assert!(!is_compatible_with("4.0"));
    assert!(!is_compatible_with("2"));
    assert!(!is_compatible_with(""));
}

#[test]
fn matrix_lists_versions_per_feature() {
    let m = compatibility_matrix();
    assert_eq!(m.len(), 3);
    assert_eq!(m[0], ("v2-api", vec!["2.0", "2.1", "2.x"]));
    assert_eq!(m[1], ("v3-preview", vec!["3.0-preview", "3.0-alpha"]));
    assert_eq!(m[2], ("deprecated-v1", vec!["1.0", "1.1", "1.x"]));
}
