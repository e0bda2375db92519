//! API version names that collaborators coordinate on.

use vstd::prelude::*;

verus! {

/// Current stable API version (2.x series).
pub const V2_API: &'static str = "2.0";

/// Preview API version (3.x series).
pub const V3_PREVIEW: &'static str = "3.0-preview";

/// Legacy API version (1.x series, deprecated).
pub const V1_LEGACY: &'static str = "1.0-legacy";

/// The version of this library.
pub const CORE_TYPES_VERSION: &'static str = "0.1.0";

} // verus!
