//! Which API versions this build serves.

use vstd::prelude::*;
use crate::features::{str_texts, V1_LEGACY_ENABLED, V2_API_ENABLED, V3_PREVIEW_ENABLED};
use crate::text::{begins_with, has_prefix};

verus! {

/// Whether this build serves the version `v`, by its major version.
pub open spec fn compatible(v: Seq<char>) -> bool {
    if begins_with(v, "2."@) {
        V2_API_ENABLED
    } else if begins_with(v, "3."@) {
        V3_PREVIEW_ENABLED
    } else if begins_with(v, "1."@) {
        V1_LEGACY_ENABLED
    } else {
        false
    }
}

/// Whether this build serves `required_version`.
pub fn is_compatible_with(required_version: &str) -> (r: bool)
    ensures
        r == compatible(required_version@),
{
    if has_prefix(required_version, "2.") {
        V2_API_ENABLED
    } else if has_prefix(required_version, "3.") {
        V3_PREVIEW_ENABLED
    } else if has_prefix(required_version, "1.") {
        V1_LEGACY_ENABLED
    } else {
        false
    }
}

/// The versions each feature serves.
pub open spec fn compatibility_table() -> Seq<(Seq<char>, Seq<Seq<char>>)> {
    seq![
        ("v2-api"@, seq!["2.0"@, "2.1"@, "2.x"@]),
        ("v3-preview"@, seq!["3.0-preview"@, "3.0-alpha"@]),
        ("deprecated-v1"@, seq!["1.0"@, "1.1"@, "1.x"@]),
    ]
}

/// For each feature, the versions it serves; one entry per feature.
pub fn compatibility_matrix() -> (r: Vec<(&'static str, Vec<&'static str>)>)
    ensures
        r@.len() == compatibility_table().len(),
        forall|i: int| 0 <= i < r@.len() ==> (#[trigger] r@[i]).0@ == compatibility_table()[i].0
            && str_texts(r@[i].1@) == compatibility_table()[i].1,
        forall|i: int, j: int| 0 <= i < j < r@.len() ==> r@[i].0@ != r@[j].0@,
{
    let mut matrix: Vec<(&'static str, Vec<&'static str>)> = Vec::new();
    let v2: Vec<&'static str> = vec!["2.0", "2.1", "2.x"];
    let v3: Vec<&'static str> = vec!["3.0-preview", "3.0-alpha"];
    let v1: Vec<&'static str> = vec!["1.0", "1.1", "1.x"];
    assert(str_texts(v2@) =~= seq!["2.0"@, "2.1"@, "2.x"@]);
    assert(str_texts(v3@) =~= seq!["3.0-preview"@, "3.0-alpha"@]);
    assert(str_texts(v1@) =~= seq!["1.0"@, "1.1"@, "1.x"@]);
    matrix.push(("v2-api", v2));
    matrix.push(("v3-preview", v3));
    matrix.push(("deprecated-v1", v1));
    proof {
        reveal_strlit("v2-api");
        reveal_strlit("v3-preview");
        reveal_strlit("deprecated-v1");
        assert(matrix@[0].0@.len() == 6 && matrix@[1].0@.len() == 10 && matrix@[2].0@.len() == 13);
    }
    matrix
}

} // verus!
