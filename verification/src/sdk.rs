//! The Ecsact SDK's configuration, and the rule that locates the SDK's
//! include directory from the path of one of its headers.

use vstd::prelude::*;

use crate::text::{find, first_occurrence, is_first_occurrence, occurs_at, replace_char, replace_char_with};

verus! {

/// What `ecsact config` reports about the installed SDK.
pub struct EcsactSdkConfig {
    pub builtin_plugins: Vec<String>,
    pub include_dir: String,
    pub install_dir: String,
    pub plugin_dir: String,
}

/// There is at most one first occurrence of a pattern.
pub proof fn lemma_first_occurrence_unique(s: Seq<char>, pat: Seq<char>, i: int)
    requires
        is_first_occurrence(s, pat, i),
    ensures
        first_occurrence(s, pat) == Some(i),
{
    assert(occurs_at(s, pat, i));
    let j = choose|j: int| occurs_at(s, pat, j) && forall|k: int| 0 <= k < j ==> !occurs_at(s, pat, k);
    assert(is_first_occurrence(s, pat, j));
    if j < i {
        assert(!occurs_at(s, pat, j));
    } else if i < j {
        assert(!occurs_at(s, pat, i));
    }
}

/// The include directory of the SDK that holds the header at `header`: the
/// path, with `\` separators turned into `/`, up to the first `/ecsact/`;
/// `None` where the path has no `/ecsact/` directory.
pub open spec fn include_dir_of(header: Seq<char>) -> Option<Seq<char>> {
    let p = replace_char(header, '\\', "/"@);
    match first_occurrence(p, "/ecsact/"@) {
        Some(i) => Some(p.take(i)),
        None => None,
    }
}

/// Locates the SDK's include directory from the path of one of its headers
/// (`ecsact/runtime.h`); `None` where the path has no `/ecsact/` directory.
pub fn try_include_dir_of_header(header: &str) -> (r: Option<String>)
    ensures
        match r {
            Some(dir) => include_dir_of(header@) == Some(dir@),
            None => include_dir_of(header@) is None,
        },
{
    let normalized = replace_char_with(header, '\\', "/");
    match find(normalized.as_str(), "/ecsact/") {
        Some(i) => {
            proof {
                lemma_first_occurrence_unique(normalized@, "/ecsact/"@, i as int);
            }
            let dir = normalized.as_str().substring_char(0, i);
            assert(dir@ =~= normalized@.take(i as int));
            Some(String::from_str(dir))
        },
        None => None,
    }
}

/// The SDK's include directory, from the path of one of its headers
/// (`ecsact/runtime.h`), which lies under an `/ecsact/` directory.
pub fn include_dir_of_header(header: &str) -> (r: String)
    requires
        include_dir_of(header@) is Some,
    ensures
        include_dir_of(header@) == Some(r@),
{
    try_include_dir_of_header(header).unwrap()
}

} // verus!
