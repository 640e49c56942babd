//! The version-control identifier shown in a version banner.
use vstd::prelude::*;

verus! {

/// The identifier to show: the one that was resolved, or `"unknown"` when
/// resolution failed for any reason.
pub fn commit_label(resolved: Option<String>) -> (r: String)
    ensures
        r@ == match resolved {
            Some(s) => s@,
            None => "unknown"@,
        },
{
    match resolved {
        Some(s) => s,
        None => String::from_str("unknown"),
    }
}

} // verus!
