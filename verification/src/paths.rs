//! The path confinement check behind output-path validation: a requested
//! path, resolved to components by the caller, must lie within one of the
//! allow-listed base directories. Resolving symlinks, environment lookups
//! and the file system itself stay on the caller's side.

use vstd::prelude::*;
use crate::strutil::{is_prefix_of, str_eq};

verus! {

/// `path` lies within `base`: the base's components are an initial
/// segment of the path's components.
pub fn path_within(path: &Vec<String>, base: &Vec<String>) -> (r: bool)
    ensures
        r == is_prefix_of(base.deep_view(), path.deep_view()),
{
    let nb = base.len();
    let np = path.len();
    if nb > np {
        return false;
    }
    let mut i: usize = 0;
    while i < nb
        invariant
            nb == base@.len(),
            np == path@.len(),
            nb <= np,
            i <= nb,
            forall|j: int| 0 <= j < i ==> path.deep_view()[j] == base.deep_view()[j],
        decreases nb - i,
    {
        if !str_eq(path[i].as_str(), base[i].as_str()) {
            proof {
                assert(path.deep_view().subrange(0, base.deep_view().len() as int)[i as int]
                    == path.deep_view()[i as int]);
            }
            return false;
        }
        i += 1;
    }
    proof {
        assert(path.deep_view().subrange(0, base.deep_view().len() as int) =~= base.deep_view());
    }
    true
}

/// An output path is allowed exactly when it lies within the downloads
/// directory or within the application's data directory.
pub fn output_path_allowed(path: &Vec<String>, downloads: &Vec<String>, app_data: &Vec<String>)
    -> (r: bool)
    ensures
        r == (is_prefix_of(downloads.deep_view(), path.deep_view()) || is_prefix_of(
            app_data.deep_view(),
            path.deep_view(),
        )),
{
    path_within(path, downloads) || path_within(path, app_data)
}

} // verus!
