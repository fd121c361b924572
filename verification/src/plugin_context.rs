//! The context a codegen plugin entry point receives: the package being
//! generated for, and the rule for handing text to the host's writer.

use vstd::prelude::*;

use crate::ids::PackageId;

verus! {

/// Context of one run of a codegen plugin. The host's write function is
/// held by whoever performs the writes; this value decides what it is
/// handed.
pub struct CodegenPluginContext {
    pub package_id: i32,
}

impl CodegenPluginContext {
    /// The context of a run for the package `package_id`.
    pub fn new(package_id: i32) -> (r: Self)
        ensures
            r.package_id == package_id,
    {
        CodegenPluginContext { package_id }
    }

    /// The package being generated for.
    pub fn package_id(&self) -> (r: PackageId)
        ensures
            r.0 == self.package_id,
    {
        PackageId(self.package_id)
    }

    /// The length to hand the host's write function with the text `s`: its
    /// length in bytes, which fits in an `i32`.
    pub fn write_len(&self, s: &str) -> (r: i32)
        requires
            s.len() <= i32::MAX,
        ensures
            r == s.len(),
    {
        s.len() as i32
    }
}

} // verus!
