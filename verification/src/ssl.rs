//! Lists of the shading language: the modules that a module exports.
use vstd::prelude::*;
use std::collections::HashSet;

verus! {

/// An export non-empty list.
#[derive(Debug, Eq, PartialEq)]
pub struct ExportList {
    pub export_list: HashSet<ModulePath>,
}

/// A module path is a list of module(s), representing a hierarchy.
#[derive(Clone, Debug, Hash, Eq, PartialEq)]
pub struct ModulePath {
    hierarchy: Vec<String>,
}

/// Calls `HashSet::clone`, which copies a set.
#[verifier::external_body]
fn cloned_paths(paths: &HashSet<ModulePath>) -> HashSet<ModulePath> {
    paths.clone()
}

impl Clone for ExportList {
    fn clone(&self) -> Self {
        ExportList { export_list: cloned_paths(&self.export_list) }
    }
}

} // verus!
