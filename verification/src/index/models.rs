use vstd::prelude::*;

use std::collections::HashMap;

use crate::version::{Version, VersionReq};

verus! {

/// A crate version record, as stored in the crate index.
///
/// Note that this struct represents only a specific version of a crate.
#[derive(Debug)]
pub struct CrateVersion {
    /// The name of the crate.
    pub name: String,
    /// The version of the crate.
    pub vers: Version,
    /// The dependencies of the crate.
    pub deps: Vec<CrateDependency>,
    /// The SHA256 hash of the crate.
    pub cksum: String,
    /// The available features of the crates and what they enable.
    pub features: HashMap<String, Vec<String>>,
    /// Is the crate yanked.
    pub yanked: Option<bool>,
    /// The native library the crate links to, if any.
    pub links: Option<String>,
}

/// A crate dependency.
#[derive(Debug)]
pub struct CrateDependency {
    /// The name of the dependency.
    ///
    /// If the dependency is renamed, this is the new name.
    /// The original name is specified in the `package` field.
    pub name: String,
    /// The version requirement for the dependency (eg. "^1.2.0").
    pub req: VersionReq,
    /// The features requested for the dependency.
    pub features: Vec<String>,
    /// Is the dependency optional.
    pub optional: bool,
    /// Whether the crates uses the default features of this dependency.
    pub default_features: bool,
    /// The target platform of the dependency (a string such as "cfg(windows)").
    pub target: Option<String>,
    /// The kind of the dependency ("normal", "build" or "dev").
    pub kind: CrateDependencyKind,
    /// The URL of the index of the registry where this dependency is from.
    ///
    /// If not specified, it is assumed to come from the current registry.
    pub registry: Option<String>,
    /// If the dependency is renamed, this is the actual original crate name.
    pub package: Option<String>,
}

/// The different kinds of dependencies.
#[derive(Debug, Clone, Copy, PartialEq, Eq, Structural)]
pub enum CrateDependencyKind {
    /// A normal dependency.
    Normal,
    /// A build dependency.
    Build,
    /// A development dependency.
    Dev,
}

/// The record `c` with its yanked flag set to `yanked`.
pub open spec fn with_yanked(c: CrateVersion, yanked: Option<bool>) -> CrateVersion {
    CrateVersion { yanked, ..c }
}

impl CrateVersion {
    /// Marks this crate version as yanked.
    pub fn yank(&mut self)
        ensures
            *final(self) == with_yanked(*old(self), Some(true)),
    {
        self.yanked = Some(true);
    }

    /// Marks this crate version as not yanked.
    pub fn unyank(&mut self)
        ensures
            *final(self) == with_yanked(*old(self), Some(false)),
    {
        self.yanked = Some(false);
    }
}

} // verus!
