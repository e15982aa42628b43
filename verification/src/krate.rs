//! The crate description that publishing writes into the index.
use vstd::prelude::*;

use std::collections::HashMap;

use crate::version::{Version, VersionReq};

verus! {

/// A crate, as published into the crate index.
///
/// Note that this struct represents only a specific version of a crate.
#[derive(Debug)]
pub struct Crate {
    /// The name of the crate.
    pub name: String,
    /// The version of the crate.
    pub vers: Version,
    /// The dependencies of the crate.
    pub deps: Vec<Dependency>,
    /// The SHA256 hash of the crate.
    pub cksum: String,
    /// The available features of the crates and what they enable.
    pub features: HashMap<String, Vec<String>>,
    /// Is the crate yanked.
    pub yanked: Option<bool>,
    /// The native library the crate links to, if any.
    pub links: Option<String>,
}

/// A crate dependency.
#[derive(Debug)]
pub struct Dependency {
    /// The name of the dependency (the new name, when it is renamed).
    pub name: String,
    /// The version requirement for the dependency (eg. "^1.2.0").
    pub req: VersionReq,
    /// The features requested for the dependency.
    pub features: Vec<String>,
    /// Is the dependency optional.
    pub optional: bool,
    /// Are the default features requested for the dependency.
    pub default_features: bool,
    /// The target of the dependency.
    pub target: Option<String>,
    /// The kind of the dependency ("normal", "build" or "dev").
    pub kind: Option<DependencyKind>,
    /// The URL of the index of the registry where this dependency is from.
    pub registry: Option<String>,
    /// The original name of a renamed dependency.
    pub package: Option<String>,
}

/// The different kinds of dependencies.
#[derive(Debug, Clone, Copy, PartialEq, Eq, Structural)]
pub enum DependencyKind {
    /// A normal dependency.
    Normal,
    /// A build dependency.
    Build,
    /// A development dependency.
    Dev,
}

} // verus!
