use vstd::prelude::*;

use crate::index::cli::CommandLineIndex;
use crate::index::git2::Git2Index;

verus! {

/// The configuration struct for the 'git2' index management strategy.
///
/// ```toml
/// [index]
/// type = "git2"        # required
/// path = "crate-index" # required
/// ```
#[derive(Debug)]
pub struct Git2IndexConfig {
    /// The path to the local index repository.
    pub path: String,
}

/// The configuration struct for the 'command-line' index management strategy.
#[derive(Debug)]
pub struct CommandLineIndexConfig {
    /// The path to the local index repository.
    pub path: String,
}

/// The configuration enum for index management strategies.
///
/// ```toml
/// [index]
/// type = "<...>" # required, replace "<...>" by the selected strategy.
/// ```
#[derive(Debug)]
pub enum IndexConfig {
    /// The 'command-line' index management strategy (uses "git" shell command).
    CommandLine(CommandLineIndexConfig),
}

impl From<Git2IndexConfig> for Git2Index {
    fn from(config: Git2IndexConfig) -> (res: Git2Index) {
        Git2Index { path: config.path }
    }
}

impl vstd::std_specs::convert::FromSpecImpl<Git2IndexConfig> for Git2Index {
    open spec fn obeys_from_spec() -> bool {
        true
    }

    closed spec fn from_spec(v: Git2IndexConfig) -> Git2Index {
        Git2Index { path: v.path }
    }
}

impl From<CommandLineIndexConfig> for CommandLineIndex {
    fn from(config: CommandLineIndexConfig) -> (res: CommandLineIndex) {
        CommandLineIndex { path: config.path }
    }
}

impl vstd::std_specs::convert::FromSpecImpl<CommandLineIndexConfig> for CommandLineIndex {
    open spec fn obeys_from_spec() -> bool {
        true
    }

    closed spec fn from_spec(v: CommandLineIndexConfig) -> CommandLineIndex {
        CommandLineIndex { path: v.path }
    }
}

impl IndexConfig {
    /// The index that this configuration selects.
    pub fn into_index(self) -> (res: CommandLineIndex)
        ensures
            match self {
                IndexConfig::CommandLine(c) => res.spec_path() == c.path@,
            },
    {
        match self {
            IndexConfig::CommandLine(config) => CommandLineIndex::new(config.path).unwrap(),
        }
    }
}

} // verus!
