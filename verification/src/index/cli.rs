use vstd::prelude::*;

use crate::error::Error;
use crate::index::path::{compute_record_path, is_layout_name, record_path};

verus! {

/// The 'command-line' crate index management strategy type.
///
/// It manages the crate index through the invocation of "git" shell commands.
#[derive(Debug, Clone)]
pub struct CommandLineIndex {
    /// The path of the crate index.
    pub(crate) path: String,
}

impl CommandLineIndex {
    /// The path of the crate index.
    pub closed spec fn spec_path(&self) -> Seq<char> {
        self.path@
    }

    /// Create a CommandLineIndex instance with the given path.
    pub fn new(path: String) -> (res: Result<CommandLineIndex, Error>)
        ensures
            res matches Ok(index) && index.spec_path() == path@,
    {
        Ok(CommandLineIndex { path })
    }

    /// The path of the crate index.
    pub fn path(&self) -> (res: &str)
        ensures
            res@ == self.spec_path(),
    {
        self.path.as_str()
    }

    /// The path of the record file of crate `name`.
    pub fn compute_record_path(&self, name: &str) -> (res: String)
        requires
            is_layout_name(name@),
        ensures
            res@ == record_path(self.spec_path(), name@),
    {
        compute_record_path(self.path.as_str(), name)
    }
}

} // verus!
