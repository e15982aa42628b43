use vstd::prelude::*;

verus! {

/// The default of the `enabled` setting: the frontend is enabled.
pub fn enabled_def() -> (res: bool)
    ensures
        res,
{
    true
}

/// The frontend configuration.
#[derive(Debug)]
pub struct Config {
    /// Is the frontend enabled?
    pub enabled: bool,
    /// The instance's title.
    pub title: Option<String>,
    /// The instance's description.
    pub description: Option<String>,
    /// The path to the instance's favicon.
    pub favicon: Option<String>,
}

impl Default for Config {
    /// An enabled frontend, titled "Alexandrie", without a favicon.
    fn default() -> (res: Config)
        ensures
            res.enabled,
            res.title matches Some(t) && t@ == "Alexandrie"@,
            res.description matches Some(d) && d@
                == "An alternative crate registry for Cargo, the Rust package manager."@,
            res.favicon is None,
    {
        Config {
            enabled: true,
            title: Some("Alexandrie".to_owned()),
            description: Some(
                "An alternative crate registry for Cargo, the Rust package manager.".to_owned(),
            ),
            favicon: None,
        }
    }
}

} // verus!
