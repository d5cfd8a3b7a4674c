//! The values command-line flags parse into.

use vstd::prelude::*;

verus! {

/// The configuration path flag values: paths whose contents are merged,
/// the first one being the main configuration file.
#[derive(Debug, Clone)]
pub struct ConfigPathsArg {
    /// The configuration file paths, in merge order.
    pub paths: Vec<String>,
}

impl Default for ConfigPathsArg {
    /// No paths: the default configuration locations apply.
    fn default() -> (r: Self)
        ensures
            r.paths@.len() == 0,
    {
        ConfigPathsArg { paths: Vec::new() }
    }
}

/// The account name flag value: which entry of the configuration to use.
#[derive(Debug, Clone)]
pub struct AccountArg {
    /// The account name, when one was given.
    pub name: Option<String>,
}

impl Default for AccountArg {
    /// No name: the default account applies.
    fn default() -> (r: Self)
        ensures
            r.name is None,
    {
        AccountArg { name: None }
    }
}

/// The JSON output flag value.
#[derive(Clone, Copy, Debug, PartialEq, Eq, Structural)]
pub struct JsonFlag {
    /// When set, command output (data or errors) is displayed as JSON.
    pub enabled: bool,
}

impl Default for JsonFlag {
    /// JSON output is off by default.
    fn default() -> (r: Self)
        ensures
            !r.enabled,
    {
        JsonFlag { enabled: false }
    }
}

/// The quiet, debug and trace flag values. The three are mutually
/// exclusive at the command line; when several are set anyway, quiet wins
/// over debug, and debug over trace.
#[derive(Clone, Copy, Debug, PartialEq, Eq, Structural)]
pub struct LogFlags {
    /// Disable all logs.
    pub quiet: bool,
    /// Enable debug logs.
    pub debug: bool,
    /// Enable verbose trace logs with backtraces.
    pub trace: bool,
}

impl Default for LogFlags {
    /// All logging flags are off by default.
    fn default() -> (r: Self)
        ensures
            r == (LogFlags { quiet: false, debug: false, trace: false }),
    {
        LogFlags { quiet: false, debug: false, trace: false }
    }
}

} // verus!
