//! The logging decision: which log filter and backtrace setting the parsed
//! flags call for. Applying them to the environment and initialising the
//! logging backend is the application's job.

use vstd::prelude::*;

use crate::terminal::args::LogFlags;

verus! {

/// What the logging flags resolve to: a filter directive to set, if any,
/// and whether backtraces are wanted.
#[derive(Debug, Clone, Copy, PartialEq, Eq)]
pub struct LogDirectives {
    /// The log filter to apply, when the flags override the environment.
    pub filter: Option<&'static str>,
    /// Whether backtraces should be enabled.
    pub backtrace: bool,
}

/// The logging facade: turns flag values into directives.
pub struct Logger;

impl Logger {
    /// The directives the flags call for: `off` when quiet, `debug` when
    /// debugging, `trace` with backtraces when tracing, and none otherwise;
    /// quiet wins over debug, and debug over trace.
    pub fn directives(flags: &LogFlags) -> (d: LogDirectives)
        ensures
            flags.quiet ==> (d.filter matches Some(f) && f@ == "off"@ && !d.backtrace),
            (!flags.quiet && flags.debug) ==> (d.filter matches Some(f) && f@ == "debug"@
                && !d.backtrace),
            (!flags.quiet && !flags.debug && flags.trace) ==> (d.filter matches Some(f) && f@
                == "trace"@ && d.backtrace),
            (!flags.quiet && !flags.debug && !flags.trace) ==> (d.filter is None && !d.backtrace),
    {
        if flags.quiet {
            LogDirectives { filter: Some("off"), backtrace: false }
        } else if flags.debug {
            LogDirectives { filter: Some("debug"), backtrace: false }
        } else if flags.trace {
            LogDirectives { filter: Some("trace"), backtrace: true }
        } else {
            LogDirectives { filter: None, backtrace: false }
        }
    }
}

} // verus!
