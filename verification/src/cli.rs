//! The command line's options, and what they say about logging.

use vstd::prelude::*;

verus! {

/// How much is logged, from nothing to everything.
#[derive(Debug, Clone, Copy, PartialEq, Eq, Structural)]
pub enum LevelFilter {
    Off,
    Error,
    Warn,
    Info,
    Debug,
    Trace,
}

/// The options of a run.
#[derive(Debug, Clone)]
pub struct Cli {
    /// Address of the relay.
    pub host: String,
    /// Total day length in hours (0 to 24).
    pub total_day_length: u8,
    /// How many times more talk was asked for.
    pub verbose: u8,
    /// Whether silence was asked for.
    pub silent: bool,
}

/// The level that the options ask for: nothing where silence was asked for;
/// else warnings, and one level more for each request for more talk, up to
/// everything.
pub open spec fn spec_log_level(silent: bool, verbose: u8) -> LevelFilter {
    if silent {
        LevelFilter::Off
    } else if verbose == 0 {
        LevelFilter::Warn
    } else if verbose == 1 {
        LevelFilter::Info
    } else if verbose == 2 {
        LevelFilter::Debug
    } else {
        LevelFilter::Trace
    }
}

impl Cli {
    /// The level at which the run logs.
    pub fn log_level(&self) -> (level: LevelFilter)
        ensures
            level == spec_log_level(self.silent, self.verbose),
    {
        if self.silent {
            return LevelFilter::Off;
        }
        match self.verbose {
            0 => LevelFilter::Warn,
            1 => LevelFilter::Info,
            2 => LevelFilter::Debug,
            _ => LevelFilter::Trace,
        }
    }
}

} // verus!
