//! How much of the kernel's logging is let through.
use vstd::prelude::*;

verus! {

/// The log level that the kernel is built with.
pub const LK_LOGLEVEL_RUST: usize = 4;

/// The most verbose kind of message that is let through.
#[derive(Clone, Copy, Debug, PartialEq, Eq, Structural)]
pub enum LevelFilter {
    Off,
    Error,
    Warn,
    Info,
    Debug,
    Trace,
}

impl LevelFilter {
    /// How verbose the filter is, from 0 for `Off` to 5 for `Trace`.
    pub open spec fn verbosity(self) -> nat {
        match self {
            LevelFilter::Off => 0,
            LevelFilter::Error => 1,
            LevelFilter::Warn => 2,
            LevelFilter::Info => 3,
            LevelFilter::Debug => 4,
            LevelFilter::Trace => 5,
        }
    }
}

/// The filter for a kernel log level: the level itself up to 5, and
/// everything from there on.
pub fn level_filter(loglevel: usize) -> (filter: LevelFilter)
    ensures
        filter.verbosity() == if loglevel < 5 {
            loglevel
        } else {
            5
        },
{
    match loglevel {
        0 => LevelFilter::Off,
        1 => LevelFilter::Error,
        2 => LevelFilter::Warn,
        3 => LevelFilter::Info,
        4 => LevelFilter::Debug,
        _ => LevelFilter::Trace,
    }
}

} // verus!
