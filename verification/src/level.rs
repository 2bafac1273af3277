//! Severities of log events and of filter directives.

use vstd::prelude::*;

verus! {

/// Severity of a log event, most severe first.
#[derive(Clone, Copy, Debug, PartialEq, Eq, Structural, PartialOrd, Ord, Hash)]
pub enum Level {
    Error,
    Warn,
    Info,
    Debug,
    Trace,
}

impl Level {
    /// The small integer that stands for this severity when an event crosses
    /// to the host: `Error` is 1 and each less severe level is one more.
    pub open spec fn code(self) -> int {
        match self {
            Level::Error => 1,
            Level::Warn => 2,
            Level::Info => 3,
            Level::Debug => 4,
            Level::Trace => 5,
        }
    }

    /// Whether `self` is at least as severe as `other`.
    pub open spec fn at_least(self, other: Level) -> bool {
        match (self, other) {
            (Level::Error, _) => true,
            (_, Level::Error) => false,
            (Level::Warn, _) => true,
            (_, Level::Warn) => false,
            (Level::Info, _) => true,
            (_, Level::Info) => false,
            (Level::Debug, _) => true,
            (_, Level::Debug) => false,
            (Level::Trace, Level::Trace) => true,
        }
    }
}

/// The most verbose severity that a filter directive lets through.
#[derive(Clone, Copy, Debug, PartialEq, Eq, Structural, PartialOrd, Ord, Hash)]
pub enum LevelFilter {
    Off,
    Error,
    Warn,
    Info,
    Debug,
    Trace,
}

impl LevelFilter {
    /// `Off` is 0; every other filter has the code of the level it names.
    pub open spec fn code(self) -> int {
        match self {
            LevelFilter::Off => 0,
            LevelFilter::Error => 1,
            LevelFilter::Warn => 2,
            LevelFilter::Info => 3,
            LevelFilter::Debug => 4,
            LevelFilter::Trace => 5,
        }
    }
}

/// The wire codes keep the order of the severities and tell them apart.
pub proof fn lemma_code_keeps_order(a: Level, b: Level)
    ensures
        a.at_least(b) <==> a.code() <= b.code(),
        a.code() == b.code() <==> a == b,
        1 <= a.code() <= 5,
{
}

} // verus!
