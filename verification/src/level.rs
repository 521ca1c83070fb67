//! Severity levels and the threshold that filters them.

use vstd::prelude::*;

verus! {

/// The severity of a log event, from the most severe to the least.
#[derive(Clone, Copy, Debug, PartialEq, Eq, Hash, Structural)]
pub enum Level {
    /// Very serious errors.
    Error,
    /// Hazardous situations.
    Warn,
    /// Useful information.
    Info,
    /// Lower priority information.
    Debug,
    /// Very low priority, often extremely verbose, information.
    Trace,
}

/// The least severe level that is still accepted, or `Off` to accept none.
#[derive(Clone, Copy, Debug, PartialEq, Eq, Hash, Structural)]
pub enum LevelFilter {
    /// Accepts no level.
    Off,
    /// Accepts `Level::Error` only.
    Error,
    /// Accepts `Level::Warn` and what is more severe.
    Warn,
    /// Accepts `Level::Info` and what is more severe.
    Info,
    /// Accepts `Level::Debug` and what is more severe.
    Debug,
    /// Accepts every level.
    Trace,
}

impl Level {
    /// The rank of a level: 1 for the most severe, 5 for the least.
    pub open spec fn rank(self) -> nat {
        match self {
            Level::Error => 1,
            Level::Warn => 2,
            Level::Info => 3,
            Level::Debug => 4,
            Level::Trace => 5,
        }
    }

    /// The rank as a machine integer.
    pub fn rank_u8(self) -> (r: u8)
        ensures
            r == self.rank(),
    {
        match self {
            Level::Error => 1,
            Level::Warn => 2,
            Level::Info => 3,
            Level::Debug => 4,
            Level::Trace => 5,
        }
    }
}

impl LevelFilter {
    /// The rank of a threshold: that of the level it is named after, and 0 for
    /// `Off`, which lies below every level.
    pub open spec fn rank(self) -> nat {
        match self {
            LevelFilter::Off => 0,
            LevelFilter::Error => 1,
            LevelFilter::Warn => 2,
            LevelFilter::Info => 3,
            LevelFilter::Debug => 4,
            LevelFilter::Trace => 5,
        }
    }

    /// The rank as a machine integer.
    pub fn rank_u8(self) -> (r: u8)
        ensures
            r == self.rank(),
    {
        match self {
            LevelFilter::Off => 0,
            LevelFilter::Error => 1,
            LevelFilter::Warn => 2,
            LevelFilter::Info => 3,
            LevelFilter::Debug => 4,
            LevelFilter::Trace => 5,
        }
    }

    /// Whether this threshold accepts `level`: the level's rank does not
    /// exceed the threshold's.
    pub open spec fn spec_allows(self, level: Level) -> bool {
        level.rank() <= self.rank()
    }

    /// Whether this threshold accepts `level`.
    #[verifier::when_used_as_spec(spec_allows)]
    pub fn allows(self, level: Level) -> (r: bool)
        ensures
            r == (level.rank() <= self.rank()),
    {
        level.rank_u8() <= self.rank_u8()
    }
}

} // verus!
