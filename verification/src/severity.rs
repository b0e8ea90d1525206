use vstd::prelude::*;

verus! {

/// Severity of a log record, from least to most severe.
#[derive(Clone, Copy, Debug, PartialEq, Eq, Structural)]
pub enum Severity {
    Trace,
    Debug,
    Info,
    Warn,
    Error,
}

impl Severity {
    /// Position of the level in the severity order.
    pub open spec fn rank(self) -> int {
        match self {
            Severity::Trace => 0,
            Severity::Debug => 1,
            Severity::Info => 2,
            Severity::Warn => 3,
            Severity::Error => 4,
        }
    }

    /// Executable counterpart of `rank`.
    pub fn rank_value(self) -> (r: u8)
        ensures
            r as int == self.rank(),
    {
        match self {
            Severity::Trace => 0,
            Severity::Debug => 1,
            Severity::Info => 2,
            Severity::Warn => 3,
            Severity::Error => 4,
        }
    }
}

/// A record at `level` passes the minimum-severity threshold `min` exactly
/// when it is at least as severe; anything below the threshold is discarded
/// silently.
pub fn passes_threshold(level: Severity, min: Severity) -> (r: bool)
    ensures
        r == (level.rank() >= min.rank()),
{
    level.rank_value() >= min.rank_value()
}

} // verus!
