//! The underrun monitor.
//!
//! Each time a chunk of audio is scheduled, the margin between the playback
//! clock and the earliest moment at which the host could start the chunk
//! tells how close playback came to running dry. The monitor turns that
//! margin into a severity.

use vstd::prelude::*;

verus! {

/// Margins below this many nanoseconds, but not negative, are `Medium`
/// unless other thresholds are asked for.
pub const MEDIUM_BELOW: u64 = 10_000_000;

/// Margins below this many nanoseconds, but at least `MEDIUM_BELOW`, are
/// `Low` unless other thresholds are asked for.
pub const LOW_BELOW: u64 = 20_000_000;

/// How close playback came to running out of audio.
#[derive(Clone, Copy, Debug, PartialEq, Eq, Structural)]
pub enum UnderrunLevel {
    /// Enough audio was still queued.
    Clear,
    /// The margin was below the threshold for `Low`.
    Low,
    /// The margin was below the threshold for `Medium`.
    Medium,
    /// The queue had already run dry: the margin was negative.
    High,
}

/// Where the levels part, in nanoseconds of margin.
#[derive(Clone, Copy, Debug, PartialEq, Eq, Structural)]
pub struct Thresholds {
    /// Margins below this, but not negative, are `Medium`.
    pub medium_below: u64,
    /// Margins below this, but not below `medium_below`, are `Low`.
    pub low_below: u64,
}

/// The usual thresholds: 10 ms and 20 ms.
pub open spec fn standard_thresholds() -> Thresholds {
    Thresholds { medium_below: MEDIUM_BELOW, low_below: LOW_BELOW }
}

/// The level that a margin in nanoseconds stands for under `thresholds`.
pub open spec fn level_with(margin: int, thresholds: Thresholds) -> UnderrunLevel {
    if margin < 0 {
        UnderrunLevel::High
    } else if margin < thresholds.medium_below {
        UnderrunLevel::Medium
    } else if margin < thresholds.low_below {
        UnderrunLevel::Low
    } else {
        UnderrunLevel::Clear
    }
}

/// The level that a margin in nanoseconds stands for under the usual
/// thresholds: `High` below 0, `Medium` below 10 ms, `Low` below 20 ms,
/// `Clear` from there on.
pub open spec fn level_of(margin: int) -> UnderrunLevel {
    level_with(margin, standard_thresholds())
}

impl Thresholds {
    /// The usual thresholds: 10 ms and 20 ms.
    pub fn standard() -> (thresholds: Self)
        ensures
            thresholds == standard_thresholds(),
    {
        Thresholds { medium_below: MEDIUM_BELOW, low_below: LOW_BELOW }
    }
}

impl UnderrunLevel {
    /// The severity as a number: 0 for `Clear` up to 3 for `High`.
    pub open spec fn rank(self) -> nat {
        match self {
            UnderrunLevel::Clear => 0,
            UnderrunLevel::Low => 1,
            UnderrunLevel::Medium => 2,
            UnderrunLevel::High => 3,
        }
    }

    /// The more severe of two levels.
    pub open spec fn worse(self, other: UnderrunLevel) -> UnderrunLevel {
        if self.rank() >= other.rank() {
            self
        } else {
            other
        }
    }

    /// Classifies a margin given in nanoseconds under the usual thresholds.
    pub fn classify(margin: i128) -> (level: UnderrunLevel)
        ensures
            level == level_of(margin as int),
    {
        UnderrunLevel::classify_with(margin, Thresholds::standard())
    }

    /// Classifies a margin given in nanoseconds under `thresholds`.
    pub fn classify_with(margin: i128, thresholds: Thresholds) -> (level: UnderrunLevel)
        ensures
            level == level_with(margin as int, thresholds),
    {
        if margin < 0 {
            UnderrunLevel::High
        } else if margin < thresholds.medium_below as i128 {
            UnderrunLevel::Medium
        } else if margin < thresholds.low_below as i128 {
            UnderrunLevel::Low
        } else {
            UnderrunLevel::Clear
        }
    }

    /// The severity as a number, which is also the number of recovery rounds
    /// that the level calls for.
    pub fn severity(self) -> (n: u32)
        ensures
            n == self.rank(),
    {
        match self {
            UnderrunLevel::Clear => 0,
            UnderrunLevel::Low => 1,
            UnderrunLevel::Medium => 2,
            UnderrunLevel::High => 3,
        }
    }

    /// The more severe of `self` and `other`.
    pub fn max(self, other: UnderrunLevel) -> (level: UnderrunLevel)
        ensures
            level == self.worse(other),
    {
        if self.severity() >= other.severity() {
            self
        } else {
            other
        }
    }
}

/// A narrower margin is never classified as less severe, whatever the
/// thresholds, and a negative margin is always `High`.
pub proof fn lemma_level_monotone(a: int, b: int, thresholds: Thresholds)
    requires
        a <= b,
    ensures
        level_with(a, thresholds).rank() >= level_with(b, thresholds).rank(),
        a < 0 ==> level_with(a, thresholds) == UnderrunLevel::High,
{
}

/// Taking the worse of two levels never lowers either of them, and yields one
/// of the two.
pub proof fn lemma_worse_is_upper_bound(a: UnderrunLevel, b: UnderrunLevel)
    ensures
        a.worse(b).rank() >= a.rank(),
        a.worse(b).rank() >= b.rank(),
        a.worse(b) == a || a.worse(b) == b,
{
}

} // verus!
