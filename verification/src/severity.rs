//! Classification of inter-arrival delays into severity levels.

use vstd::prelude::*;

verus! {

/// Nanoseconds in one millisecond.
pub const NANOS_PER_MILLI: u64 = 1_000_000;

/// Delays below this many nanoseconds (250 ms) are normal.
pub const DEGRADED_FROM_NANOS: u64 = 250_000_000;

/// Delays of at least this many nanoseconds (450 ms) are severe.
pub const SEVERE_FROM_NANOS: u64 = 450_000_000;

/// How bad an inter-arrival delay is.
#[derive(Clone, Copy, Debug, PartialEq, Eq, Structural)]
pub enum Severity {
    Normal,
    Degraded,
    Severe,
}

/// The levels of the diagnostics sink.
#[derive(Clone, Copy, Debug, PartialEq, Eq, Structural)]
pub enum LogLevel {
    Debug,
    Info,
    Warn,
    Error,
}

impl Severity {
    /// The level at which a message of this severity is reported: a normal
    /// one as information, a degraded one as a warning, a severe one as an
    /// error.
    pub open spec fn level(self) -> LogLevel {
        match self {
            Severity::Normal => LogLevel::Info,
            Severity::Degraded => LogLevel::Warn,
            Severity::Severe => LogLevel::Error,
        }
    }

    /// The level at which a message of this severity is reported.
    pub fn log_level(self) -> (level: LogLevel)
        ensures
            level == self.level(),
    {
        match self {
            Severity::Normal => LogLevel::Info,
            Severity::Degraded => LogLevel::Warn,
            Severity::Severe => LogLevel::Error,
        }
    }
}

/// The severity of a delay given in nanoseconds.
pub open spec fn severity_of(delay_nanos: nat) -> Severity {
    if delay_nanos < DEGRADED_FROM_NANOS {
        Severity::Normal
    } else if delay_nanos < SEVERE_FROM_NANOS {
        Severity::Degraded
    } else {
        Severity::Severe
    }
}

/// Classifies a delay given in nanoseconds.
pub fn classify(delay_nanos: u64) -> (level: Severity)
    ensures
        level == severity_of(delay_nanos as nat),
        level == Severity::Normal <==> delay_nanos < DEGRADED_FROM_NANOS,
        level == Severity::Degraded <==> DEGRADED_FROM_NANOS <= delay_nanos < SEVERE_FROM_NANOS,
        level == Severity::Severe <==> delay_nanos >= SEVERE_FROM_NANOS,
{
    if delay_nanos < DEGRADED_FROM_NANOS {
        Severity::Normal
    } else if delay_nanos < SEVERE_FROM_NANOS {
        Severity::Degraded
    } else {
        Severity::Severe
    }
}

/// Every delay has exactly one level, and the thresholds part the delays:
/// normal below 250 ms, degraded from 250 ms to below 450 ms, severe from
/// 450 ms on.
pub proof fn lemma_levels_part_the_delays(delay_nanos: nat)
    ensures
        severity_of(delay_nanos) == Severity::Normal <==> delay_nanos < 250 * NANOS_PER_MILLI,
        severity_of(delay_nanos) == Severity::Degraded <==> 250 * NANOS_PER_MILLI <= delay_nanos < 450
            * NANOS_PER_MILLI,
        severity_of(delay_nanos) == Severity::Severe <==> delay_nanos >= 450 * NANOS_PER_MILLI,
{
}

/// The level of a delay depends on its whole milliseconds alone.
pub proof fn lemma_level_goes_by_whole_millis(delay_nanos: nat)
    ensures
        severity_of(delay_nanos) == severity_of(((delay_nanos / NANOS_PER_MILLI as nat) * NANOS_PER_MILLI) as nat),
{
}

} // verus!
