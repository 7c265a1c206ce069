//! Severity scales: the generic five-level scale of log calls, its filter,
//! and the native five-level scale they map to.
use vstd::prelude::*;

verus! {

/// Native severity, from the most verbose to the most severe.
#[derive(Clone, Copy, Debug, PartialEq, Eq, Structural)]
pub enum Level {
    Debug,
    Info,
    Default,
    Error,
    Fault,
}

/// Severity of a log call on the generic scale.
#[derive(Clone, Copy, Debug, PartialEq, Eq, Structural)]
pub enum LogLevel {
    Error,
    Warn,
    Info,
    Debug,
    Trace,
}

/// A threshold on the generic scale: the most verbose level that passes.
#[derive(Clone, Copy, Debug, PartialEq, Eq, Structural)]
pub enum LevelFilter {
    Off,
    Error,
    Warn,
    Info,
    Debug,
    Trace,
}

impl Level {
    /// Position on the native scale; a larger value is more severe.
    pub open spec fn severity(self) -> nat {
        match self {
            Level::Debug => 0,
            Level::Info => 1,
            Level::Default => 2,
            Level::Error => 3,
            Level::Fault => 4,
        }
    }

    /// The native type code of this severity.
    pub open spec fn spec_code(self) -> u8 {
        match self {
            Level::Default => 0x00,
            Level::Info => 0x01,
            Level::Debug => 0x02,
            Level::Error => 0x10,
            Level::Fault => 0x11,
        }
    }

    pub fn code(&self) -> (r: u8)
        ensures
            r == self.spec_code(),
    {
        match self {
            Level::Default => 0x00,
            Level::Info => 0x01,
            Level::Debug => 0x02,
            Level::Error => 0x10,
            Level::Fault => 0x11,
        }
    }
}

impl LogLevel {
    /// Verbosity on the generic scale: `Error` is 1, `Trace` is 5.
    pub open spec fn verbosity(self) -> nat {
        match self {
            LogLevel::Error => 1,
            LogLevel::Warn => 2,
            LogLevel::Info => 3,
            LogLevel::Debug => 4,
            LogLevel::Trace => 5,
        }
    }

    /// The native severity that a call of this level is emitted with.
    pub open spec fn native(self) -> Level {
        match self {
            LogLevel::Trace => Level::Debug,
            LogLevel::Debug => Level::Info,
            LogLevel::Info => Level::Default,
            LogLevel::Warn => Level::Error,
            LogLevel::Error => Level::Fault,
        }
    }

    /// Whether a call of this level passes the threshold `filter`.
    pub open spec fn passes(self, filter: LevelFilter) -> bool {
        self.verbosity() <= filter.verbosity()
    }

    pub fn is_within(&self, filter: LevelFilter) -> (r: bool)
        ensures
            r == self.passes(filter),
    {
        self.rank() <= filter.rank()
    }

    pub fn rank(&self) -> (r: u8)
        ensures
            r as nat == self.verbosity(),
    {
        match self {
            LogLevel::Error => 1,
            LogLevel::Warn => 2,
            LogLevel::Info => 3,
            LogLevel::Debug => 4,
            LogLevel::Trace => 5,
        }
    }
}

impl LevelFilter {
    /// Verbosity of the threshold: `Off` is 0, `Trace` is 5.
    pub open spec fn verbosity(self) -> nat {
        match self {
            LevelFilter::Off => 0,
            LevelFilter::Error => 1,
            LevelFilter::Warn => 2,
            LevelFilter::Info => 3,
            LevelFilter::Debug => 4,
            LevelFilter::Trace => 5,
        }
    }

    pub fn rank(&self) -> (r: u8)
        ensures
            r as nat == self.verbosity(),
    {
        match self {
            LevelFilter::Off => 0,
            LevelFilter::Error => 1,
            LevelFilter::Warn => 2,
            LevelFilter::Info => 3,
            LevelFilter::Debug => 4,
            LevelFilter::Trace => 5,
        }
    }
}

impl From<LogLevel> for Level {
    fn from(other: LogLevel) -> (r: Level)
        ensures
            r == other.native(),
    {
        match other {
            LogLevel::Trace => Level::Debug,
            LogLevel::Debug => Level::Info,
            LogLevel::Info => Level::Default,
            LogLevel::Warn => Level::Error,
            LogLevel::Error => Level::Fault,
        }
    }
}

impl vstd::std_specs::convert::FromSpecImpl<LogLevel> for Level {
    open spec fn obeys_from_spec() -> bool {
        true
    }

    open spec fn from_spec(v: LogLevel) -> Level {
        v.native()
    }
}

/// The mapping to the native scale keeps the relative order: of two
/// generic levels, the more severe one maps to the more severe native level,
/// and distinct levels map to distinct native levels.
pub proof fn lemma_native_keeps_order(a: LogLevel, b: LogLevel)
    ensures
        a.verbosity() <= b.verbosity() <==> a.native().severity() >= b.native().severity(),
        a != b ==> a.native() != b.native(),
        a.native().severity() + a.verbosity() == 5,
{
}

/// Distinct native levels carry distinct type codes.
pub proof fn lemma_codes_distinct(a: Level, b: Level)
    ensures
        a != b ==> a.spec_code() != b.spec_code(),
{
}

} // verus!
