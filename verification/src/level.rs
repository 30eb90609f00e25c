//! Severity levels and the filtering rule.

use vstd::prelude::*;

verus! {

/// Severity of a log event, in ascending order:
/// `Debug < Info < Warning < Error`.
#[derive(Clone, Copy, PartialEq, Eq, Structural)]
pub enum LogLevel {
    Debug,
    Info,
    Warning,
    Error,
}

/// Rank of a level in the severity order; the sole operation filtering needs.
pub open spec fn severity(level: LogLevel) -> nat {
    match level {
        LogLevel::Debug => 0,
        LogLevel::Info => 1,
        LogLevel::Warning => 2,
        LogLevel::Error => 3,
    }
}

/// Whether an event at `level` is emitted under the minimum `min`:
/// equal-to-minimum passes, strictly below is suppressed.
pub open spec fn spec_emits(min: LogLevel, level: LogLevel) -> bool {
    severity(level) >= severity(min)
}

impl LogLevel {
    /// Rank of this level, as an executable value.
    pub fn rank(self) -> (r: u8)
        ensures
            r as nat == severity(self),
    {
        match self {
            LogLevel::Debug => 0,
            LogLevel::Info => 1,
            LogLevel::Warning => 2,
            LogLevel::Error => 3,
        }
    }

    /// Whether an event at `self` passes the minimum level `min`.
    pub fn passes(self, min: LogLevel) -> (r: bool)
        ensures
            r == spec_emits(min, self),
    {
        self.rank() >= min.rank()
    }
}

/// The translation key under which each level's display tag is looked up.
pub open spec fn spec_level_key(level: LogLevel) -> Seq<char> {
    match level {
        LogLevel::Debug => "debug"@,
        LogLevel::Info => "info"@,
        LogLevel::Warning => "warning"@,
        LogLevel::Error => "error"@,
    }
}

impl LogLevel {
    /// The translation key for this level's display tag.
    pub fn key(self) -> (r: &'static str)
        ensures
            r@ == spec_level_key(self),
    {
        match self {
            LogLevel::Debug => "debug",
            LogLevel::Info => "info",
            LogLevel::Warning => "warning",
            LogLevel::Error => "error",
        }
    }

    /// The display color of this level's tag, as an RGB triple.
    pub fn tag_color(self) -> (r: (u8, u8, u8))
        ensures
            r == spec_tag_color(self),
    {
        match self {
            LogLevel::Error => (255, 46, 99),
            LogLevel::Warning => (249, 237, 105),
            LogLevel::Info => (48, 227, 202),
            LogLevel::Debug => (82, 97, 107),
        }
    }

    /// The display color of a message at this level, as an RGB triple.
    /// It matches the tag color except for `Info`, whose tag carries a
    /// distinct accent against a white body.
    pub fn message_color(self) -> (r: (u8, u8, u8))
        ensures
            r == spec_message_color(self),
    {
        match self {
            LogLevel::Error => (255, 46, 99),
            LogLevel::Warning => (249, 237, 105),
            LogLevel::Info => (255, 255, 255),
            LogLevel::Debug => (82, 97, 107),
        }
    }
}

/// RGB triple coloring the level tag of each level.
pub open spec fn spec_tag_color(level: LogLevel) -> (u8, u8, u8) {
    match level {
        LogLevel::Error => (255, 46, 99),
        LogLevel::Warning => (249, 237, 105),
        LogLevel::Info => (48, 227, 202),
        LogLevel::Debug => (82, 97, 107),
    }
}

/// RGB triple coloring the message body of each level.
pub open spec fn spec_message_color(level: LogLevel) -> (u8, u8, u8) {
    match level {
        LogLevel::Error => (255, 46, 99),
        LogLevel::Warning => (249, 237, 105),
        LogLevel::Info => (255, 255, 255),
        LogLevel::Debug => (82, 97, 107),
    }
}

} // verus!
