//! Diagnostic messages that a script emits while it runs.

use vstd::prelude::*;

use crate::text::{concat, push_text};

verus! {

/// Severity of a diagnostic, on the syslog scale: 0 is the most severe.
#[derive(Debug, Clone, Copy, PartialEq, Eq, Structural)]
pub enum SyslogLevel {
    Emergency,
    Alert,
    Critical,
    Error,
    Warning,
    Notice,
    Info,
    Debug,
}

/// The level that a raw syslog number stands for; below the scale is the
/// most severe level, above it the least severe.
pub open spec fn level_of(raw: int) -> SyslogLevel {
    if raw <= 0 {
        SyslogLevel::Emergency
    } else if raw == 1 {
        SyslogLevel::Alert
    } else if raw == 2 {
        SyslogLevel::Critical
    } else if raw == 3 {
        SyslogLevel::Error
    } else if raw == 4 {
        SyslogLevel::Warning
    } else if raw == 5 {
        SyslogLevel::Notice
    } else if raw == 6 {
        SyslogLevel::Info
    } else {
        SyslogLevel::Debug
    }
}

/// The position of a level on the syslog scale.
pub open spec fn rank(l: SyslogLevel) -> int {
    match l {
        SyslogLevel::Emergency => 0,
        SyslogLevel::Alert => 1,
        SyslogLevel::Critical => 2,
        SyslogLevel::Error => 3,
        SyslogLevel::Warning => 4,
        SyslogLevel::Notice => 5,
        SyslogLevel::Info => 6,
        SyslogLevel::Debug => 7,
    }
}

/// The short syslog name of a level.
pub open spec fn level_name(l: SyslogLevel) -> Seq<char> {
    match l {
        SyslogLevel::Emergency => "emerg"@,
        SyslogLevel::Alert => "alert"@,
        SyslogLevel::Critical => "crit"@,
        SyslogLevel::Error => "err"@,
        SyslogLevel::Warning => "warning"@,
        SyslogLevel::Notice => "notice"@,
        SyslogLevel::Info => "info"@,
        SyslogLevel::Debug => "debug"@,
    }
}

impl SyslogLevel {
    pub fn from_raw(level: i32) -> (r: Self)
        ensures
            r == level_of(level as int),
    {
        match level {
            0 => SyslogLevel::Emergency,
            1 => SyslogLevel::Alert,
            2 => SyslogLevel::Critical,
            3 => SyslogLevel::Error,
            4 => SyslogLevel::Warning,
            5 => SyslogLevel::Notice,
            6 => SyslogLevel::Info,
            7 => SyslogLevel::Debug,
            _ => {
                if level < 0 {
                    SyslogLevel::Emergency
                } else {
                    SyslogLevel::Debug
                }
            },
        }
    }

    /// The level's number on the syslog scale.
    pub fn to_raw(&self) -> (r: i32)
        ensures
            r as int == rank(*self),
    {
        match self {
            SyslogLevel::Emergency => 0,
            SyslogLevel::Alert => 1,
            SyslogLevel::Critical => 2,
            SyslogLevel::Error => 3,
            SyslogLevel::Warning => 4,
            SyslogLevel::Notice => 5,
            SyslogLevel::Info => 6,
            SyslogLevel::Debug => 7,
        }
    }

    /// Emergency, alert, critical or error.
    pub fn is_error_or_worse(&self) -> (r: bool)
        ensures
            r == (rank(*self) <= 3),
    {
        match self {
            SyslogLevel::Emergency | SyslogLevel::Alert | SyslogLevel::Critical
            | SyslogLevel::Error => true,
            _ => false,
        }
    }

    /// Error or worse, or a warning.
    pub fn is_warning_or_worse(&self) -> (r: bool)
        ensures
            r == (rank(*self) <= 4),
    {
        self.is_error_or_worse() || matches!(self, SyslogLevel::Warning)
    }

    pub fn as_str(&self) -> (r: &'static str)
        ensures
            r@ == level_name(*self),
    {
        match self {
            SyslogLevel::Emergency => "emerg",
            SyslogLevel::Alert => "alert",
            SyslogLevel::Critical => "crit",
            SyslogLevel::Error => "err",
            SyslogLevel::Warning => "warning",
            SyslogLevel::Notice => "notice",
            SyslogLevel::Info => "info",
            SyslogLevel::Debug => "debug",
        }
    }
}

impl From<i32> for SyslogLevel {
    fn from(level: i32) -> Self {
        SyslogLevel::from_raw(level)
    }
}

impl vstd::std_specs::convert::FromSpecImpl<i32> for SyslogLevel {
    open spec fn obeys_from_spec() -> bool {
        true
    }

    open spec fn from_spec(level: i32) -> Self {
        level_of(level as int)
    }
}

impl From<SyslogLevel> for i32 {
    fn from(level: SyslogLevel) -> Self {
        level.to_raw()
    }
}

impl vstd::std_specs::convert::FromSpecImpl<SyslogLevel> for i32 {
    open spec fn obeys_from_spec() -> bool {
        true
    }

    open spec fn from_spec(level: SyslogLevel) -> Self {
        rank(level) as i32
    }
}

/// One diagnostic: its severity and its text.
#[derive(Debug, Clone)]
pub struct ExecutionMessage {
    pub message: String,
    pub level: SyslogLevel,
}

impl ExecutionMessage {
    pub fn new(level: SyslogLevel, message: String) -> (r: Self)
        ensures
            r.level == level,
            r.message@ == message@,
    {
        ExecutionMessage { message, level }
    }

    pub fn from_syslog(syslog_level: i32, message: String) -> (r: Self)
        ensures
            r.level == level_of(syslog_level as int),
            r.message@ == message@,
    {
        Self::new(SyslogLevel::from_raw(syslog_level), message)
    }

    pub fn is_error(&self) -> (r: bool)
        ensures
            r == (rank(self.level) <= 3),
    {
        self.level.is_error_or_worse()
    }

    pub fn is_warning(&self) -> (r: bool)
        ensures
            r == (self.level == SyslogLevel::Warning),
    {
        matches!(self.level, SyslogLevel::Warning)
    }

    pub fn is_warning_or_worse(&self) -> (r: bool)
        ensures
            r == (rank(self.level) <= 4),
    {
        self.level.is_warning_or_worse()
    }

    /// The message as `[level] text`.
    pub fn to_string(&self) -> (r: String)
        ensures
            r@ == seq!['['] + level_name(self.level) + seq![']', ' '] + self.message@,
    {
        let mut r = concat("[", self.level.as_str());
        push_text(&mut r, "] ");
        push_text(&mut r, self.message.as_str());
        proof {
            reveal_strlit("[");
            reveal_strlit("] ");
        }
        assert(r@ =~= seq!['['] + level_name(self.level) + seq![']', ' '] + self.message@);
        r
    }
}

} // verus!
