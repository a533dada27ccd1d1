//! The text of the debug log: log levels, the time stamp and the line
//! written for each message.
use vstd::prelude::*;
use vstd::string::StringExecFns;
use crate::text::{decimal, push_decimal, push_zero_padded, zero_padded};
use crate::status_message::{duration_as_nanos, instant_elapsed};
use std::time::Instant;

verus! {

/// How important a log message is.
#[derive(Clone, Copy, Debug, PartialEq, Eq, Structural)]
pub enum LogLevel {
    Debug,
    Info,
    Warn,
    Error,
}

/// The debug log.
pub struct DebugLog();

/// The name written for `level`.
pub open spec fn level_name(level: LogLevel) -> Seq<char> {
    match level {
        LogLevel::Debug => "logger"@,
        LogLevel::Info => "INFO"@,
        LogLevel::Warn => "WARNING"@,
        LogLevel::Error => "ERROR"@,
    }
}

/// The time stamp for `millis` milliseconds: `[hh:mm:ss.mmm]`, the hours
/// taken modulo one day.
pub open spec fn timer_text(millis: nat) -> Seq<char> {
    let m = millis % 86_400_000;
    "["@ + zero_padded(m / 3_600_000, 2) + ":"@ + zero_padded((m % 3_600_000) / 60_000, 2) + ":"@
        + zero_padded((m % 60_000) / 1000, 2) + "."@ + zero_padded(m % 1000, 3) + "]"@
}

/// The log line for `message`: the time stamp, the level and the message,
/// and for debug messages also where they come from.
pub open spec fn entry_text(
    level: LogLevel,
    timer: Seq<char>,
    message: Seq<char>,
    src_file: Seq<char>,
    line: nat,
    col: nat,
) -> Seq<char> {
    let head = timer + " "@ + level_name(level) + ": "@ + message;
    if level == LogLevel::Debug {
        head + " ("@ + src_file + " ["@ + decimal(line) + ":"@ + decimal(col) + "])"@
    } else {
        head
    }
}

impl DebugLog {
    /// Splits `millis` into hours, minutes, seconds and milliseconds of the
    /// day: whole days are dropped and each part is below its limit.
    pub fn millis_to_time(millis: u128) -> (t: (u32, u8, u8, u32))
        ensures
            t.0 < 24,
            t.1 < 60,
            t.2 < 60,
            t.3 < 1000,
            millis % 86_400_000 == t.0 * 3_600_000 + t.1 * 60_000 + t.2 * 1000 + t.3,
    {
        let mut mil = millis % 86_400_000;
        let hrs = mil / 3_600_000;
        assert(hrs * 3_600_000 <= mil) by (nonlinear_arith)
            requires
                hrs == mil / 3_600_000,
        ;
        mil = mil - hrs * 3_600_000;
        let min = mil / 60_000;
        assert(min * 60_000 <= mil) by (nonlinear_arith)
            requires
                min == mil / 60_000,
        ;
        mil = mil - min * 60_000;
        let sec = mil / 1000;
        assert(sec * 1000 <= mil) by (nonlinear_arith)
            requires
                sec == mil / 1000,
        ;
        mil = mil - sec * 1000;
        (hrs as u32, min as u8, sec as u8, mil as u32)
    }

    /// The name written for `level`.
    pub fn log_level_to_str(level: LogLevel) -> (s: &'static str)
        ensures
            s@ == level_name(level),
    {
        match level {
            LogLevel::Debug => "logger",
            LogLevel::Info => "INFO",
            LogLevel::Warn => "WARNING",
            LogLevel::Error => "ERROR",
        }
    }

    /// The time stamp for a log line, `elapsed_millis` milliseconds after
    /// the log was started: `[hh:mm:ss.mmm]`.
    pub fn log_timer(elapsed_millis: u128) -> (s: String)
        ensures
            s@ == timer_text(elapsed_millis as nat),
    {
        let time = DebugLog::millis_to_time(elapsed_millis);
        let ghost m = elapsed_millis % 86_400_000;
        proof {
            lemma_time_parts(m as int, time.0 as int, time.1 as int, time.2 as int, time.3 as int);
        }
        let mut s = String::from_str("[");
        push_zero_padded(&mut s, time.0 as u64, 2);
        s.append(":");
        push_zero_padded(&mut s, time.1 as u64, 2);
        s.append(":");
        push_zero_padded(&mut s, time.2 as u64, 2);
        s.append(".");
        push_zero_padded(&mut s, time.3 as u64, 3);
        s.append("]");
        s
    }

    /// The time stamp for a log line of a log started at `start`: the time
    /// passed is read from the clock, so the contract states only that the
    /// result is the stamp of some number of milliseconds.
    pub fn timer_since(start: &Instant) -> (s: String)
        ensures
            exists|ms: nat| #[trigger] timer_text(ms) == s@,
    {
        let elapsed = instant_elapsed(start);
        let nanos = duration_as_nanos(&elapsed);
        let s = DebugLog::log_timer(nanos / 1_000_000);
        assert(timer_text((nanos / 1_000_000) as nat) == s@);
        s
    }

    /// The line written to the log for `message` of `level`, stamped with
    /// `timer`; a debug message also names the file, line and column it
    /// comes from.
    pub fn format_message(
        level: LogLevel,
        timer: &str,
        message: &str,
        src_file: &str,
        line: u32,
        col: u32,
    ) -> (s: String)
        ensures
            s@ == entry_text(level, timer@, message@, src_file@, line as nat, col as nat),
    {
        let mut s = String::from_str(timer);
        s.append(" ");
        s.append(DebugLog::log_level_to_str(level));
        s.append(": ");
        s.append(message);
        if level == LogLevel::Debug {
            s.append(" (");
            s.append(src_file);
            s.append(" [");
            push_decimal(&mut s, line as u64);
            s.append(":");
            push_decimal(&mut s, col as u64);
            s.append("])");
        }
        s
    }
}

/// The parts of a time of day in milliseconds are its hours, minutes,
/// seconds and milliseconds.
proof fn lemma_time_parts(m: int, h: int, mi: int, se: int, ms: int)
    by (nonlinear_arith)
    requires
        0 <= h < 24,
        0 <= mi < 60,
        0 <= se < 60,
        0 <= ms < 1000,
        m == h * 3_600_000 + mi * 60_000 + se * 1000 + ms,
    ensures
        m / 3_600_000 == h,
        (m % 3_600_000) / 60_000 == mi,
        (m % 60_000) / 1000 == se,
        m % 1000 == ms,
{
}

} // verus!
