use vstd::prelude::*;
use vstd::string::StringExecFns;

use crate::level::Level;

verus! {

/// The display label of a level: a fixed five-character uppercase name,
/// wrapped in one fixed ANSI escape per level when color is on.
pub open spec fn spec_label(l: Level, color: bool) -> Seq<char> {
    if color {
        match l {
            Level::Error => "\x1B[31mERROR\x1B[0m"@,
            Level::Warn => "\x1B[33mWARN \x1B[0m"@,
            Level::Info => "\x1B[32mINFO \x1B[0m"@,
            Level::Debug => "\x1B[3;34mDEBUG\x1B[0m"@,
            Level::Trace => "\x1B[2;3mTRACE\x1B[0m"@,
        }
    } else {
        match l {
            Level::Error => "ERROR"@,
            Level::Warn => "WARN "@,
            Level::Info => "INFO "@,
            Level::Debug => "DEBUG"@,
            Level::Trace => "TRACE"@,
        }
    }
}

/// The label that decorates a level in a rendered line.
pub fn level_to_str(level: Level, color: bool) -> (r: &'static str)
    ensures
        r@ == spec_label(level, color),
{
    if color {
        match level {
            Level::Error => "\x1B[31mERROR\x1B[0m",
            Level::Warn => "\x1B[33mWARN \x1B[0m",
            Level::Info => "\x1B[32mINFO \x1B[0m",
            Level::Debug => "\x1B[3;34mDEBUG\x1B[0m",
            Level::Trace => "\x1B[2;3mTRACE\x1B[0m",
        }
    } else {
        match level {
            Level::Error => "ERROR",
            Level::Warn => "WARN ",
            Level::Info => "INFO ",
            Level::Debug => "DEBUG",
            Level::Trace => "TRACE",
        }
    }
}

/// The line shape of the record-style pipeline: `[timestamp] [label] message`.
pub open spec fn spec_line_bracketed(ts: Seq<char>, label: Seq<char>, msg: Seq<char>) -> Seq<
    char,
> {
    "["@ + ts + "] ["@ + label + "] "@ + msg
}

/// The line shape of the facade-style pipeline: `timestamp [label] message`.
pub open spec fn spec_line_plain(ts: Seq<char>, label: Seq<char>, msg: Seq<char>) -> Seq<char> {
    ts + " ["@ + label + "] "@ + msg
}

/// Builds `[timestamp] [label] message`.
pub fn build_line_bracketed(timestamp: &str, label: &str, message: &str) -> (r: String)
    ensures
        r@ == spec_line_bracketed(timestamp@, label@, message@),
{
    let mut r = String::new();
    r.append("[");
    r.append(timestamp);
    r.append("] [");
    r.append(label);
    r.append("] ");
    r.append(message);
    proof {
        assert(r@ =~= spec_line_bracketed(timestamp@, label@, message@));
    }
    r
}

/// Builds `timestamp [label] message`.
pub fn build_line_plain(timestamp: &str, label: &str, message: &str) -> (r: String)
    ensures
        r@ == spec_line_plain(timestamp@, label@, message@),
{
    let mut r = String::new();
    r.append(timestamp);
    r.append(" [");
    r.append(label);
    r.append("] ");
    r.append(message);
    proof {
        assert(r@ =~= spec_line_plain(timestamp@, label@, message@));
    }
    r
}

} // verus!
