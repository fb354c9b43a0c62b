use vstd::prelude::*;
use vstd::string::StrSliceExecFns;

use crate::clock;
use crate::level::{filter_admits, Level, LevelFilter};
use crate::render;
use crate::text;
use crate::text::{ascii_lower, is_prefix_of};

verus! {

/// The mathematical content of a `Logs` builder: a minimum-severity
/// filter, a color flag and an optional target prefix.
pub ghost struct LogsView {
    pub level: LevelFilter,
    pub color: bool,
    pub target: Option<Seq<char>>,
}

/// A threshold-filtering logger configuration, built by chaining and then
/// handed to a registration routine. A record passes when its level is at
/// least as severe as the filter and, if a target prefix is set, its
/// target starts with that prefix.
#[derive(Debug, Clone)]
pub struct Logs {
    level: LevelFilter,
    color: bool,
    target: Option<String>,
}

impl View for Logs {
    type V = LogsView;

    closed spec fn view(&self) -> LogsView {
        LogsView {
            level: self.level,
            color: self.color,
            target: match self.target {
                Some(t) => Some(t@),
                None => None,
            },
        }
    }
}

/// An error raised while building a `Logs` configuration.
#[derive(Debug, Clone)]
pub enum LogsError {
    /// A level name was not recognized.
    Level,
    /// The environment variable is not set.
    EnvNotPresent,
    /// The environment variable does not hold valid text.
    EnvNotUnicode,
}

/// Replaces every `'-'` with `'_'`, as module paths write them.
pub open spec fn dash_to_underscore(s: Seq<char>) -> Seq<char> {
    s.map_values(|c: char| if c == '-' { '_' } else { c })
}

/// The level filter a name parses to, case-insensitively: one of `off`,
/// `error`, `warn`, `info`, `debug`, `trace`.
pub open spec fn spec_parse_filter(s: Seq<char>) -> Option<LevelFilter> {
    let t = ascii_lower(s);
    if t == "off"@ {
        Some(LevelFilter::Off)
    } else if t == "error"@ {
        Some(LevelFilter::Error)
    } else if t == "warn"@ {
        Some(LevelFilter::Warn)
    } else if t == "info"@ {
        Some(LevelFilter::Info)
    } else if t == "debug"@ {
        Some(LevelFilter::Debug)
    } else if t == "trace"@ {
        Some(LevelFilter::Trace)
    } else {
        None
    }
}

/// Whether a record at `level` with the given target passes the
/// configuration's filter.
pub open spec fn spec_enabled(v: LogsView, level: Level, target: Seq<char>) -> bool {
    filter_admits(v.level, level) && match v.target {
        Some(p) => is_prefix_of(p, target),
        None => true,
    }
}

impl Logs {
    /// A fresh configuration: everything passes (`Trace` threshold), no
    /// color, no target filter.
    pub fn new() -> (r: Self)
        ensures
            r@ == (LogsView { level: LevelFilter::Trace, color: false, target: None }),
    {
        Logs { level: LevelFilter::Trace, color: false, target: None }
    }

    /// Sets the color flag.
    pub fn color(self, color: bool) -> (r: Self)
        ensures
            r@ == (LogsView { color, ..self@ }),
    {
        Logs { color, ..self }
    }

    /// Sets the target prefix filter; dashes are written as underscores,
    /// as module paths have them.
    pub fn target(self, target: &str) -> (r: Self)
        ensures
            r@ == (LogsView { target: Some(dash_to_underscore(target@)), ..self@ }),
    {
        let n: usize = target.unicode_len();
        let mut t = String::new();
        let mut i: usize = 0;
        while i < n
            invariant
                n == target@.len(),
                i <= n,
                t@ == dash_to_underscore(target@.subrange(0, i as int)),
            decreases n - i,
        {
            let c = target.get_char(i);
            if c == '-' {
                text::push_char(&mut t, '_');
            } else {
                text::push_char(&mut t, c);
            }
            i = i + 1;
            proof {
                assert(dash_to_underscore(target@.subrange(0, i as int)) =~= dash_to_underscore(
                    target@.subrange(0, i - 1),
                ).push(if target@[i - 1] == '-' { '_' } else { target@[i - 1] }));
            }
        }
        proof {
            assert(target@.subrange(0, n as int) =~= target@);
        }
        Logs { target: Some(t), ..self }
    }

    /// Sets the minimum-severity filter.
    pub fn level(self, level: LevelFilter) -> (r: Self)
        ensures
            r@ == (LogsView { level, ..self@ }),
    {
        Logs { level, ..self }
    }

    /// Sets the minimum-severity filter from a level name; an unrecognized
    /// name is refused.
    pub fn level_from_str(self, s: &str) -> (r: Result<Self, LogsError>)
        ensures
            spec_parse_filter(s@) is Some ==> r is Ok && r->Ok_0@ == (LogsView {
                level: spec_parse_filter(s@)->0,
                ..self@
            }),
            spec_parse_filter(s@) is None ==> r matches Err(LogsError::Level),
    {
        let low = text::to_ascii_lower(s);
        let t = low.as_str();
        let filter = if text::str_eq(t, "off") {
            Some(LevelFilter::Off)
        } else if text::str_eq(t, "error") {
            Some(LevelFilter::Error)
        } else if text::str_eq(t, "warn") {
            Some(LevelFilter::Warn)
        } else if text::str_eq(t, "info") {
            Some(LevelFilter::Info)
        } else if text::str_eq(t, "debug") {
            Some(LevelFilter::Debug)
        } else if text::str_eq(t, "trace") {
            Some(LevelFilter::Trace)
        } else {
            None
        };
        match filter {
            Some(level) => Ok(Logs { level, ..self }),
            None => Err(LogsError::Level),
        }
    }

    /// Whether a record at `level` with the given target passes this
    /// configuration.
    pub fn enabled(&self, level: Level, target: &str) -> (r: bool)
        ensures
            r == spec_enabled(self@, level, target@),
    {
        let pass = crate::level::level_passes_filter(self.level, level);
        if !pass {
            return false;
        }
        match &self.target {
            Some(p) => text::str_starts_with(target, p.as_str()),
            None => true,
        }
    }

    /// Renders one record against this configuration: the line
    /// `timestamp [label] message` when the record passes the filter,
    /// nothing at all when it does not.
    pub fn format_record(&self, timestamp: &str, level: Level, target: &str, message: &str) -> (r:
        Option<String>)
        ensures
            spec_enabled(self@, level, target@) ==> r is Some && r->0@ == render::spec_line_plain(
                timestamp@,
                render::spec_label(level, self@.color),
                message@,
            ),
            !spec_enabled(self@, level, target@) ==> r is None,
    {
        if self.enabled(level, target) {
            let label = render::level_to_str(level, self.color);
            Some(render::build_line_plain(timestamp, label, message))
        } else {
            None
        }
    }

    /// Renders one record with the current time; yields nothing when the
    /// record does not pass the filter, or when the clock's rendering
    /// fails.
    pub fn log(&self, level: Level, target: &str, message: &str) -> (r: Option<String>)
        ensures
            !spec_enabled(self@, level, target@) ==> r is None,
            r is Some ==> spec_enabled(self@, level, target@) && exists|ts: Seq<char>|
                r->0@ == render::spec_line_plain(
                    ts,
                    render::spec_label(level, self@.color),
                    message@,
                ),
    {
        if !self.enabled(level, target) {
            return None;
        }
        match clock::format_now(timestamp_format_str()) {
            Some(ts) => {
                let line = self.format_record(ts.as_str(), level, target, message);
                proof {
                    assert(line->0@ == render::spec_line_plain(
                        ts@,
                        render::spec_label(level, self@.color),
                        message@,
                    ));
                }
                line
            },
            None => None,
        }
    }
}

impl Default for Logs {
    /// The default configuration lets everything through.
    fn default() -> (r: Self)
        ensures
            r@ == (LogsView { level: LevelFilter::Trace, color: false, target: None }),
    {
        Logs::new()
    }
}

/// The timestamp pattern of the threshold-filtering pipeline:
/// `YYYY-MM-DDTHH:MM:SS.mmm`, written as a `time` format description.
pub open spec fn spec_timestamp_format() -> Seq<char> {
    "[year]-[month]-[day]T[hour]:[minute]:[second].[subsecond digits:3]"@
}

pub fn timestamp_format_str() -> (r: &'static str)
    ensures
        r@ == spec_timestamp_format(),
{
    "[year]-[month]-[day]T[hour]:[minute]:[second].[subsecond digits:3]"
}

/// The color flag of a `Logs` configuration never changes which records
/// pass its filter.
pub proof fn lemma_logs_color_only_decorates(v: LogsView, b: bool, l: Level, target: Seq<char>)
    ensures
        spec_enabled(LogsView { color: b, ..v }, l, target) == spec_enabled(v, l, target),
{
}

} // verus!
