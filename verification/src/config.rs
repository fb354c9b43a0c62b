use vstd::prelude::*;
use vstd::string::StrSliceExecFns;

use crate::clock;
use crate::level::Level;
use crate::render;
use crate::text;
use crate::text::{ascii_lower, spec_trim, split_on};

verus! {

/// The default timestamp pattern: `YYYY-MM-DD HH:MM:SS`, written as a
/// `time` format description.
pub open spec fn spec_default_date_format() -> Seq<char> {
    "[year]-[month]-[day] [hour]:[minute]:[second]"@
}

fn default_date_format_str() -> (r: &'static str)
    ensures
        r@ == spec_default_date_format(),
{
    "[year]-[month]-[day] [hour]:[minute]:[second]"
}

/// The mathematical content of a `LogConfig`: the timestamp pattern, the
/// color flag, and one enable flag per level.
pub ghost struct ConfigView {
    pub date_format: Seq<char>,
    pub color: bool,
    pub trace: bool,
    pub debug: bool,
    pub info: bool,
    pub warn: bool,
    pub error: bool,
}

/// A configuration record: per-level enable flags, a color flag and a
/// timestamp pattern. A record changes nothing until it is applied to a
/// [`ConfigSlot`].
#[derive(Debug, Clone)]
pub struct LogConfig {
    date_format: String,
    color: bool,
    trace: bool,
    debug: bool,
    info: bool,
    warn: bool,
    error: bool,
}

impl View for LogConfig {
    type V = ConfigView;

    closed spec fn view(&self) -> ConfigView {
        ConfigView {
            date_format: self.date_format@,
            color: self.color,
            trace: self.trace,
            debug: self.debug,
            info: self.info,
            warn: self.warn,
            error: self.error,
        }
    }
}

/// An error raised while building a configuration record. A record that
/// was already built is never touched by a failure.
#[derive(Debug, Clone)]
pub enum LogError {
    /// The environment variable is not set.
    NotPresent,
    /// The environment variable does not hold valid text.
    NotUnicode,
    /// A token of an enable/disable list is not recognized; carries the
    /// offending token.
    FormatError(String),
    /// A timestamp pattern is not syntactically valid.
    PatternError,
}

/// The record with every level enabled, no color, and the default
/// timestamp pattern.
pub open spec fn spec_enable_all() -> ConfigView {
    ConfigView {
        date_format: spec_default_date_format(),
        color: false,
        trace: true,
        debug: true,
        info: true,
        warn: true,
        error: true,
    }
}

/// The record with every level disabled, no color, and the default
/// timestamp pattern.
pub open spec fn spec_disable_all() -> ConfigView {
    ConfigView {
        date_format: spec_default_date_format(),
        color: false,
        trace: false,
        debug: false,
        info: false,
        warn: false,
        error: false,
    }
}

/// The record with one level's enable flag replaced.
pub open spec fn spec_set_level(v: ConfigView, l: Level, b: bool) -> ConfigView {
    match l {
        Level::Trace => ConfigView { trace: b, ..v },
        Level::Debug => ConfigView { debug: b, ..v },
        Level::Info => ConfigView { info: b, ..v },
        Level::Warn => ConfigView { warn: b, ..v },
        Level::Error => ConfigView { error: b, ..v },
    }
}

/// Whether a record enables a level.
pub open spec fn spec_level_enabled(v: ConfigView, l: Level) -> bool {
    match l {
        Level::Trace => v.trace,
        Level::Debug => v.debug,
        Level::Info => v.info,
        Level::Warn => v.warn,
        Level::Error => v.error,
    }
}

/// A recognized token of an enable/disable list, or `Bad` for anything
/// else.
pub enum Tok {
    All,
    NotAll,
    SetLevel(Level, bool),
    Bad,
}

/// Classifies one trimmed, lowercased token.
pub open spec fn spec_classify(t: Seq<char>) -> Tok {
    if t == "all"@ {
        Tok::All
    } else if t == "!all"@ {
        Tok::NotAll
    } else if t == "trace"@ {
        Tok::SetLevel(Level::Trace, true)
    } else if t == "!trace"@ {
        Tok::SetLevel(Level::Trace, false)
    } else if t == "debug"@ {
        Tok::SetLevel(Level::Debug, true)
    } else if t == "!debug"@ {
        Tok::SetLevel(Level::Debug, false)
    } else if t == "info"@ {
        Tok::SetLevel(Level::Info, true)
    } else if t == "!info"@ {
        Tok::SetLevel(Level::Info, false)
    } else if t == "warn"@ {
        Tok::SetLevel(Level::Warn, true)
    } else if t == "!warn"@ {
        Tok::SetLevel(Level::Warn, false)
    } else if t == "error"@ {
        Tok::SetLevel(Level::Error, true)
    } else if t == "!error"@ {
        Tok::SetLevel(Level::Error, false)
    } else {
        Tok::Bad
    }
}

fn classify(t: &str) -> (r: Tok)
    ensures
        r == spec_classify(t@),
{
    if text::str_eq(t, "all") {
        Tok::All
    } else if text::str_eq(t, "!all") {
        Tok::NotAll
    } else if text::str_eq(t, "trace") {
        Tok::SetLevel(Level::Trace, true)
    } else if text::str_eq(t, "!trace") {
        Tok::SetLevel(Level::Trace, false)
    } else if text::str_eq(t, "debug") {
        Tok::SetLevel(Level::Debug, true)
    } else if text::str_eq(t, "!debug") {
        Tok::SetLevel(Level::Debug, false)
    } else if text::str_eq(t, "info") {
        Tok::SetLevel(Level::Info, true)
    } else if text::str_eq(t, "!info") {
        Tok::SetLevel(Level::Info, false)
    } else if text::str_eq(t, "warn") {
        Tok::SetLevel(Level::Warn, true)
    } else if text::str_eq(t, "!warn") {
        Tok::SetLevel(Level::Warn, false)
    } else if text::str_eq(t, "error") {
        Tok::SetLevel(Level::Error, true)
    } else if text::str_eq(t, "!error") {
        Tok::SetLevel(Level::Error, false)
    } else {
        Tok::Bad
    }
}

/// One step of a token list: `all`/`!all` reset the accumulator, a level
/// token sets one flag.
pub open spec fn spec_apply_token(v: ConfigView, t: Tok) -> ConfigView {
    match t {
        Tok::All => spec_enable_all(),
        Tok::NotAll => spec_disable_all(),
        Tok::SetLevel(l, b) => spec_set_level(v, l, b),
        Tok::Bad => v,
    }
}

/// Folds a token list over an accumulator, left to right; the first
/// unrecognized token aborts the fold and is carried in the error.
pub open spec fn parse_tokens(v: ConfigView, toks: Seq<Seq<char>>) -> Result<
    ConfigView,
    Seq<char>,
>
    decreases toks.len(),
{
    if toks.len() == 0 {
        Ok(v)
    } else if spec_classify(spec_trim(toks[0])) is Bad {
        Err(toks[0])
    } else {
        parse_tokens(spec_apply_token(v, spec_classify(spec_trim(toks[0]))), toks.drop_first())
    }
}

/// What `from_token_list` returns: the input is lowercased, split on
/// commas, each piece trimmed and classified, and the tokens folded left
/// to right over the disable-all baseline.
pub open spec fn spec_from_token_list(s: Seq<char>) -> Result<ConfigView, Seq<char>> {
    parse_tokens(spec_disable_all(), split_on(ascii_lower(s), ','))
}

/// Folding a concatenation folds the front first; the back runs only if
/// the front succeeded.
pub proof fn lemma_parse_append(v: ConfigView, a: Seq<Seq<char>>, b: Seq<Seq<char>>)
    ensures
        parse_tokens(v, a + b) == (match parse_tokens(v, a) {
            Ok(g) => parse_tokens(g, b),
            Err(e) => Err(e),
        }),
    decreases a.len(),
{
    if a.len() == 0 {
        assert(a + b =~= b);
    } else {
        assert((a + b)[0] == a[0]);
        assert((a + b).drop_first() =~= a.drop_first() + b);
        if !(spec_classify(spec_trim(a[0])) is Bad) {
            lemma_parse_append(spec_apply_token(v, spec_classify(spec_trim(a[0]))), a.drop_first(), b);
        }
    }
}

/// While a scan stands inside a comma-free stretch, the pieces seen so far
/// together with the current partial piece are exactly the split of the
/// prefix scanned so far.
proof fn lemma_prefix_split(s: Seq<char>, start: int, i: int, processed: Seq<Seq<char>>)
    requires
        0 <= start <= i <= s.len(),
        start >= 1 ==> s[start - 1] == ',',
        start >= 1 ==> split_on(s.subrange(0, start - 1), ',') == processed,
        start == 0 ==> processed == Seq::<Seq<char>>::empty(),
        forall|k: int| start <= k < i ==> s[k] != ',',
    ensures
        split_on(s.subrange(0, i), ',') == processed.push(s.subrange(start, i)),
{
    let piece = s.subrange(start, i);
    assert(forall|k: int| 0 <= k < piece.len() ==> piece[k] != ',');
    text::lemma_split_no_delim(piece, ',');
    if start == 0 {
        assert(s.subrange(0, i) =~= piece);
        assert(seq![piece] =~= processed.push(piece));
    } else {
        assert(s.subrange(0, i) =~= s.subrange(0, start - 1) + seq![','] + piece);
        text::lemma_split_concat(s.subrange(0, start - 1), piece, ',');
        assert(processed + seq![piece] =~= processed.push(piece));
    }
}

/// Trims, classifies and applies the piece `lo[start..end)` to the record.
/// Yields `false`, leaving the record as it was, when the piece is not a
/// recognized token.
fn apply_piece(cfg: &mut LogConfig, lo: &str, start: usize, end: usize) -> (r: bool)
    requires
        start <= end <= lo@.len(),
    ensures
        ({
            let t = spec_classify(spec_trim(lo@.subrange(start as int, end as int)));
            match t {
                Tok::Bad => r == false && *final(cfg) == *old(cfg),
                _ => r == true && final(cfg)@ == spec_apply_token(old(cfg)@, t),
            }
        }),
{
    let (ts, te) = text::trim_in(lo, start, end);
    let t = classify(lo.substring_char(ts, te));
    match t {
        Tok::Bad => false,
        Tok::All => {
            *cfg = LogConfig::enable_all();
            true
        },
        Tok::NotAll => {
            *cfg = LogConfig::disable_all();
            true
        },
        Tok::SetLevel(l, b) => {
            cfg.set_level_enabled(l, b);
            true
        },
    }
}

impl LogConfig {
    /// The record that lets every level through: no color, default
    /// timestamp pattern, all five flags on.
    pub fn enable_all() -> (r: Self)
        ensures
            r@ == spec_enable_all(),
    {
        LogConfig {
            date_format: default_date_format_str().to_owned(),
            color: false,
            trace: true,
            debug: true,
            info: true,
            warn: true,
            error: true,
        }
    }

    /// The record that silences every level: no color, default timestamp
    /// pattern, all five flags off.
    pub fn disable_all() -> (r: Self)
        ensures
            r@ == spec_disable_all(),
    {
        LogConfig {
            date_format: default_date_format_str().to_owned(),
            color: false,
            trace: false,
            debug: false,
            info: false,
            warn: false,
            error: false,
        }
    }

    /// Parses a comma-separated enable/disable list, case-insensitively,
    /// starting from the disable-all baseline: `all` and `!all` reset the
    /// accumulator, `<level>` enables and `!<level>` disables one level,
    /// later tokens overriding earlier ones. The first unrecognized token
    /// fails the whole parse and is carried in the error.
    pub fn from_token_list(s: &str) -> (r: Result<Self, LogError>)
        ensures
            spec_from_token_list(s@) is Ok ==> r is Ok && r->Ok_0@ == spec_from_token_list(
                s@,
            )->Ok_0,
            spec_from_token_list(s@) is Err ==> r is Err && (r->Err_0 matches LogError::FormatError(
                t,
            ) && t@ == spec_from_token_list(s@)->Err_0),
    {
        let low = text::to_ascii_lower(s);
        let lo = low.as_str();
        let n: usize = lo.unicode_len();
        let mut cfg = LogConfig::disable_all();
        let ghost mut processed: Seq<Seq<char>> = Seq::empty();
        let mut start: usize = 0;
        let mut i: usize = 0;
        while i < n
            invariant
                lo@ == ascii_lower(s@),
                n == lo@.len(),
                start <= i <= n,
                start >= 1 ==> lo@[start as int - 1] == ',',
                start >= 1 ==> split_on(lo@.subrange(0, start as int - 1), ',') == processed,
                start == 0 ==> processed == Seq::<Seq<char>>::empty(),
                forall|k: int| start <= k < i ==> lo@[k] != ',',
                parse_tokens(spec_disable_all(), processed) == Ok::<ConfigView, Seq<char>>(cfg@),
            decreases n - i,
        {
            let c = lo.get_char(i);
            if c == ',' {
                let ghost piece = lo@.subrange(start as int, i as int);
                let ghost before = cfg@;
                let ok = apply_piece(&mut cfg, lo, start, i);
                proof {
                    lemma_prefix_split(lo@, start as int, i as int, processed);
                }
                if !ok {
                    let es = lo.substring_char(start, i).to_owned();
                    proof {
                        reveal_with_fuel(parse_tokens, 3);
                        let rest = split_on(lo@.subrange(i + 1, n as int), ',');
                        assert(lo@ =~= lo@.subrange(0, i as int) + seq![','] + lo@.subrange(
                            i + 1,
                            n as int,
                        ));
                        text::lemma_split_concat(
                            lo@.subrange(0, i as int),
                            lo@.subrange(i + 1, n as int),
                            ',',
                        );
                        assert(split_on(lo@, ',') =~= processed + (seq![piece] + rest));
                        lemma_parse_append(spec_disable_all(), processed, seq![piece] + rest);
                        assert((seq![piece] + rest)[0] == piece);
                        assert(parse_tokens(before, seq![piece] + rest) == Err::<
                            ConfigView,
                            Seq<char>,
                        >(piece));
                    }
                    return Err(LogError::FormatError(es));
                }
                proof {
                    reveal_with_fuel(parse_tokens, 3);
                    lemma_parse_append(spec_disable_all(), processed, seq![piece]);
                    assert(split_on(lo@.subrange(0, i as int), ',') == processed.push(piece));
                    assert(processed + seq![piece] =~= processed.push(piece));
                    assert(seq![piece].drop_first() =~= Seq::<Seq<char>>::empty());
                    processed = processed.push(piece);
                }
                start = i + 1;
            }
            i = i + 1;
        }
        let ghost piece = lo@.subrange(start as int, n as int);
        let ghost before = cfg@;
        let ok = apply_piece(&mut cfg, lo, start, n);
        proof {
            reveal_with_fuel(parse_tokens, 3);
            lemma_prefix_split(lo@, start as int, n as int, processed);
            assert(lo@.subrange(0, n as int) =~= lo@);
            assert(split_on(lo@, ',') == processed.push(piece));
            lemma_parse_append(spec_disable_all(), processed, seq![piece]);
            assert(processed + seq![piece] =~= processed.push(piece));
            assert(seq![piece].drop_first() =~= Seq::<Seq<char>>::empty());
        }
        if !ok {
            let es = lo.substring_char(start, n).to_owned();
            return Err(LogError::FormatError(es));
        }
        Ok(cfg)
    }

    /// Sets the color flag.
    pub fn color(&mut self, enable: bool)
        ensures
            final(self)@ == (ConfigView { color: enable, ..old(self)@ }),
    {
        self.color = enable;
    }

    pub fn get_color(&self) -> (r: bool)
        ensures
            r == self@.color,
    {
        self.color
    }

    /// Sets whether `trace` records are let through.
    pub fn trace(&mut self, enable: bool)
        ensures
            final(self)@ == (ConfigView { trace: enable, ..old(self)@ }),
    {
        self.trace = enable;
    }

    pub fn get_trace(&self) -> (r: bool)
        ensures
            r == self@.trace,
    {
        self.trace
    }

    /// Sets whether `debug` records are let through.
    pub fn debug(&mut self, enable: bool)
        ensures
            final(self)@ == (ConfigView { debug: enable, ..old(self)@ }),
    {
        self.debug = enable;
    }

    pub fn get_debug(&self) -> (r: bool)
        ensures
            r == self@.debug,
    {
        self.debug
    }

    /// Sets whether `info` records are let through.
    pub fn info(&mut self, enable: bool)
        ensures
            final(self)@ == (ConfigView { info: enable, ..old(self)@ }),
    {
        self.info = enable;
    }

    pub fn get_info(&self) -> (r: bool)
        ensures
            r == self@.info,
    {
        self.info
    }

    /// Sets whether `warn` records are let through.
    pub fn warn(&mut self, enable: bool)
        ensures
            final(self)@ == (ConfigView { warn: enable, ..old(self)@ }),
    {
        self.warn = enable;
    }

    pub fn get_warn(&self) -> (r: bool)
        ensures
            r == self@.warn,
    {
        self.warn
    }

    /// Sets whether `error` records are let through.
    pub fn error(&mut self, enable: bool)
        ensures
            final(self)@ == (ConfigView { error: enable, ..old(self)@ }),
    {
        self.error = enable;
    }

    pub fn get_error(&self) -> (r: bool)
        ensures
            r == self@.error,
    {
        self.error
    }

    /// Sets the enable flag of one level.
    pub fn set_level_enabled(&mut self, level: Level, enable: bool)
        ensures
            final(self)@ == spec_set_level(old(self)@, level, enable),
    {
        match level {
            Level::Trace => self.trace = enable,
            Level::Debug => self.debug = enable,
            Level::Info => self.info = enable,
            Level::Warn => self.warn = enable,
            Level::Error => self.error = enable,
        }
    }

    /// Whether this record enables a level.
    pub fn level_enabled(&self, level: Level) -> (r: bool)
        ensures
            r == spec_level_enabled(self@, level),
    {
        match level {
            Level::Trace => self.trace,
            Level::Debug => self.debug,
            Level::Info => self.info,
            Level::Warn => self.warn,
            Level::Error => self.error,
        }
    }

    /// Sets the timestamp pattern, validating it first; an invalid pattern
    /// is refused and the prior pattern stays as it was.
    pub fn date_format(&mut self, format: &str) -> (r: Result<(), LogError>)
        ensures
            clock::pattern_valid(format@) ==> r is Ok && final(self)@ == (ConfigView {
                date_format: format@,
                ..old(self)@
            }),
            !clock::pattern_valid(format@) ==> (r matches Err(LogError::PatternError))
                && *final(self) == *old(self),
    {
        if clock::pattern_ok(format) {
            self.date_format = format.to_owned();
            Ok(())
        } else {
            Err(LogError::PatternError)
        }
    }

    pub fn get_date_format(&self) -> (r: &str)
        ensures
            r@ == self@.date_format,
    {
        self.date_format.as_str()
    }

    /// Copies this record into a configuration slot; every later decision
    /// read from the slot follows this record.
    pub fn apply(self, slot: &mut ConfigSlot)
        ensures
            final(slot)@ == self@,
    {
        slot.current = self;
    }

    /// Renders one record against this configuration: the line
    /// `[timestamp] [label] message` when the level is enabled, nothing at
    /// all when it is disabled.
    pub fn emit(&self, level: Level, timestamp: &str, message: &str) -> (r: Option<String>)
        ensures
            spec_level_enabled(self@, level) ==> r is Some && r->0@ == render::spec_line_bracketed(
                timestamp@,
                render::spec_label(level, self@.color),
                message@,
            ),
            !spec_level_enabled(self@, level) ==> r is None,
    {
        if self.level_enabled(level) {
            let label = render::level_to_str(level, self.color);
            Some(render::build_line_bracketed(timestamp, label, message))
        } else {
            None
        }
    }

    /// Renders one record with the current time in this record's timestamp
    /// pattern; yields nothing when the level is disabled, or when the
    /// clock's rendering fails.
    pub fn emit_now(&self, level: Level, message: &str) -> (r: Option<String>)
        ensures
            !spec_level_enabled(self@, level) ==> r is None,
            r is Some ==> spec_level_enabled(self@, level) && exists|ts: Seq<char>|
                r->0@ == render::spec_line_bracketed(
                    ts,
                    render::spec_label(level, self@.color),
                    message@,
                ),
    {
        if !self.level_enabled(level) {
            return None;
        }
        match clock::format_now(self.date_format.as_str()) {
            Some(ts) => {
                let line = self.emit(level, ts.as_str(), message);
                proof {
                    assert(line->0@ == render::spec_line_bracketed(
                        ts@,
                        render::spec_label(level, self@.color),
                        message@,
                    ));
                }
                line
            },
            None => None,
        }
    }
}

impl Default for LogConfig {
    /// The default record enables every level.
    fn default() -> (r: Self)
        ensures
            r@ == spec_enable_all(),
    {
        LogConfig::enable_all()
    }
}

/// The one place a record becomes active: a slot holds the configuration
/// that decisions are read from, and `LogConfig::apply` overwrites it,
/// last writer winning.
pub struct ConfigSlot {
    current: LogConfig,
}

impl View for ConfigSlot {
    type V = ConfigView;

    closed spec fn view(&self) -> ConfigView {
        self.current@
    }
}

impl ConfigSlot {
    /// A fresh slot starts with every level enabled, no color, and the
    /// default timestamp pattern.
    pub fn new() -> (r: Self)
        ensures
            r@ == spec_enable_all(),
    {
        ConfigSlot { current: LogConfig::enable_all() }
    }

    /// The record the slot holds.
    pub fn current(&self) -> (r: &LogConfig)
        ensures
            r@ == self@,
    {
        &self.current
    }
}

impl Default for ConfigSlot {
    fn default() -> (r: Self)
        ensures
            r@ == spec_enable_all(),
    {
        ConfigSlot::new()
    }
}

/// Disabling one level silences exactly that level: its own flag goes
/// off, and every other level's decision is untouched.
pub proof fn lemma_disable_level_isolates(v: ConfigView, l: Level, m: Level)
    ensures
        !spec_level_enabled(spec_set_level(v, l, false), l),
        m != l ==> spec_level_enabled(spec_set_level(v, l, false), m) == spec_level_enabled(v, m),
{
}

/// The color flag only decorates: it never changes whether a level is
/// enabled, and the rendered line is the label's decoration spliced
/// between a prefix and a suffix that carry the timestamp and the message
/// unchanged.
pub proof fn lemma_color_only_decorates(
    v: ConfigView,
    b: bool,
    l: Level,
    ts: Seq<char>,
    msg: Seq<char>,
)
    ensures
        spec_level_enabled(ConfigView { color: b, ..v }, l) == spec_level_enabled(v, l),
        render::spec_line_bracketed(ts, render::spec_label(l, b), msg) == ("["@ + ts + "] ["@)
            + render::spec_label(l, b) + ("] "@ + msg),
{
    assert(render::spec_line_bracketed(ts, render::spec_label(l, b), msg) =~= ("["@ + ts + "] ["@)
        + render::spec_label(l, b) + ("] "@ + msg));
}

/// Applying a record and reading the slot back reproduces every field of
/// the record exactly.
pub proof fn lemma_apply_round_trip(c: LogConfig, slot: ConfigSlot)
    requires
        slot@ == c@,
    ensures
        slot@.date_format == c@.date_format,
        slot@.color == c@.color,
        slot@.trace == c@.trace,
        slot@.debug == c@.debug,
        slot@.info == c@.info,
        slot@.warn == c@.warn,
        slot@.error == c@.error,
{
}

} // verus!
