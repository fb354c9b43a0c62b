use vstd::prelude::*;

verus! {

/// A log severity level, ordered from most verbose (`Trace`) to most
/// severe (`Error`).
#[derive(Clone, Copy, Debug, PartialEq, Eq, Structural)]
pub enum Level {
    Trace,
    Debug,
    Info,
    Warn,
    Error,
}

/// A minimum-severity filter: `Off` rejects every record; any other value
/// accepts the records whose level is at least as severe as the named one.
#[derive(Clone, Copy, Debug, PartialEq, Eq, Structural)]
pub enum LevelFilter {
    Off,
    Error,
    Warn,
    Info,
    Debug,
    Trace,
}

/// Verbosity rank of a level: `Error` is 1, `Trace` is 5. A record passes a
/// filter when its rank is at most the filter's rank.
pub open spec fn verbosity(l: Level) -> int {
    match l {
        Level::Error => 1,
        Level::Warn => 2,
        Level::Info => 3,
        Level::Debug => 4,
        Level::Trace => 5,
    }
}

/// Verbosity rank of a filter: `Off` is 0 (nothing passes), `Trace` is 5
/// (everything passes).
pub open spec fn filter_verbosity(f: LevelFilter) -> int {
    match f {
        LevelFilter::Off => 0,
        LevelFilter::Error => 1,
        LevelFilter::Warn => 2,
        LevelFilter::Info => 3,
        LevelFilter::Debug => 4,
        LevelFilter::Trace => 5,
    }
}

/// Whether a record at level `l` passes the minimum-severity filter `f`.
pub open spec fn filter_admits(f: LevelFilter, l: Level) -> bool {
    verbosity(l) <= filter_verbosity(f)
}

/// Executable form of `filter_admits`.
pub fn level_passes_filter(f: LevelFilter, l: Level) -> (r: bool)
    ensures
        r == filter_admits(f, l),
{
    let lv: u8 = match l {
        Level::Error => 1,
        Level::Warn => 2,
        Level::Info => 3,
        Level::Debug => 4,
        Level::Trace => 5,
    };
    let fv: u8 = match f {
        LevelFilter::Off => 0,
        LevelFilter::Error => 1,
        LevelFilter::Warn => 2,
        LevelFilter::Info => 3,
        LevelFilter::Debug => 4,
        LevelFilter::Trace => 5,
    };
    lv <= fv
}

} // verus!
