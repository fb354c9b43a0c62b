use vstd::prelude::*;

verus! {

/// Whether `time`'s format-description parser accepts a pattern. The
/// verdict is a function of the pattern string alone.
pub uninterp spec fn pattern_valid(s: Seq<char>) -> bool;

/// Relies on `time::format_description::parse_borrowed`: it accepts a
/// syntactically valid format description and refuses an invalid one, and
/// its verdict depends only on the pattern string.
#[verifier::external_body]
pub(crate) fn pattern_ok(s: &str) -> (r: bool)
    ensures
        r == pattern_valid(s@),
{
    time::format_description::parse_borrowed::<2>(s).is_ok()
}

/// Relies on `time::format_description::parse_borrowed`,
/// `time::OffsetDateTime::now_utc` and `time::OffsetDateTime::format`:
/// renders the current UTC time with the given format description, and
/// yields nothing when the pattern is invalid or the rendering fails.
/// Nothing can be promised of the rendered text itself: it depends on the
/// clock.
#[verifier::external_body]
pub(crate) fn format_now(pattern: &str) -> (r: Option<String>)
    ensures
        r is Some ==> pattern_valid(pattern@),
{
    match time::format_description::parse_borrowed::<2>(pattern) {
        Ok(items) => time::OffsetDateTime::now_utc().format(&items).ok(),
        Err(_) => None,
    }
}

} // verus!
