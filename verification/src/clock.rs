//! The local wall clock, read as text.

use vstd::prelude::*;

verus! {

/// The layout of a calendar day: year, month and day.
pub open spec fn day_layout() -> Seq<char> {
    "%Y-%m-%d"@
}

/// The layout of a moment: the calendar day and the time of day in seconds.
pub open spec fn stamp_layout() -> Seq<char> {
    "%Y-%m-%d %H:%M:%S"@
}

/// Reads the clock with `chrono::Local::now` and writes the moment out with
/// `DateTime::format` in the given layout. What comes back depends on the
/// time and on the machine's time zone, so nothing is claimed of it. Only
/// the two layouts of this module are admitted: both are made of specifiers
/// that chrono knows, so writing the moment out cannot fail. `Local::now`
/// itself gives up on a system clock that stands before 1970.
#[verifier::external_body]
pub(crate) fn local_time_text(layout: &str) -> (text: String)
    requires
        layout@ == day_layout() || layout@ == stamp_layout(),
{
    chrono::Local::now().format(layout).to_string()
}

} // verus!
