//! Local wall-clock time as text.

use vstd::prelude::*;

verus! {

/// The layout of every timestamp this crate hands out on request:
/// year, month and day separated by dots, then the time of day.
pub const DATETIME_FORMAT: &'static str = "%Y.%m.%d %H:%M:%S";

/// The local time of the moment of the call, laid out as `DATETIME_FORMAT`.
///
/// Calls `chrono::Local::now` and `chrono::DateTime::format`.  The text
/// depends on the clock, so nothing is claimed of it; `DATETIME_FORMAT`
/// is a layout that `format` accepts.  `now` takes no argument, so no
/// condition on one can keep it from failing: it panics on a machine
/// whose clock reads a time before 1970.
#[verifier::external_body]
pub fn get_local_time() -> (text: String) {
    chrono::Local::now().format(DATETIME_FORMAT).to_string()
}

/// The local time of the moment of the call, in chrono's own layout for
/// a date with its offset.
///
/// Calls `chrono::Local::now` and the `Display` of `chrono::DateTime`.
/// The text depends on the clock, so nothing is claimed of it.  As in
/// `get_local_time`, `now` panics where the clock reads a time before
/// 1970.
#[verifier::external_body]
pub(crate) fn local_now_text() -> (text: String) {
    chrono::Local::now().to_string()
}

} // verus!
