//! The local clock. One trusted wrapper reads chrono's local time into
//! plain fields, stating only the ranges chrono's documentation promises;
//! the widget texts built on it are verified.

use vstd::prelude::*;
use chrono::{Datelike, Timelike};
use crate::widget::{
    ClockReading, spec_clock_hm, spec_clock_hms, spec_date_dm, spec_date_dmy, spec_weekday_name,
    clock_hm_text, clock_hms_text, date_dm_text, date_dmy_text, weekday_name,
};

verus! {

/// A clock reading whose fields lie in their documented ranges.
pub open spec fn clock_reading_wf(c: ClockReading) -> bool {
    &&& c.hour < 24
    &&& c.minute < 60
    &&& c.second < 60
    &&& 1 <= c.day <= 31
    &&& 1 <= c.month <= 12
    &&& c.weekday < 7
}

/// Relies on chrono: `Local::now` for the current local time, and the
/// `Timelike`/`Datelike` accessors `hour` (0..=23), `minute` (0..=59),
/// `second` (0..=59), `day` (1..=31), `month` (1..=12), `year`, and
/// `weekday` with `Weekday::num_days_from_sunday` (0..=6). The reading
/// depends on the clock, so only those ranges are promised.
#[verifier::external_body]
fn read_local_clock() -> (r: ClockReading)
    ensures
        clock_reading_wf(r),
{
    let now = chrono::Local::now();
    ClockReading {
        hour: now.hour(),
        minute: now.minute(),
        second: now.second(),
        day: now.day(),
        month: now.month(),
        year: now.year(),
        weekday: (now.weekday().num_days_from_sunday() % 7) as u8,
    }
}

/// Reads the local clock into plain fields, each within its documented
/// range.
pub fn local_clock_reading() -> (r: ClockReading)
    ensures
        clock_reading_wf(r),
{
    read_local_clock()
}

/// The current local time as `HH:MM`.
pub fn get_widget_clock() -> (r: String)
    ensures
        exists|c: ClockReading| clock_reading_wf(c) && r@ == spec_clock_hm(c),
{
    let c = local_clock_reading();
    let r = clock_hm_text(&c);
    proof {
        assert(clock_reading_wf(c) && r@ == spec_clock_hm(c));
    }
    r
}

/// The current local time as `HH:MM:SS`.
pub fn get_widget_clock_seconds() -> (r: String)
    ensures
        exists|c: ClockReading| clock_reading_wf(c) && r@ == spec_clock_hms(c),
{
    let c = local_clock_reading();
    let r = clock_hms_text(&c);
    proof {
        assert(clock_reading_wf(c) && r@ == spec_clock_hms(c));
    }
    r
}

/// The current local date as `DD/MM`.
pub fn get_widget_date() -> (r: String)
    ensures
        exists|c: ClockReading| clock_reading_wf(c) && r@ == spec_date_dm(c),
{
    let c = local_clock_reading();
    let r = date_dm_text(&c);
    proof {
        assert(clock_reading_wf(c) && r@ == spec_date_dm(c));
    }
    r
}

/// The current local date as `DD/MM/YYYY`.
pub fn get_widget_date_full() -> (r: String)
    ensures
        exists|c: ClockReading| clock_reading_wf(c) && r@ == spec_date_dmy(c),
{
    let c = local_clock_reading();
    let r = date_dmy_text(&c);
    proof {
        assert(clock_reading_wf(c) && r@ == spec_date_dmy(c));
    }
    r
}

/// The current weekday's Spanish name.
pub fn get_widget_weekday() -> (r: String)
    ensures
        exists|w: u8| w < 7 && r@ == spec_weekday_name(w),
{
    let c = local_clock_reading();
    let r = weekday_name(c.weekday);
    proof {
        assert(c.weekday < 7 && r@ == spec_weekday_name(c.weekday));
    }
    r
}

/// Relies on std's `SystemTime::now` and `duration_since`: the seconds
/// since the Unix epoch, or zero should the clock lie before it. The
/// result depends on the clock, so nothing is promised of it.
#[verifier::external_body]
pub fn chrono_lite() -> u64 {
    std::time::SystemTime::now().duration_since(std::time::UNIX_EPOCH).map(
        |d| d.as_secs(),
    ).unwrap_or(0)
}

} // verus!
