//! The listening context recorded beside each play.
//!
//! The context is assembled from plain values: the clock parts and the
//! results of the best-effort probes (focused window, screen state, power
//! state), which the surrounding process gathers and may leave unknown.

use vstd::prelude::*;
use vstd::string::StrSliceExecFns;
use vstd::string::StringExecFns;

use crate::strutil::contains_nocase_str;
use crate::strutil::contains_str;
use crate::strutil::eq_ignore_ascii_case_str;
use crate::strutil::spec_contains;
use crate::strutil::spec_contains_nocase;
use crate::strutil::spec_eq_nocase;
use crate::strutil::spec_trimmed;
use crate::strutil::trim_ascii_ws;

verus! {

/// Saturday is day five when Monday is day zero.
pub const WEEKEND_START_DAY: i32 = 5;

/// Listening context at the time of a play.
#[derive(Debug, Clone)]
pub struct ListeningContext {
    /// Hour of day, zero to twenty-three.
    pub hour_of_day: i32,
    /// Day of week, zero for Monday through six for Sunday.
    pub day_of_week: i32,
    /// Whether the day is a Saturday or Sunday.
    pub is_weekend: bool,
    /// Season name for the month, northern hemisphere.
    pub season: String,
    /// Focused window title, where a probe found one.
    pub active_window: Option<String>,
    /// Whether the screen is on, where a probe could tell.
    pub screen_on: Option<bool>,
    /// Whether the machine runs on battery, where a probe could tell.
    pub on_battery: Option<bool>,
}

/// The season name for a month, northern hemisphere: March through May is
/// spring, June through August summer, September through November fall,
/// the rest winter.
pub open spec fn spec_season(month: u32) -> Seq<char> {
    if 3 <= month <= 5 {
        "spring"@
    } else if 6 <= month <= 8 {
        "summer"@
    } else if 9 <= month <= 11 {
        "fall"@
    } else {
        "winter"@
    }
}

/// Get the season name for a month, northern hemisphere.
pub fn get_season(month: u32) -> (r: String)
    ensures
        r@ == spec_season(month),
{
    if 3 <= month && month <= 5 {
        "spring".to_owned()
    } else if 6 <= month && month <= 8 {
        "summer".to_owned()
    } else if 9 <= month && month <= 11 {
        "fall".to_owned()
    } else {
        "winter".to_owned()
    }
}

impl Default for ListeningContext {
    /// An empty context: midnight Monday, empty season, all probes
    /// unknown.
    fn default() -> (r: ListeningContext)
        ensures
            r.hour_of_day == 0,
            r.day_of_week == 0,
            !r.is_weekend,
            r.season@ == Seq::<char>::empty(),
            r.active_window is None,
            r.screen_on is None,
            r.on_battery is None,
    {
        ListeningContext {
            hour_of_day: 0,
            day_of_week: 0,
            is_weekend: false,
            season: String::new(),
            active_window: None,
            screen_on: None,
            on_battery: None,
        }
    }
}

impl ListeningContext {
    /// Assemble a context from clock parts and probe results.  The weekend
    /// flag and the season follow from the day and the month; everything
    /// else is carried as given.
    pub fn from_parts(
        hour_of_day: i32,
        day_of_week: i32,
        month: u32,
        active_window: Option<String>,
        screen_on: Option<bool>,
        on_battery: Option<bool>,
    ) -> (r: ListeningContext)
        ensures
            r.hour_of_day == hour_of_day,
            r.day_of_week == day_of_week,
            r.is_weekend == (day_of_week >= WEEKEND_START_DAY),
            r.season@ == spec_season(month),
            r.active_window == active_window,
            r.screen_on == screen_on,
            r.on_battery == on_battery,
    {
        ListeningContext {
            hour_of_day,
            day_of_week,
            is_weekend: day_of_week >= WEEKEND_START_DAY,
            season: get_season(month),
            active_window,
            screen_on,
            on_battery,
        }
    }
}

/// Interpret a window-title probe's output: the title with ASCII
/// whitespace trimmed from both ends and cut to at most two hundred
/// characters; nothing where nothing is left.
pub fn window_title_from_output(raw: &str) -> (r: Option<String>)
    ensures
        ({
            let t = spec_trimmed(raw@);
            match r {
                Some(s) => t.len() > 0 && s@ == (if t.len() <= 200 {
                    t
                } else {
                    t.subrange(0, 200)
                }),
                None => t.len() == 0,
            }
        }),
{
    let t = trim_ascii_ws(raw);
    let n = t.unicode_len();
    if n == 0 {
        None
    } else if n <= 200 {
        Some(t.to_owned())
    } else {
        Some(t.substring_char(0, 200).to_owned())
    }
}

/// Interpret the screensaver probe's output: the screen counts as on
/// unless the output reports an active screensaver.
pub fn screen_on_from_screensaver(raw: &str) -> (r: bool)
    ensures
        r == !spec_contains_nocase(raw@, "is active"@),
{
    !contains_nocase_str(raw, "is active")
}

/// Interpret the X server probe's output: the screen counts as on unless
/// the monitor is reported off.
pub fn screen_on_from_xset(raw: &str) -> (r: bool)
    ensures
        r == !spec_contains(raw@, "Monitor is Off"@),
{
    !contains_str(raw, "Monitor is Off")
}

/// Interpret a battery status file: a discharging state means the machine
/// runs on battery.
pub fn battery_discharging_from_status(raw: &str) -> (r: bool)
    ensures
        r == spec_eq_nocase(spec_trimmed(raw@), "discharging"@),
{
    eq_ignore_ascii_case_str(trim_ascii_ws(raw), "discharging")
}

/// Interpret the power daemon's output: where a state line is present, a
/// discharging state means the machine runs on battery; without one the
/// probe tells nothing.
pub fn battery_state_from_upower(raw: &str) -> (r: Option<bool>)
    ensures
        spec_contains_nocase(raw@, "state:"@) ==> r == Some(
            spec_contains_nocase(raw@, "discharging"@),
        ),
        !spec_contains_nocase(raw@, "state:"@) ==> r is None,
{
    if contains_nocase_str(raw, "state:") {
        Some(contains_nocase_str(raw, "discharging"))
    } else {
        None
    }
}

} // verus!
