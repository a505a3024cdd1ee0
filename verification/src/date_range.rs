//! Date ranges for filtering statistics queries.
//!
//! A date is held as plain year, month and day values under the civil
//! (Gregorian) calendar rules, so that range arithmetic and formatting are
//! exact functions.  Only the reading of today's date relies on the
//! surrounding clock.

use vstd::prelude::*;
use vstd::string::StringExecFns;

use chrono::Datelike;

use crate::strutil::fmt_i64;
use crate::strutil::fmt_u64;
use crate::strutil::spec_int_str;
use crate::strutil::spec_nat_str;

verus! {

/// A civil calendar date.
#[derive(Debug, Clone, Copy, PartialEq, Eq, Structural)]
pub struct Date {
    pub year: i32,
    pub month: u32,
    pub day: u32,
}

/// A leap year: divisible by four, except centuries off the four-hundred
/// cycle.
pub open spec fn spec_is_leap(y: int) -> bool {
    y % 4 == 0 && (y % 100 != 0 || y % 400 == 0)
}

/// Days in a month of a year.
pub open spec fn spec_days_in_month(y: int, m: int) -> int {
    if m == 2 {
        if spec_is_leap(y) {
            29
        } else {
            28
        }
    } else if m == 4 || m == 6 || m == 9 || m == 11 {
        30
    } else {
        31
    }
}

/// A well-formed date: month and day within the calendar.
pub open spec fn spec_valid_date(d: Date) -> bool {
    1 <= d.month <= 12 && 1 <= d.day <= spec_days_in_month(d.year as int, d.month as int)
}

/// The day before, stepping over month and year boundaries; none at the
/// lower edge of the representable years.
pub open spec fn spec_prev_day(d: Date) -> Option<Date> {
    if d.day > 1 {
        Some(Date { day: (d.day - 1) as u32, ..d })
    } else if d.month > 1 {
        Some(
            Date {
                month: (d.month - 1) as u32,
                day: spec_days_in_month(d.year as int, d.month as int - 1) as u32,
                ..d
            },
        )
    } else if d.year > i32::MIN {
        Some(Date { year: (d.year - 1) as i32, month: 12, day: 31 })
    } else {
        None
    }
}

/// The date `n` days before, stepping one day at a time.
pub open spec fn spec_sub_days(d: Date, n: nat) -> Option<Date>
    decreases n,
{
    if n == 0 {
        Some(d)
    } else {
        match spec_prev_day(d) {
            Some(p) => spec_sub_days(p, (n - 1) as nat),
            None => None,
        }
    }
}

/// Days in a month of a year.
pub fn days_in_month(year: i32, month: u32) -> (r: u32)
    requires
        1 <= month <= 12,
    ensures
        r == spec_days_in_month(year as int, month as int),
{
    if month == 2 {
        let leap = year % 4 == 0 && (year % 100 != 0 || year % 400 == 0);
        proof {
            assert(leap == spec_is_leap(year as int)) by {
                assert(year as int % 4 == year % 4);
                assert(year as int % 100 == year % 100);
                assert(year as int % 400 == year % 400);
            }
        }
        if leap {
            29
        } else {
            28
        }
    } else if month == 4 || month == 6 || month == 9 || month == 11 {
        30
    } else {
        31
    }
}

impl Date {
    /// The day before, stepping over month and year boundaries.
    pub fn prev_day(self) -> (r: Option<Date>)
        requires
            spec_valid_date(self),
        ensures
            r == spec_prev_day(self),
            match r {
                Some(p) => spec_valid_date(p),
                None => true,
            },
    {
        if self.day > 1 {
            Some(Date { day: self.day - 1, ..self })
        } else if self.month > 1 {
            Some(
                Date {
                    month: self.month - 1,
                    day: days_in_month(self.year, self.month - 1),
                    ..self
                },
            )
        } else if self.year > i32::MIN {
            Some(Date { year: self.year - 1, month: 12, day: 31 })
        } else {
            None
        }
    }

    /// The date `n` days before.
    pub fn sub_days(self, n: u32) -> (r: Option<Date>)
        requires
            spec_valid_date(self),
        ensures
            r == spec_sub_days(self, n as nat),
            match r {
                Some(p) => spec_valid_date(p),
                None => true,
            },
    {
        let mut d = self;
        let mut i: u32 = 0;
        while i < n
            invariant
                0 <= i <= n,
                spec_valid_date(d),
                spec_sub_days(self, n as nat) == spec_sub_days(d, (n - i) as nat),
            decreases n - i,
        {
            match d.prev_day() {
                Some(p) => {
                    d = p;
                },
                None => {
                    return None;
                },
            }
            i = i + 1;
        }
        Some(d)
    }

    /// The date `n` calendar months before, with the day clamped to the
    /// shorter month; none where the months would run out of the calendar.
    pub fn sub_months(self, n: u32) -> (r: Option<Date>)
        requires
            spec_valid_date(self),
        ensures
            r == spec_sub_months(self, n as int),
            match r {
                Some(p) => spec_valid_date(p),
                None => true,
            },
    {
        let total: i64 = (self.year as i64) * 12 + ((self.month - 1) as i64) - (n as i64);
        if total < (i32::MIN as i64) * 12 {
            return None;
        }
        let y: i64 = if total >= 0 {
            total / 12
        } else {
            -((-total + 11) / 12)
        };
        let m: i64 = total - y * 12 + 1;
        proof {
            assert(1 <= m <= 12) by (nonlinear_arith)
                requires
                    y == (if total >= 0 {
                        total / 12
                    } else {
                        -((-total + 11) / 12)
                    }),
                    m == total - y * 12 + 1,
            ;
            assert(y >= i32::MIN) by (nonlinear_arith)
                requires
                    total >= (i32::MIN as i64) * 12,
                    y == (if total >= 0 {
                        total / 12
                    } else {
                        -((-total + 11) / 12)
                    }),
            ;
            assert(total <= (i32::MAX as i64) * 12 + 11);
            assert(y <= i32::MAX) by (nonlinear_arith)
                requires
                    total <= (i32::MAX as i64) * 12 + 11,
                    y == (if total >= 0 {
                        total / 12
                    } else {
                        -((-total + 11) / 12)
                    }),
            ;
        }
        let dim = days_in_month(y as i32, m as u32);
        let day = if self.day <= dim {
            self.day
        } else {
            dim
        };
        Some(Date { year: y as i32, month: m as u32, day })
    }
}

/// The date `n` calendar months before, with the day clamped.
pub open spec fn spec_sub_months(d: Date, n: int) -> Option<Date> {
    let total = d.year * 12 + (d.month - 1) - n;
    if total < i32::MIN * 12 {
        None
    } else {
        let y = if total >= 0 {
            total / 12
        } else {
            -((-total + 11) / 12)
        };
        let m = total - y * 12 + 1;
        let dim = spec_days_in_month(y, m);
        Some(
            Date {
                year: y as i32,
                month: m as u32,
                day: if d.day <= dim {
                    d.day
                } else {
                    dim as u32
                },
            },
        )
    }
}

/// A number padded with zeros to at least two digits.
pub open spec fn spec_pad2(n: int) -> Seq<char> {
    if 0 <= n < 10 {
        seq!['0'] + spec_nat_str(n)
    } else {
        spec_int_str(n)
    }
}

/// A year padded with zeros to at least four digits, with a minus sign in
/// front of a year before the common era.
pub open spec fn spec_pad4(n: int) -> Seq<char>
    decreases (if n < 0 { 1int } else { 0int }),
{
    if n < 0 {
        seq!['-'] + spec_pad4(-n)
    } else if n < 10 {
        seq!['0', '0', '0'] + spec_nat_str(n)
    } else if n < 100 {
        seq!['0', '0'] + spec_nat_str(n)
    } else if n < 1000 {
        seq!['0'] + spec_nat_str(n)
    } else {
        spec_nat_str(n)
    }
}

/// The date in year-month-day form with dashes, as the store expects it.
pub open spec fn spec_date_sql(d: Date) -> Seq<char> {
    spec_pad4(d.year as int) + seq!['-'] + spec_pad2(d.month as int) + seq!['-'] + spec_pad2(
        d.day as int,
    )
}

/// Format a number with zeros to at least two digits.
fn pad2(n: u32) -> (r: String)
    ensures
        r@ == spec_pad2(n as int),
{
    if n < 10 {
        let mut out = "0".to_owned();
        out.append(fmt_u64(n as u64).as_str());
        proof {
            reveal_strlit("0");
            assert(out@ =~= spec_pad2(n as int));
        }
        out
    } else {
        let r = fmt_u64(n as u64);
        r
    }
}

/// Format a year with zeros to at least four digits.
fn pad4(n: i32) -> (r: String)
    ensures
        r@ == spec_pad4(n as int),
{
    if n < 0 {
        let m: u64 = ((-((n as i64) + 1)) as u64) + 1;
        let mut out = "-".to_owned();
        let rest = pad4_u(m);
        out.append(rest.as_str());
        proof {
            reveal_strlit("-");
            assert(m as int == -(n as int));
            assert(spec_pad4(m as int) == rest@);
            assert(out@ =~= spec_pad4(n as int));
        }
        out
    } else {
        pad4_u(n as u64)
    }
}

/// Format a non-negative year with zeros to at least four digits.
fn pad4_u(n: u64) -> (r: String)
    ensures
        r@ == spec_pad4(n as int),
{
    proof {
        reveal_strlit("000");
        reveal_strlit("00");
        reveal_strlit("0");
    }
    if n < 10 {
        let mut out = "000".to_owned();
        out.append(fmt_u64(n).as_str());
        proof {
            assert(out@ =~= spec_pad4(n as int));
        }
        out
    } else if n < 100 {
        let mut out = "00".to_owned();
        out.append(fmt_u64(n).as_str());
        proof {
            assert(out@ =~= spec_pad4(n as int));
        }
        out
    } else if n < 1000 {
        let mut out = "0".to_owned();
        out.append(fmt_u64(n).as_str());
        proof {
            assert(out@ =~= spec_pad4(n as int));
        }
        out
    } else {
        let r = fmt_u64(n);
        r
    }
}

/// Format a date in year-month-day form with dashes.
pub fn format_date_sql(d: &Date) -> (r: String)
    ensures
        r@ == spec_date_sql(*d),
{
    let mut out = pad4(d.year);
    out.append("-");
    out.append(pad2(d.month).as_str());
    out.append("-");
    out.append(pad2(d.day).as_str());
    proof {
        reveal_strlit("-");
        assert(out@ =~= spec_date_sql(*d));
    }
    out
}

/// Today's civil date in the local time zone.
///
/// Relies on chrono's `Local::now` and `NaiveDate`: the year, month and
/// day fields of a `NaiveDate` always form a valid civil date.  The value
/// depends on the clock and the configured time zone, so nothing more is
/// promised of it.
#[verifier::external_body]
pub(crate) fn local_today() -> (r: Date)
    ensures
        spec_valid_date(r),
{
    let now = chrono::Local::now().date_naive();
    Date { year: now.year(), month: now.month(), day: now.day() }
}

/// A date range for filtering statistics queries, with a human-readable
/// name.
#[derive(Debug, Clone)]
pub struct DateRange {
    /// Start date, inclusive; none for no lower bound.
    pub start: Option<Date>,
    /// End date, inclusive; none for no upper bound.
    pub end: Option<Date>,
    /// Human-readable name of the period.
    pub display_name: String,
}

/// The month's name.
pub open spec fn spec_month_name(m: int) -> Seq<char> {
    if m == 1 {
        "January"@
    } else if m == 2 {
        "February"@
    } else if m == 3 {
        "March"@
    } else if m == 4 {
        "April"@
    } else if m == 5 {
        "May"@
    } else if m == 6 {
        "June"@
    } else if m == 7 {
        "July"@
    } else if m == 8 {
        "August"@
    } else if m == 9 {
        "September"@
    } else if m == 10 {
        "October"@
    } else if m == 11 {
        "November"@
    } else {
        "December"@
    }
}

/// The month's name.
fn month_name(m: u32) -> (r: String)
    requires
        1 <= m <= 12,
    ensures
        r@ == spec_month_name(m as int),
{
    if m == 1 {
        "January".to_owned()
    } else if m == 2 {
        "February".to_owned()
    } else if m == 3 {
        "March".to_owned()
    } else if m == 4 {
        "April".to_owned()
    } else if m == 5 {
        "May".to_owned()
    } else if m == 6 {
        "June".to_owned()
    } else if m == 7 {
        "July".to_owned()
    } else if m == 8 {
        "August".to_owned()
    } else if m == 9 {
        "September".to_owned()
    } else if m == 10 {
        "October".to_owned()
    } else if m == 11 {
        "November".to_owned()
    } else {
        "December".to_owned()
    }
}

impl DateRange {
    /// A range with the given bounds and name.
    pub fn new(start: Option<Date>, end: Option<Date>, display_name: String) -> (r: DateRange)
        ensures
            r.start == start,
            r.end == end,
            r.display_name == display_name,
    {
        DateRange { start, end, display_name }
    }

    /// The unbounded range.
    pub fn all_time() -> (r: DateRange)
        ensures
            r.start is None,
            r.end is None,
            r.display_name@ == "All Time"@,
    {
        DateRange { start: None, end: None, display_name: "All Time".to_owned() }
    }

    /// Today only.
    pub fn today() -> (r: DateRange)
        ensures
            r.start == r.end,
            r.start is Some,
            spec_valid_date(r.start->0),
            r.display_name@ == "Today"@,
    {
        let t = local_today();
        DateRange { start: Some(t), end: Some(t), display_name: "Today".to_owned() }
    }

    /// The last seven days, today included.
    pub fn last_week() -> (r: DateRange)
        ensures
            r.end is Some,
            spec_valid_date(r.end->0),
            r.start == spec_sub_days(r.end->0, 7),
            r.display_name@ == "Last 7 Days"@,
    {
        let t = local_today();
        DateRange { start: t.sub_days(7), end: Some(t), display_name: "Last 7 Days".to_owned() }
    }

    /// The current calendar month, from its first day on.
    pub fn current_month() -> (r: DateRange)
        ensures
            r.start is Some,
            spec_valid_date(r.start->0),
            r.start->0.day == 1,
            r.end is None,
            r.display_name@ == spec_month_name(r.start->0.month as int) + seq![' '] + spec_pad4(
                r.start->0.year as int,
            ),
    {
        let t = local_today();
        let start = Date { day: 1, ..t };
        let mut name = month_name(t.month);
        name.append(" ");
        name.append(pad4(t.year).as_str());
        proof {
            reveal_strlit(" ");
            assert(name@ =~= spec_month_name(start.month as int) + seq![' '] + spec_pad4(
                start.year as int,
            ));
        }
        DateRange { start: Some(start), end: None, display_name: name }
    }

    /// The last thirty days, today included.
    pub fn last_month() -> (r: DateRange)
        ensures
            r.end is Some,
            spec_valid_date(r.end->0),
            r.start == spec_sub_days(r.end->0, 30),
            r.display_name@ == "Past Month"@,
    {
        let t = local_today();
        DateRange { start: t.sub_days(30), end: Some(t), display_name: "Past Month".to_owned() }
    }

    /// The current calendar year, from its first day on.
    pub fn current_year() -> (r: DateRange)
        ensures
            r.start is Some,
            r.start->0.month == 1,
            r.start->0.day == 1,
            r.end is None,
            r.display_name@ == spec_int_str(r.start->0.year as int),
    {
        let t = local_today();
        let start = Date { year: t.year, month: 1, day: 1 };
        DateRange { start: Some(start), end: None, display_name: fmt_i64(t.year as i64) }
    }

    /// The last year of days, today included.
    pub fn last_year() -> (r: DateRange)
        ensures
            r.end is Some,
            spec_valid_date(r.end->0),
            r.start == spec_sub_days(r.end->0, 365),
            r.display_name@ == "Past Year"@,
    {
        let t = local_today();
        DateRange { start: t.sub_days(365), end: Some(t), display_name: "Past Year".to_owned() }
    }

    /// A specific calendar year, whole.
    pub fn year(year: i32) -> (r: DateRange)
        ensures
            r.start == Some(Date { year, month: 1, day: 1 }),
            r.end == Some(Date { year, month: 12, day: 31 }),
            r.display_name@ == spec_int_str(year as int),
    {
        DateRange {
            start: Some(Date { year, month: 1, day: 1 }),
            end: Some(Date { year, month: 12, day: 31 }),
            display_name: fmt_i64(year as i64),
        }
    }

    /// The start date in year-month-day form.
    pub fn start_sql(&self) -> (r: Option<String>)
        ensures
            match (r, self.start) {
                (Some(s), Some(d)) => s@ == spec_date_sql(d),
                (None, None) => true,
                _ => false,
            },
    {
        match &self.start {
            Some(d) => Some(format_date_sql(d)),
            None => None,
        }
    }

    /// The end date in year-month-day form.
    pub fn end_sql(&self) -> (r: Option<String>)
        ensures
            match (r, self.end) {
                (Some(s), Some(d)) => s@ == spec_date_sql(d),
                (None, None) => true,
                _ => false,
            },
    {
        match &self.end {
            Some(d) => Some(format_date_sql(d)),
            None => None,
        }
    }

    /// The end date with the last second of the day, to include the whole
    /// end day.
    pub fn end_sql_with_time(&self) -> (r: Option<String>)
        ensures
            match (r, self.end) {
                (Some(s), Some(d)) => s@ == spec_date_sql(d) + " 23:59:59"@,
                (None, None) => true,
                _ => false,
            },
    {
        match &self.end {
            Some(d) => {
                let mut out = format_date_sql(d);
                out.append(" 23:59:59");
                Some(out)
            },
            None => None,
        }
    }

    /// Both bounds in year-month-day form.
    pub fn to_sql_tuple(&self) -> (r: (Option<String>, Option<String>))
        ensures
            match (r.0, self.start) {
                (Some(s), Some(d)) => s@ == spec_date_sql(d),
                (None, None) => true,
                _ => false,
            },
            match (r.1, self.end) {
                (Some(s), Some(d)) => s@ == spec_date_sql(d),
                (None, None) => true,
                _ => false,
            },
    {
        (self.start_sql(), self.end_sql())
    }

    /// Both bounds, the end with the last second of its day.
    pub fn to_sql_tuple_with_end_time(&self) -> (r: (Option<String>, Option<String>))
        ensures
            match (r.0, self.start) {
                (Some(s), Some(d)) => s@ == spec_date_sql(d),
                (None, None) => true,
                _ => false,
            },
            match (r.1, self.end) {
                (Some(s), Some(d)) => s@ == spec_date_sql(d) + " 23:59:59"@,
                (None, None) => true,
                _ => false,
            },
    {
        (self.start_sql(), self.end_sql_with_time())
    }

    /// Whether the range is unbounded on both sides.
    pub fn is_all_time(&self) -> (r: bool)
        ensures
            r == (self.start is None && self.end is None),
    {
        self.start.is_none() && self.end.is_none()
    }
}

/// Build a date range from command-line flags, checked in order: all time,
/// then week, then month, then a specific year, else the current year.
pub fn from_cli_flags(all_time: bool, week: bool, month: bool, year: Option<i32>) -> (r: DateRange)
    ensures
        all_time ==> r.start is None && r.end is None && r.display_name@ == "All Time"@,
        !all_time && week ==> r.display_name@ == "Last 7 Days"@,
        !all_time && !week && month ==> r.end is None && r.display_name@ == spec_month_name(
            r.start->0.month as int,
        ) + seq![' '] + spec_pad4(r.start->0.year as int),
        !all_time && !week && !month ==> match year {
            Some(y) => r.start == Some(Date { year: y, month: 1, day: 1 }) && r.end == Some(
                Date { year: y, month: 12, day: 31 },
            ) && r.display_name@ == spec_int_str(y as int),
            None => r.start is Some && r.start->0.month == 1 && r.start->0.day == 1 && r.end
                is None,
        },
{
    if all_time {
        DateRange::all_time()
    } else if week {
        DateRange::last_week()
    } else if month {
        DateRange::current_month()
    } else if let Some(y) = year {
        DateRange::year(y)
    } else {
        DateRange::current_year()
    }
}

/// Date filter options offered as selectable time periods.
#[derive(Debug, Clone, Copy, PartialEq, Eq, Structural)]
pub enum DateFilter {
    /// Today only.
    Today,
    /// The last seven days.
    Week,
    /// The last thirty days.
    Month,
    /// The last year of days.
    Year,
    /// No date filter.
    AllTime,
}

impl Default for DateFilter {
    /// No date filter.
    fn default() -> (r: DateFilter)
        ensures
            r == DateFilter::AllTime,
    {
        DateFilter::AllTime
    }
}

impl DateFilter {
    /// The date range the filter stands for.
    pub fn to_date_range(self) -> (r: DateRange)
        ensures
            self is Today ==> r.display_name@ == "Today"@,
            self is Week ==> r.display_name@ == "Last 7 Days"@,
            self is Month ==> r.display_name@ == "Past Month"@,
            self is Year ==> r.display_name@ == "Past Year"@,
            self is AllTime ==> r.start is None && r.end is None,
    {
        match self {
            DateFilter::Today => DateRange::today(),
            DateFilter::Week => DateRange::last_week(),
            DateFilter::Month => DateRange::last_month(),
            DateFilter::Year => DateRange::last_year(),
            DateFilter::AllTime => DateRange::all_time(),
        }
    }

    /// The filter's display name.
    pub fn display_name(self) -> (r: &'static str)
        ensures
            self is Today ==> r@ == "Today"@,
            self is Week ==> r@ == "Past Week"@,
            self is Month ==> r@ == "Past Month"@,
            self is Year ==> r@ == "Past Year"@,
            self is AllTime ==> r@ == "All Time"@,
    {
        match self {
            DateFilter::Today => "Today",
            DateFilter::Week => "Past Week",
            DateFilter::Month => "Past Month",
            DateFilter::Year => "Past Year",
            DateFilter::AllTime => "All Time",
        }
    }

    /// All filter options, in display order.
    pub fn all() -> (r: Vec<DateFilter>)
        ensures
            r@ == seq![
                DateFilter::Today,
                DateFilter::Week,
                DateFilter::Month,
                DateFilter::Year,
                DateFilter::AllTime,
            ],
    {
        let mut v: Vec<DateFilter> = Vec::new();
        v.push(DateFilter::Today);
        v.push(DateFilter::Week);
        v.push(DateFilter::Month);
        v.push(DateFilter::Year);
        v.push(DateFilter::AllTime);
        proof {
            assert(v@ =~= seq![
                DateFilter::Today,
                DateFilter::Week,
                DateFilter::Month,
                DateFilter::Year,
                DateFilter::AllTime,
            ]);
        }
        v
    }
}

} // verus!
