//! Data shapes for the graphical views.
//!
//! The graphical front-end itself is outside this library; these are the
//! plain records it binds, and the date filter its period dropdown offers.

use vstd::prelude::*;

use crate::date_range::format_date_sql;
use crate::date_range::local_today;
use crate::date_range::spec_date_sql;
use crate::date_range::spec_sub_days;
use crate::date_range::spec_sub_months;
use crate::date_range::spec_valid_date;
use crate::date_range::Date;
use crate::track::spec_opt_str_view;

verus! {

/// Data for the hourly heatmap view.
#[derive(Debug, Clone)]
pub struct HeatmapData {
    /// Play counts for each hour of the day.
    pub hours: [i64; 24],
    /// The hour with the most plays.
    pub peak_hour: i32,
    /// The play count of the peak hour.
    pub peak_count: i64,
}

/// Date filter options for statistics queries, as the period dropdown
/// offers them.
#[derive(Debug, Clone, Copy, PartialEq, Eq, Structural)]
pub enum DateFilter {
    /// The last seven days.
    Week,
    /// The last calendar month.
    Month,
    /// The last calendar year.
    Year,
    /// No date filter.
    AllTime,
}

impl Default for DateFilter {
    /// No date filter.
    fn default() -> (r: DateFilter)
        ensures
            r == DateFilter::AllTime,
    {
        DateFilter::AllTime
    }
}

/// What a filter's bound strings hold against a given day: the end bound
/// is that day, the start bound its image seven days, one calendar month
/// or twelve back, and no bounds at all for the unfiltered choice.
pub open spec fn spec_filter_bounds(
    f: DateFilter,
    today: Date,
    start: Option<Seq<char>>,
    end: Option<Seq<char>>,
) -> bool {
    match f {
        DateFilter::Week => end == Some(spec_date_sql(today)) && start == (
        match spec_sub_days(today, 7) {
            Some(d) => Some(spec_date_sql(d)),
            None => None,
        }),
        DateFilter::Month => end == Some(spec_date_sql(today)) && start == (
        match spec_sub_months(today, 1) {
            Some(d) => Some(spec_date_sql(d)),
            None => None,
        }),
        DateFilter::Year => end == Some(spec_date_sql(today)) && start == (
        match spec_sub_months(today, 12) {
            Some(d) => Some(spec_date_sql(d)),
            None => None,
        }),
        DateFilter::AllTime => start is None && end is None,
    }
}

impl DateFilter {
    /// The filter as bound strings for the store against a given day.
    pub fn to_date_range_from(self, today: Date) -> (r: (Option<String>, Option<String>))
        requires
            spec_valid_date(today),
        ensures
            spec_filter_bounds(self, today, spec_opt_str_view(r.0), spec_opt_str_view(r.1)),
    {
        match self {
            DateFilter::Week => {
                let start = match today.sub_days(7) {
                    Some(d) => Some(format_date_sql(&d)),
                    None => None,
                };
                (start, Some(format_date_sql(&today)))
            },
            DateFilter::Month => {
                let start = match today.sub_months(1) {
                    Some(d) => Some(format_date_sql(&d)),
                    None => None,
                };
                (start, Some(format_date_sql(&today)))
            },
            DateFilter::Year => {
                let start = match today.sub_months(12) {
                    Some(d) => Some(format_date_sql(&d)),
                    None => None,
                };
                (start, Some(format_date_sql(&today)))
            },
            DateFilter::AllTime => (None, None),
        }
    }

    /// The filter as bound strings for the store: the bounds of
    /// [`DateFilter::to_date_range_from`] against today's date, whatever
    /// the clock read.
    pub fn to_date_range(self) -> (r: (Option<String>, Option<String>))
        ensures
            exists|today: Date|
                spec_valid_date(today) && #[trigger] spec_filter_bounds(
                    self,
                    today,
                    spec_opt_str_view(r.0),
                    spec_opt_str_view(r.1),
                ),
    {
        let today = local_today();
        let r = self.to_date_range_from(today);
        proof {
            assert(spec_filter_bounds(
                self,
                today,
                spec_opt_str_view(r.0),
                spec_opt_str_view(r.1),
            ));
        }
        r
    }

    /// The filter's display name.
    pub fn display_name(self) -> (r: &'static str)
        ensures
            self is Week ==> r@ == "Past Week"@,
            self is Month ==> r@ == "Past Month"@,
            self is Year ==> r@ == "Past Year"@,
            self is AllTime ==> r@ == "All Time"@,
    {
        match self {
            DateFilter::Week => "Past Week",
            DateFilter::Month => "Past Month",
            DateFilter::Year => "Past Year",
            DateFilter::AllTime => "All Time",
        }
    }

    /// All filter options, in display order.
    pub fn all() -> (r: Vec<DateFilter>)
        ensures
            r@ == seq![DateFilter::Week, DateFilter::Month, DateFilter::Year, DateFilter::AllTime],
    {
        let mut v: Vec<DateFilter> = Vec::new();
        v.push(DateFilter::Week);
        v.push(DateFilter::Month);
        v.push(DateFilter::Year);
        v.push(DateFilter::AllTime);
        proof {
            assert(v@ =~= seq![
                DateFilter::Week,
                DateFilter::Month,
                DateFilter::Year,
                DateFilter::AllTime,
            ]);
        }
        v
    }
}

} // verus!
