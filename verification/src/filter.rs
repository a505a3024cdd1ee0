//! Query filters for the store's parameterized statements.
//!
//! The filter appends its clauses to a query under construction and its
//! bound values to the parameter list; the store runs the result.

use vstd::prelude::*;
use vstd::string::StringExecFns;

verus! {

/// A date range filter over the play log's timestamps.
#[derive(Debug, Clone)]
pub struct DateFilter<'a> {
    /// Lower bound, inclusive, as a date or date-time string.
    pub start: Option<&'a str>,
    /// Upper bound, inclusive, as a date or date-time string.
    pub end: Option<&'a str>,
}

/// The clause text a filter appends: one comparison per present bound,
/// converting the stored timestamps to local time.
pub open spec fn spec_filter_clauses(
    start: Option<&str>,
    end: Option<&str>,
) -> Seq<char> {
    (match start {
        Some(_) => " AND datetime(timestamp, 'localtime') >= ?"@,
        None => Seq::<char>::empty(),
    }) + (match end {
        Some(_) => " AND datetime(timestamp, 'localtime') <= ?"@,
        None => Seq::<char>::empty(),
    })
}

/// The bound values a filter appends, in clause order.
pub open spec fn spec_filter_params(start: Option<&str>, end: Option<&str>) -> Seq<Seq<char>> {
    (match start {
        Some(s) => seq![s@],
        None => Seq::<Seq<char>>::empty(),
    }) + (match end {
        Some(s) => seq![s@],
        None => Seq::<Seq<char>>::empty(),
    })
}

impl<'a> DateFilter<'a> {
    /// A filter with the given bounds.
    pub fn new(start: Option<&'a str>, end: Option<&'a str>) -> (r: DateFilter<'a>)
        ensures
            r.start == start,
            r.end == end,
    {
        DateFilter { start, end }
    }

    /// Append the filter's clauses to a query and its bound values to the
    /// parameter list.
    pub fn apply(&self, query: &mut String, params: &mut Vec<String>)
        ensures
            final(query)@ == old(query)@ + spec_filter_clauses(self.start, self.end),
            final(params).deep_view() == old(params).deep_view() + spec_filter_params(
                self.start,
                self.end,
            ),
    {
        let ghost q0 = query@;
        let ghost p0 = params.deep_view();
        if let Some(start) = self.start {
            query.append(" AND datetime(timestamp, 'localtime') >= ?");
            params.push(start.to_owned());
        }
        if let Some(end) = self.end {
            query.append(" AND datetime(timestamp, 'localtime') <= ?");
            params.push(end.to_owned());
        }
        proof {
            assert(query@ =~= q0 + spec_filter_clauses(self.start, self.end));
            assert(params.deep_view() =~= p0 + spec_filter_params(self.start, self.end));
        }
    }
}

} // verus!
