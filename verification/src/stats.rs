//! Aggregated statistics records and the pure parts of the analytics.
//!
//! The store answers ranking and pattern queries with rows of plain
//! values; the functions here turn those rows into the records the
//! displays take: streaks from the distinct play dates, the hourly
//! heatmap's peak, and the daily contribution totals.

use vstd::prelude::*;

use crate::date_range::format_date_sql;
use crate::date_range::spec_date_sql;
use crate::date_range::spec_prev_day;
use crate::date_range::spec_valid_date;
use crate::date_range::Date;

verus! {

/// Aggregated statistics for an artist.
#[derive(Debug, Clone)]
pub struct ArtistStats {
    /// Artist name.
    pub artist: String,
    /// Number of plays.
    pub play_count: i64,
    /// Total listening time in milliseconds.
    pub total_ms: i64,
}

/// Aggregated statistics for an album.
#[derive(Debug, Clone)]
pub struct AlbumStats {
    /// Album name.
    pub album: String,
    /// Primary artist name, where known.
    pub artist: Option<String>,
    /// Number of plays.
    pub play_count: i64,
    /// Total listening time in milliseconds.
    pub total_ms: i64,
    /// Album art location, where known.
    pub art_url: Option<String>,
}

/// Aggregated statistics for a track.
#[derive(Debug, Clone)]
pub struct TrackStats {
    /// Track title.
    pub title: String,
    /// Artist name, where known.
    pub artist: Option<String>,
    /// Number of plays.
    pub play_count: i64,
    /// Total listening time in milliseconds.
    pub total_ms: i64,
    /// Album art location, where known.
    pub art_url: Option<String>,
}

/// Overview statistics for a period.
#[derive(Debug, Clone)]
pub struct OverviewStats {
    /// Total number of plays.
    pub total_plays: i64,
    /// Total listening time in milliseconds.
    pub total_ms: i64,
    /// Count of distinct artists.
    pub unique_artists: i64,
    /// Count of distinct albums.
    pub unique_albums: i64,
    /// Count of distinct tracks.
    pub unique_tracks: i64,
}

impl Default for OverviewStats {
    /// All counts zero.
    fn default() -> (r: OverviewStats)
        ensures
            r.total_plays == 0 && r.total_ms == 0 && r.unique_artists == 0 && r.unique_albums == 0
                && r.unique_tracks == 0,
    {
        OverviewStats {
            total_plays: 0,
            total_ms: 0,
            unique_artists: 0,
            unique_albums: 0,
            unique_tracks: 0,
        }
    }
}

/// Listening streak information.
#[derive(Debug, Clone)]
pub struct StreakInfo {
    /// Length in days of the streak that reaches today.
    pub current_streak: i32,
    /// Length in days of the longest streak.
    pub longest_streak: i32,
    /// First day of the longest streak, in year-month-day form.
    pub longest_streak_start: Option<String>,
    /// Last day of the longest streak, in year-month-day form.
    pub longest_streak_end: Option<String>,
}

impl Default for StreakInfo {
    /// No streaks.
    fn default() -> (r: StreakInfo)
        ensures
            r.current_streak == 0 && r.longest_streak == 0,
            r.longest_streak_start is None,
            r.longest_streak_end is None,
    {
        StreakInfo {
            current_streak: 0,
            longest_streak: 0,
            longest_streak_start: None,
            longest_streak_end: None,
        }
    }
}

/// Hourly play counts with the peak hour.
#[derive(Debug, Clone)]
pub struct HourlyHeatmap {
    /// Pairs of hour and play count, as the store returned them.
    pub hours: Vec<(i32, i64)>,
    /// The hour with the most plays; zero where there are none.
    pub peak_hour: i32,
    /// The play count of the peak hour; zero where there are none.
    pub peak_count: i64,
}

impl Default for HourlyHeatmap {
    /// No plays.
    fn default() -> (r: HourlyHeatmap)
        ensures
            r.hours@.len() == 0 && r.peak_hour == 0 && r.peak_count == 0,
    {
        HourlyHeatmap { hours: Vec::new(), peak_hour: 0, peak_count: 0 }
    }
}

/// Daily play counts for the contribution graph.
#[derive(Debug, Clone)]
pub struct DailyContribution {
    /// Pairs of day (in year-month-day form) and play count.
    pub days: Vec<(String, i64)>,
    /// The most plays on a single day; zero where there are none.
    pub max_plays: i64,
    /// Total plays over the period.
    pub total_plays: i64,
}

impl Default for DailyContribution {
    /// No plays.
    fn default() -> (r: DailyContribution)
        ensures
            r.days@.len() == 0 && r.max_plays == 0 && r.total_plays == 0,
    {
        DailyContribution { days: Vec::new(), max_plays: 0, total_plays: 0 }
    }
}

/// The scan state of the streak computation: the longest run seen and the
/// run still open.
pub struct StreakScan {
    pub longest_len: int,
    pub longest_start: Date,
    pub longest_end: Date,
    pub run_len: int,
    pub run_start: Date,
    pub run_end: Date,
}

/// One more distinct play date folded into the scan: a day right after
/// the open run extends it, any other day opens a new run; the longest
/// run is kept, the latest one on ties.
pub open spec fn spec_streak_step(sc: StreakScan, d: Date) -> StreakScan {
    let extended = Some(sc.run_end) == spec_prev_day(d);
    let sc2 = if extended {
        StreakScan { run_len: sc.run_len + 1, run_end: d, ..sc }
    } else {
        StreakScan { run_len: 1, run_start: d, run_end: d, ..sc }
    };
    if sc2.run_len >= sc2.longest_len {
        StreakScan {
            longest_len: sc2.run_len,
            longest_start: sc2.run_start,
            longest_end: sc2.run_end,
            ..sc2
        }
    } else {
        sc2
    }
}

/// The whole scan over the dates after the first.
pub open spec fn spec_streak_scan(sc: StreakScan, dates: Seq<Date>) -> StreakScan
    decreases dates.len(),
{
    if dates.len() == 0 {
        sc
    } else {
        spec_streak_scan(spec_streak_step(sc, dates[0]), dates.subrange(1, dates.len() as int))
    }
}

/// The scan opened at the first date.
pub open spec fn spec_streak_init(d: Date) -> StreakScan {
    StreakScan {
        longest_len: 1,
        longest_start: d,
        longest_end: d,
        run_len: 1,
        run_start: d,
        run_end: d,
    }
}

/// The current streak reaches today when its last day is today or
/// yesterday.
pub open spec fn spec_run_is_current(run_end: Date, today: Date) -> bool {
    run_end == today || Some(run_end) == spec_prev_day(today)
}

/// Compute listening streaks from the distinct play dates, in ascending
/// order, against today's date.
///
/// Consecutive dates form a run; the longest run is reported with its
/// bounds, and the final run counts as the current streak when it reaches
/// today or yesterday.
pub fn streaks_from_dates(dates: &Vec<Date>, today: Date) -> (r: StreakInfo)
    requires
        forall|i: int| 0 <= i < dates@.len() ==> spec_valid_date(#[trigger] dates@[i]),
        spec_valid_date(today),
    ensures
        dates@.len() == 0 ==> r.current_streak == 0 && r.longest_streak == 0
            && r.longest_streak_start is None && r.longest_streak_end is None,
        dates@.len() > 0 ==> ({
            let sc = spec_streak_scan(
                spec_streak_init(dates@[0]),
                dates@.subrange(1, dates@.len() as int),
            );
            &&& r.longest_streak == (if sc.longest_len <= i32::MAX {
                sc.longest_len
            } else {
                i32::MAX as int
            })
            &&& (match r.longest_streak_start {
                Some(s) => s@ == spec_date_sql(sc.longest_start),
                None => false,
            })
            &&& (match r.longest_streak_end {
                Some(s) => s@ == spec_date_sql(sc.longest_end),
                None => false,
            })
            &&& r.current_streak == (if spec_run_is_current(sc.run_end, today) {
                if sc.run_len <= i32::MAX {
                    sc.run_len
                } else {
                    i32::MAX as int
                }
            } else {
                0
            })
        }),
{
    if dates.len() == 0 {
        return StreakInfo::default();
    }
    let mut longest_len: usize = 1;
    let mut longest_start: Date = dates[0];
    let mut longest_end: Date = dates[0];
    let mut run_len: usize = 1;
    let mut run_start: Date = dates[0];
    let mut run_end: Date = dates[0];
    let n = dates.len();
    let mut i: usize = 1;
    while i < n
        invariant
            1 <= i <= n,
            n == dates@.len(),
            forall|k: int| 0 <= k < dates@.len() ==> spec_valid_date(#[trigger] dates@[k]),
            1 <= run_len <= i,
            run_len <= longest_len <= i,
            spec_valid_date(run_end),
            (StreakScan {
                longest_len: longest_len as int,
                longest_start,
                longest_end,
                run_len: run_len as int,
                run_start,
                run_end,
            }) == spec_streak_scan(spec_streak_init(dates@[0]), dates@.subrange(1, i as int)),
        decreases n - i,
    {
        let d = dates[i];
        let prev = d.prev_day();
        let extended = match prev {
            Some(p) => run_end == p,
            None => false,
        };
        if extended {
            run_len = run_len + 1;
            run_end = d;
        } else {
            run_len = 1;
            run_start = d;
            run_end = d;
        }
        if run_len >= longest_len {
            longest_len = run_len;
            longest_start = run_start;
            longest_end = run_end;
        }
        proof {
            assert(dates@.subrange(1, i as int + 1) =~= dates@.subrange(1, i as int).push(
                dates@[i as int],
            ));
            lemma_streak_scan_snoc(
                spec_streak_init(dates@[0]),
                dates@.subrange(1, i as int),
                dates@[i as int],
            );
        }
        i = i + 1;
    }
    proof {
        assert(dates@.subrange(1, n as int) =~= dates@.subrange(1, n as int));
    }
    let today_prev = today.prev_day();
    let is_current = run_end == today || (match today_prev {
        Some(p) => run_end == p,
        None => false,
    });
    let current: usize = if is_current {
        run_len
    } else {
        0
    };
    StreakInfo {
        current_streak: clamp_i32(current),
        longest_streak: clamp_i32(longest_len),
        longest_streak_start: Some(format_date_sql(&longest_start)),
        longest_streak_end: Some(format_date_sql(&longest_end)),
    }
}

/// Clamp a count into the 32-bit range.
fn clamp_i32(n: usize) -> (r: i32)
    ensures
        r == (if n <= i32::MAX {
            n as int
        } else {
            i32::MAX as int
        }),
{
    if n <= i32::MAX as usize {
        n as i32
    } else {
        i32::MAX
    }
}

/// The streak scan grows one date at a time.
proof fn lemma_streak_scan_snoc(sc: StreakScan, dates: Seq<Date>, d: Date)
    ensures
        spec_streak_scan(sc, dates.push(d)) == spec_streak_step(spec_streak_scan(sc, dates), d),
    decreases dates.len(),
{
    if dates.len() == 0 {
        assert(dates.push(d)[0] == d);
        assert(dates.push(d).subrange(1, 1) =~= Seq::<Date>::empty());
        assert(spec_streak_scan(spec_streak_step(sc, d), Seq::<Date>::empty()) == spec_streak_step(
            sc,
            d,
        ));
    } else {
        assert(dates.push(d)[0] == dates[0]);
        assert(dates.push(d).subrange(1, dates.len() as int + 1) =~= dates.subrange(
            1,
            dates.len() as int,
        ).push(d));
        lemma_streak_scan_snoc(spec_streak_step(sc, dates[0]), dates.subrange(1, dates.len() as int), d);
    }
}

/// The running maximum of the heatmap scan: the first hour reaching the
/// highest count wins.
pub open spec fn spec_heatmap_peak(rows: Seq<(i32, i64)>, i: int, hour: i32, count: i64) -> (
    i32,
    i64,
)
    decreases rows.len() - i,
{
    if i < 0 || i >= rows.len() {
        (hour, count)
    } else if rows[i].1 > count {
        spec_heatmap_peak(rows, i + 1, rows[i].0, rows[i].1)
    } else {
        spec_heatmap_peak(rows, i + 1, hour, count)
    }
}

/// Build the hourly heatmap from the store's hour and count rows: the
/// rows as given, and the first hour with the highest count as the peak.
pub fn heatmap_from_rows(rows: Vec<(i32, i64)>) -> (r: HourlyHeatmap)
    ensures
        r.hours@ == rows@,
        (r.peak_hour, r.peak_count) == spec_heatmap_peak(rows@, 0, 0, 0),
{
    let mut peak_hour: i32 = 0;
    let mut peak_count: i64 = 0;
    let n = rows.len();
    let mut i: usize = 0;
    while i < n
        invariant
            0 <= i <= n,
            n == rows@.len(),
            spec_heatmap_peak(rows@, 0, 0, 0) == spec_heatmap_peak(
                rows@,
                i as int,
                peak_hour,
                peak_count,
            ),
        decreases n - i,
    {
        if rows[i].1 > peak_count {
            peak_count = rows[i].1;
            peak_hour = rows[i].0;
        }
        i = i + 1;
    }
    HourlyHeatmap { hours: rows, peak_hour, peak_count }
}

/// The contribution totals of the scan from position `i`: the largest
/// single-day count and the saturating sum of all counts.
pub open spec fn spec_contrib_totals(rows: Seq<(Seq<char>, i64)>, i: int, mx: i64, total: i64) -> (
    i64,
    i64,
)
    decreases rows.len() - i,
{
    if i < 0 || i >= rows.len() {
        (mx, total)
    } else {
        let mx2 = if rows[i].1 > mx {
            rows[i].1
        } else {
            mx
        };
        let t2 = if total + rows[i].1 > i64::MAX {
            i64::MAX
        } else if total + rows[i].1 < i64::MIN {
            i64::MIN
        } else {
            (total + rows[i].1) as i64
        };
        spec_contrib_totals(rows, i + 1, mx2, t2)
    }
}

/// The view of day rows: each day string as its characters.
pub open spec fn spec_day_rows(rows: Seq<(String, i64)>) -> Seq<(Seq<char>, i64)> {
    Seq::new(rows.len(), |i: int| (rows[i].0@, rows[i].1))
}

/// Build the daily contribution record from the store's day and count
/// rows: the rows as given, the largest single-day count, and the total,
/// saturating at the integer range.
pub fn contributions_from_rows(rows: Vec<(String, i64)>) -> (r: DailyContribution)
    ensures
        r.days@ == rows@,
        (r.max_plays, r.total_plays) == spec_contrib_totals(spec_day_rows(rows@), 0, 0, 0),
{
    let mut max_plays: i64 = 0;
    let mut total_plays: i64 = 0;
    let n = rows.len();
    let mut i: usize = 0;
    while i < n
        invariant
            0 <= i <= n,
            n == rows@.len(),
            spec_contrib_totals(spec_day_rows(rows@), 0, 0, 0) == spec_contrib_totals(
                spec_day_rows(rows@),
                i as int,
                max_plays,
                total_plays,
            ),
        decreases n - i,
    {
        if rows[i].1 > max_plays {
            max_plays = rows[i].1;
        }
        total_plays = match total_plays.checked_add(rows[i].1) {
            Some(t) => t,
            None => {
                if rows[i].1 > 0 {
                    i64::MAX
                } else {
                    i64::MIN
                }
            },
        };
        i = i + 1;
    }
    DailyContribution { days: rows, max_plays, total_plays }
}

} // verus!
