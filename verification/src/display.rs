//! Formatting of statistics for terminal output.
//!
//! Everything here builds plain strings; the surrounding process prints
//! them.  Ranked lists of artists, albums and tracks share one layout
//! through the [`DisplayableItem`] trait.

use vstd::prelude::*;
use vstd::string::StrSliceExecFns;
use vstd::string::StringExecFns;

use crate::date_range::from_cli_flags;
use crate::strutil::fmt_u64;
use crate::strutil::repeat_char;
use crate::stats::AlbumStats;
use crate::stats::ArtistStats;
use crate::stats::TrackStats;

verus! {

/// What a truncated string holds: the string itself where it fits, its
/// head where there is no room for an ellipsis, and a shortened head with
/// an ellipsis otherwise.
pub open spec fn spec_truncate(s: Seq<char>, max_len: int) -> Seq<char> {
    if s.len() <= max_len {
        s
    } else if max_len < 3 {
        s.subrange(0, max_len)
    } else {
        s.subrange(0, max_len - 3) + "..."@
    }
}

/// Truncate a string to a maximum number of characters, appending an
/// ellipsis where something was cut and there is room for one.
pub fn truncate(s: &str, max_len: usize) -> (r: String)
    ensures
        r@ == spec_truncate(s@, max_len as int),
{
    let n = s.unicode_len();
    if n <= max_len {
        s.to_owned()
    } else if max_len < 3 {
        s.substring_char(0, max_len).to_owned()
    } else {
        let mut out = s.substring_char(0, max_len - 3).to_owned();
        out.append("...");
        out
    }
}

/// What a bar holds: filled blocks in proportion to the value, then light
/// blocks up to the width; all spaces where the value or the maximum is
/// not positive.
pub open spec fn spec_make_bar(value: int, max_value: int, width: int) -> Seq<char> {
    if max_value <= 0 || value <= 0 {
        Seq::new(width as nat, |i: int| ' ')
    } else {
        let filled = if value >= max_value {
            width
        } else if value * width / max_value < width {
            value * width / max_value
        } else {
            width
        };
        Seq::new(filled as nat, |i: int| '\u{2588}') + Seq::new(
            (width - filled) as nat,
            |i: int| '\u{2591}',
        )
    }
}

/// Build a proportional bar of the given width.
pub fn make_bar(value: i64, max_value: i64, width: usize) -> (r: String)
    ensures
        r@ == spec_make_bar(value as int, max_value as int, width as int),
{
    if max_value <= 0 || value <= 0 {
        return repeat_char(' ', width);
    }
    let filled: usize = if value >= max_value {
        width
    } else {
        proof {
            assert((value as int) * (width as int) <= 0x8000000000000000int
                * 0x10000000000000000int) by (nonlinear_arith)
                requires
                    0 < value <= 0x8000000000000000int,
                    0 <= width <= 0x10000000000000000int,
            ;
            assert((value as int) * (width as int) >= 0) by (nonlinear_arith)
                requires
                    0 < value,
                    0 <= width,
            ;
        }
        let f = (value as u128) * (width as u128) / (max_value as u128);
        if f < width as u128 {
            f as usize
        } else {
            width
        }
    };
    let mut out = repeat_char('\u{2588}', filled);
    out.append(repeat_char('\u{2591}', width - filled).as_str());
    proof {
        assert(out@ =~= spec_make_bar(value as int, max_value as int, width as int));
    }
    out
}

/// A string padded on the right with spaces to at least the given width.
pub open spec fn spec_pad_right(s: Seq<char>, width: int) -> Seq<char> {
    if s.len() >= width {
        s
    } else {
        s + Seq::new((width - s.len()) as nat, |i: int| ' ')
    }
}

/// A string padded on the left with spaces to at least the given width.
pub open spec fn spec_pad_left(s: Seq<char>, width: int) -> Seq<char> {
    if s.len() >= width {
        s
    } else {
        Seq::new((width - s.len()) as nat, |i: int| ' ') + s
    }
}

/// Pad a string on the right with spaces to at least the given width.
pub fn pad_right(s: String, width: usize) -> (r: String)
    ensures
        r@ == spec_pad_right(s@, width as int),
{
    let n = s.as_str().unicode_len();
    if n >= width {
        s
    } else {
        let mut out = s;
        out.append(repeat_char(' ', width - n).as_str());
        out
    }
}

/// Pad a string on the left with spaces to at least the given width.
pub fn pad_left(s: String, width: usize) -> (r: String)
    ensures
        r@ == spec_pad_left(s@, width as int),
{
    let n = s.as_str().unicode_len();
    if n >= width {
        s
    } else {
        let mut out = repeat_char(' ', width - n);
        out.append(s.as_str());
        out
    }
}

/// Milliseconds as hours with one decimal digit, rounded to the nearest
/// tenth; a negative total renders as zero.
pub open spec fn spec_hours_tenths(ms: int) -> Seq<char> {
    if ms <= 0 {
        "0.0"@
    } else {
        let tenths = (ms + 180000) / 360000;
        crate::strutil::spec_nat_str(tenths / 10) + seq!['.'] + seq![
            crate::strutil::spec_digit(tenths % 10),
        ]
    }
}

/// Format milliseconds as hours with one decimal digit.
pub fn hours_tenths(ms: i64) -> (r: String)
    ensures
        r@ == spec_hours_tenths(ms as int),
{
    if ms <= 0 {
        let out = "0.0".to_owned();
        proof {
            reveal_strlit("0.0");
        }
        out
    } else {
        let tenths: u64 = ((ms as u64) + 180000) / 360000;
        let mut out = fmt_u64(tenths / 10);
        let frac = fmt_u64(tenths % 10);
        out.append(".");
        out.append(frac.as_str());
        proof {
            reveal_strlit(".");
            assert(crate::strutil::spec_nat_str(tenths as int % 10) =~= seq![
                crate::strutil::spec_digit(tenths as int % 10),
            ]);
            assert(out@ =~= spec_hours_tenths(ms as int));
        }
        out
    }
}

/// An item of a ranked list: artists, albums and tracks share this shape.
pub trait DisplayableItem {
    /// The primary display name.
    fn display_name(&self) -> &str;

    /// A secondary name, such as the artist of an album or track.
    fn secondary_name(&self) -> Option<&str>;

    /// The separator between primary and secondary names.
    fn name_separator(&self) -> &str;

    /// The number of plays.
    fn play_count(&self) -> i64;

    /// The total listening time in milliseconds.
    fn total_ms(&self) -> i64;

    /// The last-played timestamp, where the query supplied one.
    fn last_played(&self) -> Option<&str>;

    /// The width of the primary name column.
    fn name_width(&self) -> usize;
}

impl DisplayableItem for ArtistStats {
    fn display_name(&self) -> &str {
        self.artist.as_str()
    }

    fn secondary_name(&self) -> Option<&str> {
        None
    }

    fn name_separator(&self) -> &str {
        " - "
    }

    fn play_count(&self) -> i64 {
        self.play_count
    }

    fn total_ms(&self) -> i64 {
        self.total_ms
    }

    fn last_played(&self) -> Option<&str> {
        None
    }

    fn name_width(&self) -> usize {
        30
    }
}

impl DisplayableItem for AlbumStats {
    fn display_name(&self) -> &str {
        self.album.as_str()
    }

    fn secondary_name(&self) -> Option<&str> {
        match &self.artist {
            Some(a) => Some(a.as_str()),
            None => None,
        }
    }

    fn name_separator(&self) -> &str {
        " by "
    }

    fn play_count(&self) -> i64 {
        self.play_count
    }

    fn total_ms(&self) -> i64 {
        self.total_ms
    }

    fn last_played(&self) -> Option<&str> {
        None
    }

    fn name_width(&self) -> usize {
        25
    }
}

impl DisplayableItem for TrackStats {
    fn display_name(&self) -> &str {
        self.title.as_str()
    }

    fn secondary_name(&self) -> Option<&str> {
        match &self.artist {
            Some(a) => Some(a.as_str()),
            None => None,
        }
    }

    fn name_separator(&self) -> &str {
        " - "
    }

    fn play_count(&self) -> i64 {
        self.play_count
    }

    fn total_ms(&self) -> i64 {
        self.total_ms
    }

    fn last_played(&self) -> Option<&str> {
        None
    }

    fn name_width(&self) -> usize {
        25
    }
}

/// Format one line of a ranked list.
fn format_item_line<T: DisplayableItem>(
    item: &T,
    index: usize,
    max_plays: i64,
    show_bar: bool,
    bar_width: usize,
) -> (r: String)
    requires
        index < usize::MAX,
{
    let name_width = item.name_width();
    let mut line = "  ".to_owned();
    line.append(pad_left(fmt_u64((index as u64) + 1), 2).as_str());
    line.append(". ");
    line.append(pad_right(truncate(item.display_name(), name_width), name_width).as_str());
    match item.secondary_name() {
        Some(secondary) => {
            line.append(item.name_separator());
            line.append(pad_right(truncate(secondary, 15), 15).as_str());
            if show_bar {
                line.append(" ");
                line.append(make_bar(item.play_count(), max_plays, bar_width).as_str());
                line.append(" ");
                line.append(pad_left(crate::strutil::fmt_i64(item.play_count()), 3).as_str());
            } else {
                line.append(" ");
                line.append(pad_left(crate::strutil::fmt_i64(item.play_count()), 3).as_str());
                line.append(" plays (");
                line.append(hours_tenths(item.total_ms()).as_str());
                line.append("h)");
            }
        },
        None => {
            if show_bar {
                line.append(" ");
                line.append(make_bar(item.play_count(), max_plays, bar_width).as_str());
            }
            line.append(" ");
            line.append(pad_left(crate::strutil::fmt_i64(item.play_count()), 4).as_str());
            line.append(" plays (");
            line.append(hours_tenths(item.total_ms()).as_str());
            line.append("h)");
        },
    }
    match item.last_played() {
        Some(last) => {
            line.append("  (last: ");
            line.append(last);
            line.append(")");
        },
        None => {},
    }
    line
}

/// Format a ranked list: one line per item, in order.
pub fn display_top_items<T: DisplayableItem>(
    items: &Vec<T>,
    show_bar: bool,
    bar_width: usize,
) -> (r: Vec<String>)
    ensures
        r@.len() == items@.len(),
{
    let max_plays: i64 = if items.len() > 0 {
        items[0].play_count()
    } else {
        1
    };
    let mut lines: Vec<String> = Vec::new();
    let n = items.len();
    let mut i: usize = 0;
    while i < n
        invariant
            0 <= i <= n,
            n == items@.len(),
            lines@.len() == i,
        decreases n - i,
    {
        let line = format_item_line(&items[i], i, max_plays, show_bar, bar_width);
        lines.push(line);
        i = i + 1;
    }
    lines
}

/// Format the top artists list.
pub fn display_top_artists(artists: &Vec<ArtistStats>, show_bar: bool) -> (r: Vec<String>)
    ensures
        r@.len() == artists@.len(),
{
    display_top_items(artists, show_bar, 20)
}

/// Format the top albums list.
pub fn display_top_albums(albums: &Vec<AlbumStats>, show_bar: bool) -> (r: Vec<String>)
    ensures
        r@.len() == albums@.len(),
{
    display_top_items(albums, show_bar, 15)
}

/// Format the top tracks list.
pub fn display_top_tracks(tracks: &Vec<TrackStats>, show_bar: bool) -> (r: Vec<String>)
    ensures
        r@.len() == tracks@.len(),
{
    display_top_items(tracks, show_bar, 15)
}

/// Build a date range from command-line flags as bound strings and a
/// period name, the shape the query layer takes.
pub fn build_date_range(all_time: bool, week: bool, month: bool, year: Option<i32>) -> (r: (
    Option<String>,
    Option<String>,
    String,
))
    ensures
        all_time ==> r.0 is None && r.1 is None && r.2@ == "All Time"@,
        !all_time && week ==> r.2@ == "Last 7 Days"@,
{
    let range = from_cli_flags(all_time, week, month, year);
    let (start, end) = range.to_sql_tuple();
    (start, end, range.display_name)
}

} // verus!
