//! Parsing of player metadata maps into [`Track`] records.
//!
//! A player publishes its metadata as a map from well-known keys to
//! loosely-typed variant values.  [`MetaValue`] models exactly what the
//! parser reads of such a value: a string, a string array, an integer of
//! one of the widths the bus carries, or a fractional value in thousandths.
//! The parser walks the entries in order, recognises the known keys, and
//! tolerates values of the wrong shape by leaving the field absent; it
//! never fails.
//!
//! [`track_to_metadata`] writes a track back out as such a map, and the
//! round-trip law at the end of the module shows that parsing what it wrote
//! recovers every field.

use vstd::prelude::*;
use vstd::string::StringExecFns;

use crate::strutil::str_eq;
use crate::track::spec_empty_track_view;
use crate::track::spec_opt_str_view;
use crate::track::Track;
use crate::track::TrackView;

verus! {

/// A loosely-typed metadata value, as far as the parser reads it.
#[derive(Debug, Clone)]
pub enum MetaValue {
    /// A string value.
    Str(String),
    /// An array of strings.
    StrList(Vec<String>),
    /// A signed 64-bit integer.
    I64(i64),
    /// A signed 32-bit integer.
    I32(i32),
    /// An unsigned 64-bit integer.
    U64(u64),
    /// An unsigned 32-bit integer.
    U32(u32),
    /// A signed 16-bit integer.
    I16(i16),
    /// An unsigned 16-bit integer.
    U16(u16),
    /// A fractional value, carried in thousandths.
    Milli(i64),
}

/// The specification-level image of a [`MetaValue`].
pub enum MetaValueView {
    Str(Seq<char>),
    StrList(Seq<Seq<char>>),
    I64(i64),
    I32(i32),
    U64(u64),
    U32(u32),
    I16(i16),
    U16(u16),
    Milli(i64),
}

impl View for MetaValue {
    type V = MetaValueView;

    open spec fn view(&self) -> MetaValueView {
        match self {
            MetaValue::Str(s) => MetaValueView::Str(s@),
            MetaValue::StrList(v) => MetaValueView::StrList(v.deep_view()),
            MetaValue::I64(x) => MetaValueView::I64(*x),
            MetaValue::I32(x) => MetaValueView::I32(*x),
            MetaValue::U64(x) => MetaValueView::U64(*x),
            MetaValue::U32(x) => MetaValueView::U32(*x),
            MetaValue::I16(x) => MetaValueView::I16(*x),
            MetaValue::U16(x) => MetaValueView::U16(*x),
            MetaValue::Milli(x) => MetaValueView::Milli(*x),
        }
    }
}

/// A string extracted from a variant: only a string value yields one.
pub open spec fn spec_extract_string(v: MetaValueView) -> Option<Seq<char>> {
    match v {
        MetaValueView::Str(s) => Some(s),
        _ => None,
    }
}

/// A string array extracted from a variant: only a non-empty array yields
/// one.
pub open spec fn spec_extract_string_array(v: MetaValueView) -> Option<Seq<Seq<char>>> {
    match v {
        MetaValueView::StrList(a) => if a.len() > 0 {
            Some(a)
        } else {
            None
        },
        _ => None,
    }
}

/// A signed 64-bit integer extracted from a variant, accepting any integer
/// width whose value fits.
pub open spec fn spec_extract_i64(v: MetaValueView) -> Option<i64> {
    match v {
        MetaValueView::I64(x) => Some(x),
        MetaValueView::I32(x) => Some(x as i64),
        MetaValueView::U64(x) => if x <= i64::MAX {
            Some(x as i64)
        } else {
            None
        },
        MetaValueView::U32(x) => Some(x as i64),
        MetaValueView::I16(x) => Some(x as i64),
        MetaValueView::U16(x) => Some(x as i64),
        _ => None,
    }
}

/// A signed 32-bit integer extracted from a variant, accepting any integer
/// width whose value fits.
pub open spec fn spec_extract_i32(v: MetaValueView) -> Option<i32> {
    match v {
        MetaValueView::I32(x) => Some(x),
        MetaValueView::I64(x) => if i32::MIN <= x <= i32::MAX {
            Some(x as i32)
        } else {
            None
        },
        MetaValueView::U32(x) => if x <= i32::MAX {
            Some(x as i32)
        } else {
            None
        },
        MetaValueView::I16(x) => Some(x as i32),
        MetaValueView::U16(x) => Some(x as i32),
        _ => None,
    }
}

/// A fractional value in thousandths extracted from a variant.
pub open spec fn spec_extract_milli(v: MetaValueView) -> Option<i64> {
    match v {
        MetaValueView::Milli(x) => Some(x),
        _ => None,
    }
}

/// The strings of a sequence joined with a separator.
pub open spec fn spec_join(a: Seq<Seq<char>>, sep: Seq<char>) -> Seq<char>
    decreases a.len(),
{
    if a.len() == 0 {
        Seq::empty()
    } else if a.len() == 1 {
        a[0]
    } else {
        a[0] + sep + spec_join(a.subrange(1, a.len() as int), sep)
    }
}

/// The first element of a string array, or the value itself where it is a
/// single string.
pub open spec fn spec_first_or_string(v: MetaValueView) -> Option<Seq<char>> {
    match spec_extract_string_array(v) {
        Some(a) => Some(a[0]),
        None => spec_extract_string(v),
    }
}

/// The elements of a string array joined with a separator, or the value
/// itself where it is a single string.
pub open spec fn spec_or_join(v: MetaValueView, sep: Seq<char>) -> Option<Seq<char>> {
    match spec_extract_string_array(v) {
        Some(a) => Some(spec_join(a, sep)),
        None => spec_extract_string(v),
    }
}

/// One metadata entry applied to a track under construction: where the key
/// is known, the matching field is set from the value; an unknown key
/// changes nothing.
pub open spec fn spec_apply_entry(acc: TrackView, k: Seq<char>, v: MetaValueView) -> TrackView {
    if k == "xesam:title"@ {
        TrackView { title: spec_extract_string(v), ..acc }
    } else if k == "xesam:artist"@ {
        TrackView { artist: spec_first_or_string(v), ..acc }
    } else if k == "xesam:album"@ {
        TrackView { album: spec_extract_string(v), ..acc }
    } else if k == "mpris:length"@ {
        TrackView { duration_us: spec_extract_i64(v), ..acc }
    } else if k == "xesam:url"@ {
        TrackView { file_path: spec_extract_string(v), ..acc }
    } else if k == "xesam:genre"@ {
        TrackView { genre: spec_or_join(v, ", "@), ..acc }
    } else if k == "xesam:albumArtist"@ {
        TrackView { album_artist: spec_first_or_string(v), ..acc }
    } else if k == "xesam:trackNumber"@ {
        TrackView { track_number: spec_extract_i32(v), ..acc }
    } else if k == "xesam:discNumber"@ {
        TrackView { disc_number: spec_extract_i32(v), ..acc }
    } else if k == "xesam:contentCreated"@ {
        TrackView { release_date: spec_extract_string(v), ..acc }
    } else if k == "mpris:artUrl"@ {
        TrackView { art_url: spec_extract_string(v), ..acc }
    } else if k == "xesam:userRating"@ {
        TrackView { user_rating_milli: spec_extract_milli(v), ..acc }
    } else if k == "xesam:audioBPM"@ {
        TrackView { bpm: spec_extract_i32(v), ..acc }
    } else if k == "xesam:composer"@ {
        TrackView { composer: spec_or_join(v, ", "@), ..acc }
    } else if k == "xesam:musicBrainzTrackID"@ {
        TrackView { musicbrainz_track_id: spec_extract_string(v), ..acc }
    } else {
        acc
    }
}

/// A whole metadata map applied to a track under construction, entry by
/// entry in order.
pub open spec fn spec_parse_fold(
    m: Seq<(Seq<char>, MetaValueView)>,
    acc: TrackView,
) -> TrackView
    decreases m.len(),
{
    if m.len() == 0 {
        acc
    } else {
        spec_parse_fold(m.subrange(1, m.len() as int), spec_apply_entry(acc, m[0].0, m[0].1))
    }
}

/// What parsing a metadata map yields: the empty track with every
/// recognised entry applied in order.
pub open spec fn spec_parse(m: Seq<(Seq<char>, MetaValueView)>) -> TrackView {
    spec_parse_fold(m, spec_empty_track_view())
}

/// The view of a metadata map: each entry as its key's characters and its
/// value's image.
pub open spec fn spec_entries(m: Seq<(String, MetaValue)>) -> Seq<(Seq<char>, MetaValueView)> {
    Seq::new(m.len(), |i: int| (m[i].0@, m[i].1@))
}

/// Extract a string from a variant value.
pub fn extract_string(value: &MetaValue) -> (r: Option<String>)
    ensures
        spec_opt_str_view(r) == spec_extract_string(value@),
{
    match value {
        MetaValue::Str(s) => Some(s.clone()),
        _ => None,
    }
}

/// Extract a string array from a variant value.
pub fn extract_string_array(value: &MetaValue) -> (r: Option<Vec<String>>)
    ensures
        match r {
            Some(a) => spec_extract_string_array(value@) == Some(a.deep_view()),
            None => spec_extract_string_array(value@) is None,
        },
{
    match value {
        MetaValue::StrList(a) => {
            if a.len() > 0 {
                let mut out: Vec<String> = Vec::new();
                let n = a.len();
                let mut i: usize = 0;
                while i < n
                    invariant
                        0 <= i <= n,
                        n == a.len(),
                        out.len() == i,
                        forall|j: int| 0 <= j < i ==> out.deep_view()[j] == a.deep_view()[j],
                    decreases n - i,
                {
                    out.push(a[i].clone());
                    proof {
                        assert(out.deep_view()[i as int] == a.deep_view()[i as int]);
                    }
                    i = i + 1;
                }
                proof {
                    assert(out.deep_view() =~= a.deep_view());
                }
                Some(out)
            } else {
                None
            }
        },
        _ => None,
    }
}

/// Extract a signed 64-bit integer from a variant value.
pub fn extract_i64(value: &MetaValue) -> (r: Option<i64>)
    ensures
        r == spec_extract_i64(value@),
{
    match value {
        MetaValue::I64(x) => Some(*x),
        MetaValue::I32(x) => Some(*x as i64),
        MetaValue::U64(x) => {
            if *x <= i64::MAX as u64 {
                Some(*x as i64)
            } else {
                None
            }
        },
        MetaValue::U32(x) => Some(*x as i64),
        MetaValue::I16(x) => Some(*x as i64),
        MetaValue::U16(x) => Some(*x as i64),
        _ => None,
    }
}

/// Extract a signed 32-bit integer from a variant value.
pub fn extract_i32(value: &MetaValue) -> (r: Option<i32>)
    ensures
        r == spec_extract_i32(value@),
{
    match value {
        MetaValue::I32(x) => Some(*x),
        MetaValue::I64(x) => {
            if i32::MIN as i64 <= *x && *x <= i32::MAX as i64 {
                Some(*x as i32)
            } else {
                None
            }
        },
        MetaValue::U32(x) => {
            if *x <= i32::MAX as u32 {
                Some(*x as i32)
            } else {
                None
            }
        },
        MetaValue::I16(x) => Some(*x as i32),
        MetaValue::U16(x) => Some(*x as i32),
        _ => None,
    }
}

/// Extract a fractional value in thousandths from a variant value.
pub fn extract_milli(value: &MetaValue) -> (r: Option<i64>)
    ensures
        r == spec_extract_milli(value@),
{
    match value {
        MetaValue::Milli(x) => Some(*x),
        _ => None,
    }
}

/// The strings joined with a separator grow one string at a time.
proof fn lemma_join_snoc(a: Seq<Seq<char>>, x: Seq<char>, sep: Seq<char>)
    ensures
        spec_join(a.push(x), sep) == if a.len() == 0 {
            x
        } else {
            spec_join(a, sep) + sep + x
        },
    decreases a.len(),
{
    if a.len() == 0 {
        assert(a.push(x).len() == 1);
        assert(a.push(x)[0] == x);
    } else if a.len() == 1 {
        assert(a.push(x).subrange(1, 2) =~= seq![x]);
        assert(spec_join(a.push(x), sep) == a[0] + sep + spec_join(seq![x], sep));
    } else {
        assert(a.push(x).subrange(1, a.len() as int + 1) =~= a.subrange(1, a.len() as int).push(x));
        lemma_join_snoc(a.subrange(1, a.len() as int), x, sep);
    }
}

/// Join the strings of an array with a separator.
fn join_strings(a: &Vec<String>, sep: &str) -> (r: String)
    ensures
        r@ == spec_join(a.deep_view(), sep@),
{
    let mut out = String::new();
    let n = a.len();
    let mut i: usize = 0;
    while i < n
        invariant
            0 <= i <= n,
            n == a.len(),
            out@ == spec_join(a.deep_view().subrange(0, i as int), sep@),
        decreases n - i,
    {
        if i > 0 {
            out.append(sep);
        }
        out.append(a[i].as_str());
        proof {
            let prefix = a.deep_view().subrange(0, i as int);
            assert(a.deep_view().subrange(0, i + 1) =~= prefix.push(a.deep_view()[i as int]));
            lemma_join_snoc(prefix, a.deep_view()[i as int], sep@);
        }
        i = i + 1;
    }
    proof {
        assert(a.deep_view().subrange(0, n as int) =~= a.deep_view());
    }
    out
}

/// Extract a string array joined with a separator, falling back to a
/// single string.
pub fn extract_or_join_array(value: &MetaValue, separator: &str) -> (r: Option<String>)
    ensures
        spec_opt_str_view(r) == spec_or_join(value@, separator@),
{
    if let Some(arr) = extract_string_array(value) {
        Some(join_strings(&arr, separator))
    } else {
        extract_string(value)
    }
}

/// Extract the first element of a string array, falling back to a single
/// string.
pub fn extract_first_or_string(value: &MetaValue) -> (r: Option<String>)
    ensures
        spec_opt_str_view(r) == spec_first_or_string(value@),
{
    match extract_string_array(value) {
        Some(arr) => {
            proof {
                assert(arr.deep_view()[0] == arr@[0]@);
            }
            Some(arr[0].clone())
        },
        None => extract_string(value),
    }
}

/// Apply one metadata entry to a track under construction.
fn apply_meta_entry(track: &mut Track, key: &str, value: &MetaValue)
    ensures
        final(track)@ == spec_apply_entry(old(track)@, key@, value@),
{
    if str_eq(key, "xesam:title") {
        track.title = extract_string(value);
    } else if str_eq(key, "xesam:artist") {
        track.artist = extract_first_or_string(value);
    } else if str_eq(key, "xesam:album") {
        track.album = extract_string(value);
    } else if str_eq(key, "mpris:length") {
        track.duration_us = extract_i64(value);
    } else if str_eq(key, "xesam:url") {
        track.file_path = extract_string(value);
    } else if str_eq(key, "xesam:genre") {
        track.genre = extract_or_join_array(value, ", ");
    } else if str_eq(key, "xesam:albumArtist") {
        track.album_artist = extract_first_or_string(value);
    } else if str_eq(key, "xesam:trackNumber") {
        track.track_number = extract_i32(value);
    } else if str_eq(key, "xesam:discNumber") {
        track.disc_number = extract_i32(value);
    } else if str_eq(key, "xesam:contentCreated") {
        track.release_date = extract_string(value);
    } else if str_eq(key, "mpris:artUrl") {
        track.art_url = extract_string(value);
    } else if str_eq(key, "xesam:userRating") {
        track.user_rating_milli = extract_milli(value);
    } else if str_eq(key, "xesam:audioBPM") {
        track.bpm = extract_i32(value);
    } else if str_eq(key, "xesam:composer") {
        track.composer = extract_or_join_array(value, ", ");
    } else if str_eq(key, "xesam:musicBrainzTrackID") {
        track.musicbrainz_track_id = extract_string(value);
    }
}

/// The fold over a map grows one entry at a time.
proof fn lemma_fold_snoc(
    m: Seq<(Seq<char>, MetaValueView)>,
    e: (Seq<char>, MetaValueView),
    acc: TrackView,
)
    ensures
        spec_parse_fold(m.push(e), acc) == spec_apply_entry(spec_parse_fold(m, acc), e.0, e.1),
    decreases m.len(),
{
    if m.len() == 0 {
        assert(m.push(e)[0] == e);
        assert(m.push(e).subrange(1, 1) =~= Seq::<(Seq<char>, MetaValueView)>::empty());
        assert(spec_parse_fold(
            Seq::<(Seq<char>, MetaValueView)>::empty(),
            spec_apply_entry(acc, e.0, e.1),
        ) == spec_apply_entry(acc, e.0, e.1));
        assert(spec_parse_fold(m.push(e), acc) == spec_apply_entry(acc, e.0, e.1));
    } else {
        assert(m.push(e)[0] == m[0]);
        assert(m.push(e).subrange(1, m.len() as int + 1) =~= m.subrange(1, m.len() as int).push(e));
        lemma_fold_snoc(m.subrange(1, m.len() as int), e, spec_apply_entry(acc, m[0].0, m[0].1));
    }
}

/// Parse a metadata map into a track.
///
/// The parser recognises the known keys, tolerates values of the wrong
/// shape by leaving the field absent, ignores unknown keys, and never
/// fails.  It is a pure function of the map.
pub fn parse_metadata(metadata: &Vec<(String, MetaValue)>) -> (t: Track)
    ensures
        t@ == spec_parse(spec_entries(metadata@)),
{
    let mut track = Track::default();
    let n = metadata.len();
    let mut i: usize = 0;
    while i < n
        invariant
            0 <= i <= n,
            n == metadata.len(),
            track@ == spec_parse_fold(
                spec_entries(metadata@).subrange(0, i as int),
                spec_empty_track_view(),
            ),
        decreases n - i,
    {
        let entry = &metadata[i];
        apply_meta_entry(&mut track, entry.0.as_str(), &entry.1);
        proof {
            let es = spec_entries(metadata@);
            assert(es.subrange(0, i + 1) =~= es.subrange(0, i as int).push(es[i as int]));
            lemma_fold_snoc(es.subrange(0, i as int), es[i as int], spec_empty_track_view());
        }
        i = i + 1;
    }
    proof {
        assert(spec_entries(metadata@).subrange(0, n as int) =~= spec_entries(metadata@));
    }
    track
}


/// A serialized entry for an optional string field: one entry where the
/// field is there, none where it is absent.
pub open spec fn opt_str_entry(k: Seq<char>, v: Option<Seq<char>>) -> Seq<
    (Seq<char>, MetaValueView),
> {
    match v {
        Some(s) => seq![(k, MetaValueView::Str(s))],
        None => seq![],
    }
}

/// A serialized entry for an optional single-artist field, written as a
/// one-element string array, the shape players publish it in.
pub open spec fn opt_list_entry(k: Seq<char>, v: Option<Seq<char>>) -> Seq<
    (Seq<char>, MetaValueView),
> {
    match v {
        Some(s) => seq![(k, MetaValueView::StrList(seq![s]))],
        None => seq![],
    }
}

/// A serialized entry for an optional 64-bit integer field.
pub open spec fn opt_i64_entry(k: Seq<char>, v: Option<i64>) -> Seq<(Seq<char>, MetaValueView)> {
    match v {
        Some(x) => seq![(k, MetaValueView::I64(x))],
        None => seq![],
    }
}

/// A serialized entry for an optional 32-bit integer field.
pub open spec fn opt_i32_entry(k: Seq<char>, v: Option<i32>) -> Seq<(Seq<char>, MetaValueView)> {
    match v {
        Some(x) => seq![(k, MetaValueView::I32(x))],
        None => seq![],
    }
}

/// A serialized entry for an optional fractional field in thousandths.
pub open spec fn opt_milli_entry(k: Seq<char>, v: Option<i64>) -> Seq<
    (Seq<char>, MetaValueView),
> {
    match v {
        Some(x) => seq![(k, MetaValueView::Milli(x))],
        None => seq![],
    }
}

/// What serializing a track yields: one entry per present field, under the
/// field's well-known key, in a fixed order.
pub open spec fn spec_serialize(t: TrackView) -> Seq<(Seq<char>, MetaValueView)> {
    opt_str_entry("xesam:title"@, t.title) + opt_list_entry("xesam:artist"@, t.artist) + opt_str_entry("xesam:album"@, t.album) + opt_i64_entry("mpris:length"@, t.duration_us) + opt_str_entry("xesam:url"@, t.file_path) + opt_str_entry("xesam:genre"@, t.genre) + opt_list_entry("xesam:albumArtist"@, t.album_artist) + opt_i32_entry("xesam:trackNumber"@, t.track_number) + opt_i32_entry("xesam:discNumber"@, t.disc_number) + opt_str_entry("xesam:contentCreated"@, t.release_date) + opt_str_entry("mpris:artUrl"@, t.art_url) + opt_milli_entry("xesam:userRating"@, t.user_rating_milli) + opt_i32_entry("xesam:audioBPM"@, t.bpm) + opt_str_entry("xesam:composer"@, t.composer) + opt_str_entry("xesam:musicBrainzTrackID"@, t.musicbrainz_track_id)
}

/// The fifteen well-known keys are pairwise distinct.
proof fn lemma_metadata_keys_distinct()
    ensures
        "xesam:title"@ != "xesam:artist"@,
        "xesam:title"@ != "xesam:album"@,
        "xesam:artist"@ != "xesam:album"@,
        "xesam:title"@ != "mpris:length"@,
        "xesam:artist"@ != "mpris:length"@,
        "xesam:album"@ != "mpris:length"@,
        "xesam:title"@ != "xesam:url"@,
        "xesam:artist"@ != "xesam:url"@,
        "xesam:album"@ != "xesam:url"@,
        "mpris:length"@ != "xesam:url"@,
        "xesam:title"@ != "xesam:genre"@,
        "xesam:artist"@ != "xesam:genre"@,
        "xesam:album"@ != "xesam:genre"@,
        "mpris:length"@ != "xesam:genre"@,
        "xesam:url"@ != "xesam:genre"@,
        "xesam:title"@ != "xesam:albumArtist"@,
        "xesam:artist"@ != "xesam:albumArtist"@,
        "xesam:album"@ != "xesam:albumArtist"@,
        "mpris:length"@ != "xesam:albumArtist"@,
        "xesam:url"@ != "xesam:albumArtist"@,
        "xesam:genre"@ != "xesam:albumArtist"@,
        "xesam:title"@ != "xesam:trackNumber"@,
        "xesam:artist"@ != "xesam:trackNumber"@,
        "xesam:album"@ != "xesam:trackNumber"@,
        "mpris:length"@ != "xesam:trackNumber"@,
        "xesam:url"@ != "xesam:trackNumber"@,
        "xesam:genre"@ != "xesam:trackNumber"@,
        "xesam:albumArtist"@ != "xesam:trackNumber"@,
        "xesam:title"@ != "xesam:discNumber"@,
        "xesam:artist"@ != "xesam:discNumber"@,
        "xesam:album"@ != "xesam:discNumber"@,
        "mpris:length"@ != "xesam:discNumber"@,
        "xesam:url"@ != "xesam:discNumber"@,
        "xesam:genre"@ != "xesam:discNumber"@,
        "xesam:albumArtist"@ != "xesam:discNumber"@,
        "xesam:trackNumber"@ != "xesam:discNumber"@,
        "xesam:title"@ != "xesam:contentCreated"@,
        "xesam:artist"@ != "xesam:contentCreated"@,
        "xesam:album"@ != "xesam:contentCreated"@,
        "mpris:length"@ != "xesam:contentCreated"@,
        "xesam:url"@ != "xesam:contentCreated"@,
        "xesam:genre"@ != "xesam:contentCreated"@,
        "xesam:albumArtist"@ != "xesam:contentCreated"@,
        "xesam:trackNumber"@ != "xesam:contentCreated"@,
        "xesam:discNumber"@ != "xesam:contentCreated"@,
        "xesam:title"@ != "mpris:artUrl"@,
        "xesam:artist"@ != "mpris:artUrl"@,
        "xesam:album"@ != "mpris:artUrl"@,
        "mpris:length"@ != "mpris:artUrl"@,
        "xesam:url"@ != "mpris:artUrl"@,
        "xesam:genre"@ != "mpris:artUrl"@,
        "xesam:albumArtist"@ != "mpris:artUrl"@,
        "xesam:trackNumber"@ != "mpris:artUrl"@,
        "xesam:discNumber"@ != "mpris:artUrl"@,
        "xesam:contentCreated"@ != "mpris:artUrl"@,
        "xesam:title"@ != "xesam:userRating"@,
        "xesam:artist"@ != "xesam:userRating"@,
        "xesam:album"@ != "xesam:userRating"@,
        "mpris:length"@ != "xesam:userRating"@,
        "xesam:url"@ != "xesam:userRating"@,
        "xesam:genre"@ != "xesam:userRating"@,
        "xesam:albumArtist"@ != "xesam:userRating"@,
        "xesam:trackNumber"@ != "xesam:userRating"@,
        "xesam:discNumber"@ != "xesam:userRating"@,
        "xesam:contentCreated"@ != "xesam:userRating"@,
        "mpris:artUrl"@ != "xesam:userRating"@,
        "xesam:title"@ != "xesam:audioBPM"@,
        "xesam:artist"@ != "xesam:audioBPM"@,
        "xesam:album"@ != "xesam:audioBPM"@,
        "mpris:length"@ != "xesam:audioBPM"@,
        "xesam:url"@ != "xesam:audioBPM"@,
        "xesam:genre"@ != "xesam:audioBPM"@,
        "xesam:albumArtist"@ != "xesam:audioBPM"@,
        "xesam:trackNumber"@ != "xesam:audioBPM"@,
        "xesam:discNumber"@ != "xesam:audioBPM"@,
        "xesam:contentCreated"@ != "xesam:audioBPM"@,
        "mpris:artUrl"@ != "xesam:audioBPM"@,
        "xesam:userRating"@ != "xesam:audioBPM"@,
        "xesam:title"@ != "xesam:composer"@,
        "xesam:artist"@ != "xesam:composer"@,
        "xesam:album"@ != "xesam:composer"@,
        "mpris:length"@ != "xesam:composer"@,
        "xesam:url"@ != "xesam:composer"@,
        "xesam:genre"@ != "xesam:composer"@,
        "xesam:albumArtist"@ != "xesam:composer"@,
        "xesam:trackNumber"@ != "xesam:composer"@,
        "xesam:discNumber"@ != "xesam:composer"@,
        "xesam:contentCreated"@ != "xesam:composer"@,
        "mpris:artUrl"@ != "xesam:composer"@,
        "xesam:userRating"@ != "xesam:composer"@,
        "xesam:audioBPM"@ != "xesam:composer"@,
        "xesam:title"@ != "xesam:musicBrainzTrackID"@,
        "xesam:artist"@ != "xesam:musicBrainzTrackID"@,
        "xesam:album"@ != "xesam:musicBrainzTrackID"@,
        "mpris:length"@ != "xesam:musicBrainzTrackID"@,
        "xesam:url"@ != "xesam:musicBrainzTrackID"@,
        "xesam:genre"@ != "xesam:musicBrainzTrackID"@,
        "xesam:albumArtist"@ != "xesam:musicBrainzTrackID"@,
        "xesam:trackNumber"@ != "xesam:musicBrainzTrackID"@,
        "xesam:discNumber"@ != "xesam:musicBrainzTrackID"@,
        "xesam:contentCreated"@ != "xesam:musicBrainzTrackID"@,
        "mpris:artUrl"@ != "xesam:musicBrainzTrackID"@,
        "xesam:userRating"@ != "xesam:musicBrainzTrackID"@,
        "xesam:audioBPM"@ != "xesam:musicBrainzTrackID"@,
        "xesam:composer"@ != "xesam:musicBrainzTrackID"@,
{
    reveal_strlit("xesam:title");
    reveal_strlit("xesam:artist");
    reveal_strlit("xesam:album");
    reveal_strlit("mpris:length");
    reveal_strlit("xesam:url");
    reveal_strlit("xesam:genre");
    reveal_strlit("xesam:albumArtist");
    reveal_strlit("xesam:trackNumber");
    reveal_strlit("xesam:discNumber");
    reveal_strlit("xesam:contentCreated");
    reveal_strlit("mpris:artUrl");
    reveal_strlit("xesam:userRating");
    reveal_strlit("xesam:audioBPM");
    reveal_strlit("xesam:composer");
    reveal_strlit("xesam:musicBrainzTrackID");
    assert(("xesam:title"@).len() == 11);
    assert(("xesam:artist"@).len() == 12);
    assert(("xesam:album"@).len() == 11);
    assert(("mpris:length"@).len() == 12);
    assert(("xesam:url"@).len() == 9);
    assert(("xesam:genre"@).len() == 11);
    assert(("xesam:albumArtist"@).len() == 17);
    assert(("xesam:trackNumber"@).len() == 17);
    assert(("xesam:discNumber"@).len() == 16);
    assert(("xesam:contentCreated"@).len() == 20);
    assert(("mpris:artUrl"@).len() == 12);
    assert(("xesam:userRating"@).len() == 16);
    assert(("xesam:audioBPM"@).len() == 14);
    assert(("xesam:composer"@).len() == 14);
    assert(("xesam:musicBrainzTrackID"@).len() == 24);
    assert("xesam:title"@[6] != "xesam:album"@[6]);
    assert("xesam:artist"@[0] != "mpris:length"@[0]);
    assert("xesam:title"@[6] != "xesam:genre"@[6]);
    assert("xesam:album"@[6] != "xesam:genre"@[6]);
    assert("xesam:albumArtist"@[6] != "xesam:trackNumber"@[6]);
    assert("xesam:artist"@[0] != "mpris:artUrl"@[0]);
    assert("mpris:length"@[6] != "mpris:artUrl"@[6]);
    assert("xesam:discNumber"@[6] != "xesam:userRating"@[6]);
    assert("xesam:audioBPM"@[6] != "xesam:composer"@[6]);
}

/// Folding a concatenation folds the first part, then the second.
proof fn lemma_fold_concat(
    a: Seq<(Seq<char>, MetaValueView)>,
    b: Seq<(Seq<char>, MetaValueView)>,
    acc: TrackView,
)
    ensures
        spec_parse_fold(a + b, acc) == spec_parse_fold(b, spec_parse_fold(a, acc)),
    decreases a.len(),
{
    if a.len() == 0 {
        assert(a + b =~= b);
    } else {
        assert((a + b)[0] == a[0]);
        assert((a + b).subrange(1, (a + b).len() as int) =~= a.subrange(1, a.len() as int) + b);
        lemma_fold_concat(a.subrange(1, a.len() as int), b, spec_apply_entry(acc, a[0].0, a[0].1));
    }
}

/// Folding at most one entry applies at most one entry.
proof fn lemma_fold_short(e: Seq<(Seq<char>, MetaValueView)>, acc: TrackView)
    requires
        e.len() <= 1,
    ensures
        spec_parse_fold(e, acc) == if e.len() == 0 {
            acc
        } else {
            spec_apply_entry(acc, e[0].0, e[0].1)
        },
{
    if e.len() == 1 {
        assert(e.subrange(1, 1) =~= Seq::<(Seq<char>, MetaValueView)>::empty());
        assert(spec_parse_fold(
            Seq::<(Seq<char>, MetaValueView)>::empty(),
            spec_apply_entry(acc, e[0].0, e[0].1),
        ) == spec_apply_entry(acc, e[0].0, e[0].1));
    }
}

/// Append an entry for an optional string field.
fn push_str_entry(m: &mut Vec<(String, MetaValue)>, key: &str, v: &Option<String>)
    ensures
        spec_entries(final(m)@) == spec_entries(old(m)@) + opt_str_entry(
            key@,
            spec_opt_str_view(*v),
        ),
{
    match v {
        Some(s) => {
            m.push((key.to_owned(), MetaValue::Str(s.clone())));
            proof {
                assert(spec_entries(m@) =~= spec_entries(old(m)@) + opt_str_entry(
                    key@,
                    spec_opt_str_view(*v),
                ));
            }
        },
        None => {
            proof {
                assert(spec_entries(m@) =~= spec_entries(old(m)@) + opt_str_entry(
                    key@,
                    spec_opt_str_view(*v),
                ));
            }
        },
    }
}

/// Append an entry for an optional single-artist field, as a one-element
/// string array.
fn push_list_entry(m: &mut Vec<(String, MetaValue)>, key: &str, v: &Option<String>)
    ensures
        spec_entries(final(m)@) == spec_entries(old(m)@) + opt_list_entry(
            key@,
            spec_opt_str_view(*v),
        ),
{
    match v {
        Some(s) => {
            let one: Vec<String> = vec![s.clone()];
            proof {
                assert(one.deep_view() =~= seq![s@]);
            }
            m.push((key.to_owned(), MetaValue::StrList(one)));
            proof {
                assert(spec_entries(m@) =~= spec_entries(old(m)@) + opt_list_entry(
                    key@,
                    spec_opt_str_view(*v),
                ));
            }
        },
        None => {
            proof {
                assert(spec_entries(m@) =~= spec_entries(old(m)@) + opt_list_entry(
                    key@,
                    spec_opt_str_view(*v),
                ));
            }
        },
    }
}

/// Append an entry for an optional 64-bit integer field.
fn push_i64_entry(m: &mut Vec<(String, MetaValue)>, key: &str, v: &Option<i64>)
    ensures
        spec_entries(final(m)@) == spec_entries(old(m)@) + opt_i64_entry(key@, *v),
{
    match v {
        Some(x) => {
            m.push((key.to_owned(), MetaValue::I64(*x)));
            proof {
                assert(spec_entries(m@) =~= spec_entries(old(m)@) + opt_i64_entry(key@, *v));
            }
        },
        None => {
            proof {
                assert(spec_entries(m@) =~= spec_entries(old(m)@) + opt_i64_entry(key@, *v));
            }
        },
    }
}

/// Append an entry for an optional 32-bit integer field.
fn push_i32_entry(m: &mut Vec<(String, MetaValue)>, key: &str, v: &Option<i32>)
    ensures
        spec_entries(final(m)@) == spec_entries(old(m)@) + opt_i32_entry(key@, *v),
{
    match v {
        Some(x) => {
            m.push((key.to_owned(), MetaValue::I32(*x)));
            proof {
                assert(spec_entries(m@) =~= spec_entries(old(m)@) + opt_i32_entry(key@, *v));
            }
        },
        None => {
            proof {
                assert(spec_entries(m@) =~= spec_entries(old(m)@) + opt_i32_entry(key@, *v));
            }
        },
    }
}

/// Append an entry for an optional fractional field in thousandths.
fn push_milli_entry(m: &mut Vec<(String, MetaValue)>, key: &str, v: &Option<i64>)
    ensures
        spec_entries(final(m)@) == spec_entries(old(m)@) + opt_milli_entry(key@, *v),
{
    match v {
        Some(x) => {
            m.push((key.to_owned(), MetaValue::Milli(*x)));
            proof {
                assert(spec_entries(m@) =~= spec_entries(old(m)@) + opt_milli_entry(key@, *v));
            }
        },
        None => {
            proof {
                assert(spec_entries(m@) =~= spec_entries(old(m)@) + opt_milli_entry(key@, *v));
            }
        },
    }
}

/// Serialize a track back into a metadata map: one entry per present field,
/// under the field's well-known key.
pub fn track_to_metadata(track: &Track) -> (m: Vec<(String, MetaValue)>)
    ensures
        spec_entries(m@) == spec_serialize(track@),
{
    let mut m: Vec<(String, MetaValue)> = Vec::new();
    let ghost e1 = opt_str_entry("xesam:title"@, spec_opt_str_view(track.title));
    push_str_entry(&mut m, "xesam:title", &track.title);
    proof {
        assert(spec_entries(m@) =~= e1);
    }
    push_list_entry(&mut m, "xesam:artist", &track.artist);
    push_str_entry(&mut m, "xesam:album", &track.album);
    push_i64_entry(&mut m, "mpris:length", &track.duration_us);
    push_str_entry(&mut m, "xesam:url", &track.file_path);
    push_str_entry(&mut m, "xesam:genre", &track.genre);
    push_list_entry(&mut m, "xesam:albumArtist", &track.album_artist);
    push_i32_entry(&mut m, "xesam:trackNumber", &track.track_number);
    push_i32_entry(&mut m, "xesam:discNumber", &track.disc_number);
    push_str_entry(&mut m, "xesam:contentCreated", &track.release_date);
    push_str_entry(&mut m, "mpris:artUrl", &track.art_url);
    push_milli_entry(&mut m, "xesam:userRating", &track.user_rating_milli);
    push_i32_entry(&mut m, "xesam:audioBPM", &track.bpm);
    push_str_entry(&mut m, "xesam:composer", &track.composer);
    push_str_entry(&mut m, "xesam:musicBrainzTrackID", &track.musicbrainz_track_id);
    m
}

/// Law: serializing a track and parsing the result recovers every field of
/// the track.  No field of the metadata model is lost on the round trip.
#[verifier::rlimit(100)]
pub proof fn lemma_metadata_round_trip(t: TrackView)
    ensures
        spec_parse(spec_serialize(t)) == t,
{
    lemma_metadata_keys_distinct();
    let e1 = opt_str_entry("xesam:title"@, t.title);
    let e2 = opt_list_entry("xesam:artist"@, t.artist);
    let e3 = opt_str_entry("xesam:album"@, t.album);
    let e4 = opt_i64_entry("mpris:length"@, t.duration_us);
    let e5 = opt_str_entry("xesam:url"@, t.file_path);
    let e6 = opt_str_entry("xesam:genre"@, t.genre);
    let e7 = opt_list_entry("xesam:albumArtist"@, t.album_artist);
    let e8 = opt_i32_entry("xesam:trackNumber"@, t.track_number);
    let e9 = opt_i32_entry("xesam:discNumber"@, t.disc_number);
    let e10 = opt_str_entry("xesam:contentCreated"@, t.release_date);
    let e11 = opt_str_entry("mpris:artUrl"@, t.art_url);
    let e12 = opt_milli_entry("xesam:userRating"@, t.user_rating_milli);
    let e13 = opt_i32_entry("xesam:audioBPM"@, t.bpm);
    let e14 = opt_str_entry("xesam:composer"@, t.composer);
    let e15 = opt_str_entry("xesam:musicBrainzTrackID"@, t.musicbrainz_track_id);
    let p1 = e1;
    let p2 = p1 + e2;
    let p3 = p2 + e3;
    let p4 = p3 + e4;
    let p5 = p4 + e5;
    let p6 = p5 + e6;
    let p7 = p6 + e7;
    let p8 = p7 + e8;
    let p9 = p8 + e9;
    let p10 = p9 + e10;
    let p11 = p10 + e11;
    let p12 = p11 + e12;
    let p13 = p12 + e13;
    let p14 = p13 + e14;
    let p15 = p14 + e15;
    assert(spec_serialize(t) == p15);
    let a0 = spec_empty_track_view();
    lemma_fold_short(e1, a0);
    let a1 = spec_parse_fold(p1, a0);
    assert(a1 == (TrackView { title: t.title, ..a0 }));
    lemma_fold_concat(p1, e2, a0);
    lemma_fold_short(e2, a1);
    let a2 = spec_parse_fold(p2, a0);
    assert(a2 == (TrackView { title: t.title, artist: t.artist, ..a0 }));
    lemma_fold_concat(p2, e3, a0);
    lemma_fold_short(e3, a2);
    let a3 = spec_parse_fold(p3, a0);
    assert(a3 == (TrackView { title: t.title, artist: t.artist, album: t.album, ..a0 }));
    lemma_fold_concat(p3, e4, a0);
    lemma_fold_short(e4, a3);
    let a4 = spec_parse_fold(p4, a0);
    assert(a4 == (TrackView { title: t.title, artist: t.artist, album: t.album, duration_us: t.duration_us, ..a0 }));
    lemma_fold_concat(p4, e5, a0);
    lemma_fold_short(e5, a4);
    let a5 = spec_parse_fold(p5, a0);
    assert(a5 == (TrackView { title: t.title, artist: t.artist, album: t.album, duration_us: t.duration_us, file_path: t.file_path, ..a0 }));
    lemma_fold_concat(p5, e6, a0);
    lemma_fold_short(e6, a5);
    let a6 = spec_parse_fold(p6, a0);
    assert(a6 == (TrackView { title: t.title, artist: t.artist, album: t.album, duration_us: t.duration_us, file_path: t.file_path, genre: t.genre, ..a0 }));
    lemma_fold_concat(p6, e7, a0);
    lemma_fold_short(e7, a6);
    let a7 = spec_parse_fold(p7, a0);
    assert(a7 == (TrackView { title: t.title, artist: t.artist, album: t.album, duration_us: t.duration_us, file_path: t.file_path, genre: t.genre, album_artist: t.album_artist, ..a0 }));
    lemma_fold_concat(p7, e8, a0);
    lemma_fold_short(e8, a7);
    let a8 = spec_parse_fold(p8, a0);
    assert(a8 == (TrackView { title: t.title, artist: t.artist, album: t.album, duration_us: t.duration_us, file_path: t.file_path, genre: t.genre, album_artist: t.album_artist, track_number: t.track_number, ..a0 }));
    lemma_fold_concat(p8, e9, a0);
    lemma_fold_short(e9, a8);
    let a9 = spec_parse_fold(p9, a0);
    assert(a9 == (TrackView { title: t.title, artist: t.artist, album: t.album, duration_us: t.duration_us, file_path: t.file_path, genre: t.genre, album_artist: t.album_artist, track_number: t.track_number, disc_number: t.disc_number, ..a0 }));
    lemma_fold_concat(p9, e10, a0);
    lemma_fold_short(e10, a9);
    let a10 = spec_parse_fold(p10, a0);
    assert(a10 == (TrackView { title: t.title, artist: t.artist, album: t.album, duration_us: t.duration_us, file_path: t.file_path, genre: t.genre, album_artist: t.album_artist, track_number: t.track_number, disc_number: t.disc_number, release_date: t.release_date, ..a0 }));
    lemma_fold_concat(p10, e11, a0);
    lemma_fold_short(e11, a10);
    let a11 = spec_parse_fold(p11, a0);
    assert(a11 == (TrackView { title: t.title, artist: t.artist, album: t.album, duration_us: t.duration_us, file_path: t.file_path, genre: t.genre, album_artist: t.album_artist, track_number: t.track_number, disc_number: t.disc_number, release_date: t.release_date, art_url: t.art_url, ..a0 }));
    lemma_fold_concat(p11, e12, a0);
    lemma_fold_short(e12, a11);
    let a12 = spec_parse_fold(p12, a0);
    assert(a12 == (TrackView { title: t.title, artist: t.artist, album: t.album, duration_us: t.duration_us, file_path: t.file_path, genre: t.genre, album_artist: t.album_artist, track_number: t.track_number, disc_number: t.disc_number, release_date: t.release_date, art_url: t.art_url, user_rating_milli: t.user_rating_milli, ..a0 }));
    lemma_fold_concat(p12, e13, a0);
    lemma_fold_short(e13, a12);
    let a13 = spec_parse_fold(p13, a0);
    assert(a13 == (TrackView { title: t.title, artist: t.artist, album: t.album, duration_us: t.duration_us, file_path: t.file_path, genre: t.genre, album_artist: t.album_artist, track_number: t.track_number, disc_number: t.disc_number, release_date: t.release_date, art_url: t.art_url, user_rating_milli: t.user_rating_milli, bpm: t.bpm, ..a0 }));
    lemma_fold_concat(p13, e14, a0);
    lemma_fold_short(e14, a13);
    let a14 = spec_parse_fold(p14, a0);
    assert(a14 == (TrackView { title: t.title, artist: t.artist, album: t.album, duration_us: t.duration_us, file_path: t.file_path, genre: t.genre, album_artist: t.album_artist, track_number: t.track_number, disc_number: t.disc_number, release_date: t.release_date, art_url: t.art_url, user_rating_milli: t.user_rating_milli, bpm: t.bpm, composer: t.composer, ..a0 }));
    lemma_fold_concat(p14, e15, a0);
    lemma_fold_short(e15, a14);
    let a15 = spec_parse_fold(p15, a0);
    assert(a15 == (TrackView { title: t.title, artist: t.artist, album: t.album, duration_us: t.duration_us, file_path: t.file_path, genre: t.genre, album_artist: t.album_artist, track_number: t.track_number, disc_number: t.disc_number, release_date: t.release_date, art_url: t.art_url, user_rating_milli: t.user_rating_milli, bpm: t.bpm, composer: t.composer, musicbrainz_track_id: t.musicbrainz_track_id, ..a0 }));
    assert(a15 == t);
}

} // verus!
