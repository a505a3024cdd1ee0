//! The append statement for the play log.
//!
//! A qualifying play is written as one parameterized insert; the statement
//! text and the bound values are built here, and the surrounding process
//! hands them to the store.

use vstd::prelude::*;
use vstd::string::StringExecFns;

use crate::context::ListeningContext;
use crate::monitor::PlayRecord;
use crate::track::spec_opt_str_view;
use crate::types::div1000_trunc;
use crate::types::spec_trunc_div_1000;

verus! {

/// One value bound to an insert parameter.
#[derive(Debug, Clone)]
pub enum SqlValue {
    /// An absent value.
    Null,
    /// An integer value.
    Int(i64),
    /// A text value.
    Text(String),
}

/// The insert statement for one play, with one parameter per column.
pub fn insert_play_sql() -> (r: &'static str)
    ensures
        r@ == "INSERT INTO plays (title, artist, album, duration_ms, played_ms, file_path, genre, album_artist, track_number, disc_number, release_date, art_url, user_rating, bpm, composer, musicbrainz_track_id, seek_count, intro_skipped, seek_forward_ms, seek_backward_ms, app_volume, system_volume, effective_volume, hour_of_day, day_of_week, is_weekend, season, active_window, screen_on, on_battery, player_name, is_local) VALUES (?1, ?2, ?3, ?4, ?5, ?6, ?7, ?8, ?9, ?10, ?11, ?12, ?13, ?14, ?15, ?16, ?17, ?18, ?19, ?20, ?21, ?22, ?23, ?24, ?25, ?26, ?27, ?28, ?29, ?30, ?31, ?32)"@,
{
    "INSERT INTO plays (title, artist, album, duration_ms, played_ms, file_path, genre, album_artist, track_number, disc_number, release_date, art_url, user_rating, bpm, composer, musicbrainz_track_id, seek_count, intro_skipped, seek_forward_ms, seek_backward_ms, app_volume, system_volume, effective_volume, hour_of_day, day_of_week, is_weekend, season, active_window, screen_on, on_battery, player_name, is_local) VALUES (?1, ?2, ?3, ?4, ?5, ?6, ?7, ?8, ?9, ?10, ?11, ?12, ?13, ?14, ?15, ?16, ?17, ?18, ?19, ?20, ?21, ?22, ?23, ?24, ?25, ?26, ?27, ?28, ?29, ?30, ?31, ?32)"
}

/// What the first sixteen parameters hold: the track's fields, in column
/// order, with the duration converted to milliseconds.
pub open spec fn spec_track_params_ok(r: Seq<SqlValue>, t: crate::track::Track, played_ms: i64) -> bool {
    &&& r.len() == 16
    &&& spec_opt_text(r[0], spec_opt_str_view(t.title))
    &&& spec_opt_text(r[1], spec_opt_str_view(t.artist))
    &&& spec_opt_text(r[2], spec_opt_str_view(t.album))
    &&& r[3] == (match t.duration_us {
        Some(d) => SqlValue::Int(spec_trunc_div_1000(d as int) as i64),
        None => SqlValue::Null,
    })
    &&& r[4] == SqlValue::Int(played_ms)
    &&& spec_opt_text(r[5], spec_opt_str_view(t.file_path))
    &&& spec_opt_text(r[6], spec_opt_str_view(t.genre))
    &&& spec_opt_text(r[7], spec_opt_str_view(t.album_artist))
    &&& r[8] == spec_opt_int32(t.track_number)
    &&& r[9] == spec_opt_int32(t.disc_number)
    &&& spec_opt_text(r[10], spec_opt_str_view(t.release_date))
    &&& spec_opt_text(r[11], spec_opt_str_view(t.art_url))
    &&& r[12] == spec_opt_int(t.user_rating_milli)
    &&& r[13] == spec_opt_int32(t.bpm)
    &&& spec_opt_text(r[14], spec_opt_str_view(t.composer))
    &&& spec_opt_text(r[15], spec_opt_str_view(t.musicbrainz_track_id))
}

/// What the last sixteen parameters hold: the seek accounting, the
/// volumes, the context and the player, in column order.
pub open spec fn spec_tail_params_ok(
    r: Seq<SqlValue>,
    st: crate::track::TrackState,
    ctx: ListeningContext,
) -> bool {
    &&& r.len() == 16
    &&& r[0] == (if st.seek_count > 0 {
        SqlValue::Int(st.seek_count as i64)
    } else {
        SqlValue::Null
    })
    &&& r[1] == (if st.intro_skipped {
        SqlValue::Int(1)
    } else {
        SqlValue::Null
    })
    &&& r[2] == (if st.seek_forward_ms > 0 {
        SqlValue::Int(st.seek_forward_ms)
    } else {
        SqlValue::Null
    })
    &&& r[3] == (if st.seek_backward_ms > 0 {
        SqlValue::Int(st.seek_backward_ms)
    } else {
        SqlValue::Null
    })
    &&& r[4] == spec_opt_int(st.app_volume_milli)
    &&& r[5] == spec_opt_int(st.system_volume_milli)
    &&& r[6] == spec_opt_int(crate::track::spec_effective_volume(st))
    &&& r[7] == SqlValue::Int(ctx.hour_of_day as i64)
    &&& r[8] == SqlValue::Int(ctx.day_of_week as i64)
    &&& r[9] == SqlValue::Int(
        if ctx.is_weekend {
            1
        } else {
            0
        },
    )
    &&& r[10] == SqlValue::Text(ctx.season)
    &&& spec_opt_text(r[11], spec_opt_str_view(ctx.active_window))
    &&& r[12] == spec_opt_bool(ctx.screen_on)
    &&& r[13] == spec_opt_bool(ctx.on_battery)
    &&& spec_opt_text(r[14], spec_opt_str_view(st.player_name))
    &&& r[15] == SqlValue::Int(
        if st.is_local {
            1
        } else {
            0
        },
    )
}

/// What each of the thirty-two parameters of the insert holds, in order:
/// the track's fields, then the accounting, context and player.
pub open spec fn spec_play_params_ok(
    r: Seq<SqlValue>,
    rec: PlayRecord,
    ctx: ListeningContext,
) -> bool {
    &&& r.len() == 32
    &&& spec_track_params_ok(r.subrange(0, 16), rec.state.track, rec.played_ms)
    &&& spec_tail_params_ok(r.subrange(16, 32), rec.state, ctx)
}

/// A text value with the given characters, or absent.
pub open spec fn spec_opt_text(v: SqlValue, s: Option<Seq<char>>) -> bool {
    match s {
        Some(cs) => match v {
            SqlValue::Text(t) => t@ == cs,
            _ => false,
        },
        None => v == SqlValue::Null,
    }
}

/// An integer value, or absent.
pub open spec fn spec_opt_int(n: Option<i64>) -> SqlValue {
    match n {
        Some(x) => SqlValue::Int(x),
        None => SqlValue::Null,
    }
}

/// A 32-bit integer value widened, or absent.
pub open spec fn spec_opt_int32(n: Option<i32>) -> SqlValue {
    match n {
        Some(x) => SqlValue::Int(x as i64),
        None => SqlValue::Null,
    }
}

/// A flag as one or zero, or absent.
pub open spec fn spec_opt_bool(b: Option<bool>) -> SqlValue {
    match b {
        Some(true) => SqlValue::Int(1),
        Some(false) => SqlValue::Int(0),
        None => SqlValue::Null,
    }
}

/// A text parameter from an optional string.
fn text_or_null(s: &Option<String>) -> (r: SqlValue)
    ensures
        spec_opt_text(r, spec_opt_str_view(*s)),
{
    match s {
        Some(t) => SqlValue::Text(t.clone()),
        None => SqlValue::Null,
    }
}

/// An integer parameter from an optional value.
fn int_or_null(n: &Option<i64>) -> (r: SqlValue)
    ensures
        r == spec_opt_int(*n),
{
    match n {
        Some(x) => SqlValue::Int(*x),
        None => SqlValue::Null,
    }
}

/// An integer parameter from an optional 32-bit value.
fn int32_or_null(n: &Option<i32>) -> (r: SqlValue)
    ensures
        r == spec_opt_int32(*n),
{
    match n {
        Some(x) => SqlValue::Int(*x as i64),
        None => SqlValue::Null,
    }
}

/// A flag parameter from an optional value.
fn bool_or_null(b: &Option<bool>) -> (r: SqlValue)
    ensures
        r == spec_opt_bool(*b),
{
    match b {
        Some(true) => SqlValue::Int(1),
        Some(false) => SqlValue::Int(0),
        None => SqlValue::Null,
    }
}

/// The first sixteen bound values: the track's fields.
#[verifier::rlimit(100)]
fn track_params(t: &crate::track::Track, played_ms: i64) -> (r: Vec<SqlValue>)
    ensures
        spec_track_params_ok(r@, *t, played_ms),
{
    let mut r: Vec<SqlValue> = Vec::new();
    r.push(text_or_null(&t.title));
    r.push(text_or_null(&t.artist));
    r.push(text_or_null(&t.album));
    r.push(
        match t.duration_us {
            Some(d) => SqlValue::Int(div1000_trunc(d)),
            None => SqlValue::Null,
        },
    );
    r.push(SqlValue::Int(played_ms));
    r.push(text_or_null(&t.file_path));
    r.push(text_or_null(&t.genre));
    r.push(text_or_null(&t.album_artist));
    r.push(int32_or_null(&t.track_number));
    r.push(int32_or_null(&t.disc_number));
    r.push(text_or_null(&t.release_date));
    r.push(text_or_null(&t.art_url));
    r.push(int_or_null(&t.user_rating_milli));
    r.push(int32_or_null(&t.bpm));
    r.push(text_or_null(&t.composer));
    r.push(text_or_null(&t.musicbrainz_track_id));
    r
}

/// The last sixteen bound values: accounting, volumes, context, player.
#[verifier::rlimit(100)]
fn tail_params(st: &crate::track::TrackState, ctx: &ListeningContext) -> (r: Vec<SqlValue>)
    ensures
        spec_tail_params_ok(r@, *st, *ctx),
{
    let mut r: Vec<SqlValue> = Vec::new();
    r.push(
        if st.seek_count > 0 {
            SqlValue::Int(st.seek_count as i64)
        } else {
            SqlValue::Null
        },
    );
    r.push(
        if st.intro_skipped {
            SqlValue::Int(1)
        } else {
            SqlValue::Null
        },
    );
    r.push(
        if st.seek_forward_ms > 0 {
            SqlValue::Int(st.seek_forward_ms)
        } else {
            SqlValue::Null
        },
    );
    r.push(
        if st.seek_backward_ms > 0 {
            SqlValue::Int(st.seek_backward_ms)
        } else {
            SqlValue::Null
        },
    );
    r.push(int_or_null(&st.app_volume_milli));
    r.push(int_or_null(&st.system_volume_milli));
    r.push(int_or_null(&st.effective_volume()));
    r.push(SqlValue::Int(ctx.hour_of_day as i64));
    r.push(SqlValue::Int(ctx.day_of_week as i64));
    r.push(
        SqlValue::Int(
            if ctx.is_weekend {
                1
            } else {
                0
            },
        ),
    );
    r.push(SqlValue::Text(ctx.season.clone()));
    r.push(text_or_null(&ctx.active_window));
    r.push(bool_or_null(&ctx.screen_on));
    r.push(bool_or_null(&ctx.on_battery));
    r.push(text_or_null(&st.player_name));
    r.push(
        SqlValue::Int(
            if st.is_local {
                1
            } else {
                0
            },
        ),
    );
    r
}

/// The thirty-two bound values of the insert for one qualifying play, in
/// column order.
pub fn play_insert_params(rec: &PlayRecord, ctx: &ListeningContext) -> (r: Vec<SqlValue>)
    ensures
        spec_play_params_ok(r@, *rec, *ctx),
{
    let mut r = track_params(&rec.state.track, rec.played_ms);
    let mut tail = tail_params(&rec.state, ctx);
    let ghost head = r@;
    let ghost rest = tail@;
    r.append(&mut tail);
    proof {
        assert(r@.subrange(0, 16) =~= head);
        assert(r@.subrange(16, 32) =~= rest);
    }
    r
}

} // verus!
