//! Domain newtypes for counts and durations.
//!
//! Strongly-typed wrappers around `i64` keep play counts, millisecond
//! durations and microsecond durations from being mixed up at compile time.
//! Each wrapper offers the same small set of accessors, checked arithmetic
//! through the standard operators, and exact conversions between the two
//! duration units.

use vstd::prelude::*;
use vstd::string::StringExecFns;

use crate::strutil::fmt_u64;
use crate::strutil::spec_int_str;
use crate::strutil::spec_nat_str;

verus! {

/// The rendering of a non-negative duration in milliseconds: seconds alone,
/// minutes and seconds, or hours, minutes and seconds.
pub open spec fn spec_ms_display_nonneg(ms: int) -> Seq<char> {
    let total_seconds = ms / 1000;
    let hours = total_seconds / 3600;
    let minutes = (total_seconds % 3600) / 60;
    let seconds = total_seconds % 60;
    if hours == 0 && minutes == 0 {
        spec_nat_str(seconds) + seq!['s']
    } else if hours == 0 {
        spec_nat_str(minutes) + seq!['m', ' '] + spec_nat_str(seconds) + seq!['s']
    } else {
        spec_nat_str(hours) + seq!['h', ' '] + spec_nat_str(minutes) + seq!['m', ' ']
            + spec_nat_str(seconds) + seq!['s']
    }
}

/// The rendering of a duration in milliseconds; a negative duration is the
/// rendering of its magnitude behind a minus sign.
pub open spec fn spec_ms_display(ms: int) -> Seq<char> {
    if ms >= 0 {
        spec_ms_display_nonneg(ms)
    } else {
        seq!['-'] + spec_ms_display_nonneg(-ms)
    }
}

/// Render a non-negative millisecond count as text.
fn ms_display_nonneg(ms: u64) -> (r: String)
    ensures
        r@ == spec_ms_display_nonneg(ms as int),
{
    let total_seconds = ms / 1000;
    let hours = total_seconds / 3600;
    let minutes = (total_seconds % 3600) / 60;
    let seconds = total_seconds % 60;
    proof {
        reveal_strlit("s");
        reveal_strlit("m ");
        reveal_strlit("h ");
    }
    if hours == 0 && minutes == 0 {
        let mut out = fmt_u64(seconds);
        out.append("s");
        proof {
            assert(out@ =~= spec_ms_display_nonneg(ms as int));
        }
        out
    } else if hours == 0 {
        let mut out = fmt_u64(minutes);
        out.append("m ");
        out.append(fmt_u64(seconds).as_str());
        out.append("s");
        proof {
            assert(out@ =~= spec_ms_display_nonneg(ms as int));
        }
        out
    } else {
        let mut out = fmt_u64(hours);
        out.append("h ");
        out.append(fmt_u64(minutes).as_str());
        out.append("m ");
        out.append(fmt_u64(seconds).as_str());
        out.append("s");
        proof {
            assert(out@ =~= spec_ms_display_nonneg(ms as int));
        }
        out
    }
}

/// A number of recorded plays.
#[derive(Debug, Clone, Copy, Default, PartialEq, Eq, Structural, PartialOrd, Ord, Hash)]
pub struct PlayCount(pub i64);

/// A duration in milliseconds.
#[derive(Debug, Clone, Copy, Default, PartialEq, Eq, Structural, PartialOrd, Ord, Hash)]
pub struct Milliseconds(pub i64);

/// A duration in microseconds.
#[derive(Debug, Clone, Copy, Default, PartialEq, Eq, Structural, PartialOrd, Ord, Hash)]
pub struct Microseconds(pub i64);

impl PlayCount {
    /// Create a new count.
    pub fn new(value: i64) -> (r: Self)
        ensures
            r.0 == value,
    {
        PlayCount(value)
    }

    /// Get the inner value.
    pub fn get(self) -> (r: i64)
        ensures
            r == self.0,
    {
        self.0
    }

    /// Get the inner value (alias for `get`).
    pub fn value(self) -> (r: i64)
        ensures
            r == self.0,
    {
        self.0
    }

    /// Consume and return the inner value.
    pub fn into_inner(self) -> (r: i64)
        ensures
            r == self.0,
    {
        self.0
    }

    /// Check if the value is zero.
    pub fn is_zero(self) -> (r: bool)
        ensures
            r == (self.0 == 0),
    {
        self.0 == 0
    }

    /// Render the count as decimal text.
    pub fn display_string(&self) -> (r: String)
        ensures
            r@ == spec_int_str(self.0 as int),
    {
        crate::strutil::fmt_i64(self.0)
    }
}

impl Milliseconds {
    /// Create a new duration.
    pub fn new(value: i64) -> (r: Self)
        ensures
            r.0 == value,
    {
        Milliseconds(value)
    }

    /// Get the inner value.
    pub fn get(self) -> (r: i64)
        ensures
            r == self.0,
    {
        self.0
    }

    /// Get the inner value (alias for `get`).
    pub fn value(self) -> (r: i64)
        ensures
            r == self.0,
    {
        self.0
    }

    /// Consume and return the inner value.
    pub fn into_inner(self) -> (r: i64)
        ensures
            r == self.0,
    {
        self.0
    }

    /// Check if the value is zero.
    pub fn is_zero(self) -> (r: bool)
        ensures
            r == (self.0 == 0),
    {
        self.0 == 0
    }

    /// Convert to microseconds.
    pub fn to_microseconds(self) -> (r: Microseconds)
        requires
            i64::MIN <= self.0 * 1000 <= i64::MAX,
        ensures
            r.0 == self.0 * 1000,
    {
        Microseconds(self.0 * 1000)
    }

    /// Create from seconds.
    pub fn from_secs(secs: i64) -> (r: Self)
        requires
            i64::MIN <= secs * 1000 <= i64::MAX,
        ensures
            r.0 == secs * 1000,
    {
        Milliseconds(secs * 1000)
    }

    /// Create from minutes.
    pub fn from_mins(mins: i64) -> (r: Self)
        requires
            i64::MIN <= mins * 60 * 1000 <= i64::MAX,
        ensures
            r.0 == mins * 60 * 1000,
    {
        Milliseconds(mins * 60 * 1000)
    }

    /// Create from hours.
    pub fn from_hours(hours: i64) -> (r: Self)
        requires
            i64::MIN <= hours * 3600000 <= i64::MAX,
        ensures
            r.0 == hours * 3600000,
    {
        Milliseconds(hours * 3600000)
    }

    /// Render the duration as text, as hours, minutes and seconds.
    pub fn display_string(&self) -> (r: String)
        ensures
            r@ == spec_ms_display(self.0 as int),
    {
        if self.0 >= 0 {
            ms_display_nonneg(self.0 as u64)
        } else {
            let m: u64 = ((-(self.0 + 1)) as u64) + 1;
            let mut out = "-".to_owned();
            out.append(ms_display_nonneg(m).as_str());
            proof {
                reveal_strlit("-");
                assert(out@ =~= spec_ms_display(self.0 as int));
            }
            out
        }
    }
}

impl Microseconds {
    /// Create a new duration.
    pub fn new(value: i64) -> (r: Self)
        ensures
            r.0 == value,
    {
        Microseconds(value)
    }

    /// Get the inner value.
    pub fn get(self) -> (r: i64)
        ensures
            r == self.0,
    {
        self.0
    }

    /// Get the inner value (alias for `get`).
    pub fn value(self) -> (r: i64)
        ensures
            r == self.0,
    {
        self.0
    }

    /// Consume and return the inner value.
    pub fn into_inner(self) -> (r: i64)
        ensures
            r == self.0,
    {
        self.0
    }

    /// Check if the value is zero.
    pub fn is_zero(self) -> (r: bool)
        ensures
            r == (self.0 == 0),
    {
        self.0 == 0
    }

    /// Convert to milliseconds, truncating toward zero.
    pub fn to_milliseconds(self) -> (r: Milliseconds)
        ensures
            r.0 == spec_trunc_div_1000(self.0 as int),
    {
        if self.0 >= 0 {
            Milliseconds(((self.0 as u64) / 1000) as i64)
        } else {
            let m: u64 = ((-(self.0 + 1)) as u64) + 1;
            let q = m / 1000;
            Milliseconds(-(q as i64))
        }
    }

    /// Create from seconds.
    pub fn from_secs(secs: i64) -> (r: Self)
        requires
            i64::MIN <= secs * 1000000 <= i64::MAX,
        ensures
            r.0 == secs * 1000000,
    {
        Microseconds(secs * 1000000)
    }

    /// Create from milliseconds.
    pub fn from_millis(ms: i64) -> (r: Self)
        requires
            i64::MIN <= ms * 1000 <= i64::MAX,
        ensures
            r.0 == ms * 1000,
    {
        Microseconds(ms * 1000)
    }

    /// Render the duration as text, as hours, minutes and seconds.
    pub fn display_string(&self) -> (r: String)
        ensures
            r@ == spec_ms_display(spec_trunc_div_1000(self.0 as int)),
    {
        self.to_milliseconds().display_string()
    }
}

/// Division by one thousand truncated toward zero, the way the machine
/// divides signed integers.
pub open spec fn spec_trunc_div_1000(n: int) -> int {
    if n >= 0 {
        n / 1000
    } else {
        -((-n) / 1000)
    }
}

/// Divide by one thousand, truncating toward zero.
pub fn div1000_trunc(n: i64) -> (r: i64)
    ensures
        r == spec_trunc_div_1000(n as int),
{
    if n >= 0 {
        ((n as u64) / 1000) as i64
    } else {
        let m: u64 = ((-(n + 1)) as u64) + 1;
        -((m / 1000) as i64)
    }
}

impl core::ops::Add for PlayCount {
    type Output = PlayCount;

    fn add(self, rhs: PlayCount) -> (r: PlayCount) {
        PlayCount(self.0 + rhs.0)
    }
}

impl vstd::std_specs::ops::AddSpecImpl for PlayCount {
    open spec fn obeys_add_spec() -> bool {
        true
    }

    open spec fn add_req(self, rhs: PlayCount) -> bool {
        i64::MIN <= self.0 + rhs.0 <= i64::MAX
    }

    open spec fn add_spec(self, rhs: PlayCount) -> PlayCount {
        PlayCount((self.0 + rhs.0) as i64)
    }
}

impl core::ops::Sub for PlayCount {
    type Output = PlayCount;

    fn sub(self, rhs: PlayCount) -> (r: PlayCount) {
        PlayCount(self.0 - rhs.0)
    }
}

impl vstd::std_specs::ops::SubSpecImpl for PlayCount {
    open spec fn obeys_sub_spec() -> bool {
        true
    }

    open spec fn sub_req(self, rhs: PlayCount) -> bool {
        i64::MIN <= self.0 - rhs.0 <= i64::MAX
    }

    open spec fn sub_spec(self, rhs: PlayCount) -> PlayCount {
        PlayCount((self.0 - rhs.0) as i64)
    }
}

impl core::ops::Add for Milliseconds {
    type Output = Milliseconds;

    fn add(self, rhs: Milliseconds) -> (r: Milliseconds) {
        Milliseconds(self.0 + rhs.0)
    }
}

impl vstd::std_specs::ops::AddSpecImpl for Milliseconds {
    open spec fn obeys_add_spec() -> bool {
        true
    }

    open spec fn add_req(self, rhs: Milliseconds) -> bool {
        i64::MIN <= self.0 + rhs.0 <= i64::MAX
    }

    open spec fn add_spec(self, rhs: Milliseconds) -> Milliseconds {
        Milliseconds((self.0 + rhs.0) as i64)
    }
}

impl core::ops::Sub for Milliseconds {
    type Output = Milliseconds;

    fn sub(self, rhs: Milliseconds) -> (r: Milliseconds) {
        Milliseconds(self.0 - rhs.0)
    }
}

impl vstd::std_specs::ops::SubSpecImpl for Milliseconds {
    open spec fn obeys_sub_spec() -> bool {
        true
    }

    open spec fn sub_req(self, rhs: Milliseconds) -> bool {
        i64::MIN <= self.0 - rhs.0 <= i64::MAX
    }

    open spec fn sub_spec(self, rhs: Milliseconds) -> Milliseconds {
        Milliseconds((self.0 - rhs.0) as i64)
    }
}

impl core::ops::Add for Microseconds {
    type Output = Microseconds;

    fn add(self, rhs: Microseconds) -> (r: Microseconds) {
        Microseconds(self.0 + rhs.0)
    }
}

impl vstd::std_specs::ops::AddSpecImpl for Microseconds {
    open spec fn obeys_add_spec() -> bool {
        true
    }

    open spec fn add_req(self, rhs: Microseconds) -> bool {
        i64::MIN <= self.0 + rhs.0 <= i64::MAX
    }

    open spec fn add_spec(self, rhs: Microseconds) -> Microseconds {
        Microseconds((self.0 + rhs.0) as i64)
    }
}

impl core::ops::Sub for Microseconds {
    type Output = Microseconds;

    fn sub(self, rhs: Microseconds) -> (r: Microseconds) {
        Microseconds(self.0 - rhs.0)
    }
}

impl vstd::std_specs::ops::SubSpecImpl for Microseconds {
    open spec fn obeys_sub_spec() -> bool {
        true
    }

    open spec fn sub_req(self, rhs: Microseconds) -> bool {
        i64::MIN <= self.0 - rhs.0 <= i64::MAX
    }

    open spec fn sub_spec(self, rhs: Microseconds) -> Microseconds {
        Microseconds((self.0 - rhs.0) as i64)
    }
}

impl From<i64> for Milliseconds {
    fn from(value: i64) -> (r: Milliseconds) {
        Milliseconds(value)
    }
}

impl vstd::std_specs::convert::FromSpecImpl<i64> for Milliseconds {
    open spec fn obeys_from_spec() -> bool {
        true
    }

    open spec fn from_spec(value: i64) -> Milliseconds {
        Milliseconds(value)
    }
}

impl From<Milliseconds> for i64 {
    fn from(value: Milliseconds) -> (r: i64) {
        value.0
    }
}

impl vstd::std_specs::convert::FromSpecImpl<Milliseconds> for i64 {
    open spec fn obeys_from_spec() -> bool {
        true
    }

    open spec fn from_spec(value: Milliseconds) -> i64 {
        value.0
    }
}

impl From<i64> for Microseconds {
    fn from(value: i64) -> (r: Microseconds) {
        Microseconds(value)
    }
}

impl vstd::std_specs::convert::FromSpecImpl<i64> for Microseconds {
    open spec fn obeys_from_spec() -> bool {
        true
    }

    open spec fn from_spec(value: i64) -> Microseconds {
        Microseconds(value)
    }
}

impl From<Microseconds> for i64 {
    fn from(value: Microseconds) -> (r: i64) {
        value.0
    }
}

impl vstd::std_specs::convert::FromSpecImpl<Microseconds> for i64 {
    open spec fn obeys_from_spec() -> bool {
        true
    }

    open spec fn from_spec(value: Microseconds) -> i64 {
        value.0
    }
}

impl From<Microseconds> for Milliseconds {
    fn from(value: Microseconds) -> (r: Milliseconds) {
        value.to_milliseconds()
    }
}

impl vstd::std_specs::convert::FromSpecImpl<Microseconds> for Milliseconds {
    open spec fn obeys_from_spec() -> bool {
        true
    }

    open spec fn from_spec(value: Microseconds) -> Milliseconds {
        Milliseconds(spec_trunc_div_1000(value.0 as int) as i64)
    }
}

impl From<Milliseconds> for Microseconds {
    /// A millisecond count too large for the microsecond range saturates at
    /// that range's nearest bound.
    fn from(value: Milliseconds) -> (r: Microseconds) {
        match value.0.checked_mul(1000) {
            Some(us) => Microseconds(us),
            None => {
                if value.0 > 0 {
                    Microseconds(i64::MAX)
                } else {
                    Microseconds(i64::MIN)
                }
            },
        }
    }
}

impl vstd::std_specs::convert::FromSpecImpl<Milliseconds> for Microseconds {
    open spec fn obeys_from_spec() -> bool {
        true
    }

    open spec fn from_spec(value: Milliseconds) -> Microseconds {
        if value.0 * 1000 > i64::MAX {
            Microseconds(i64::MAX)
        } else if value.0 * 1000 < i64::MIN {
            Microseconds(i64::MIN)
        } else {
            Microseconds((value.0 * 1000) as i64)
        }
    }
}

impl From<i64> for PlayCount {
    fn from(value: i64) -> (r: PlayCount) {
        PlayCount(value)
    }
}

impl vstd::std_specs::convert::FromSpecImpl<i64> for PlayCount {
    open spec fn obeys_from_spec() -> bool {
        true
    }

    open spec fn from_spec(value: i64) -> PlayCount {
        PlayCount(value)
    }
}

impl From<i32> for PlayCount {
    fn from(value: i32) -> (r: PlayCount) {
        PlayCount(value as i64)
    }
}

impl vstd::std_specs::convert::FromSpecImpl<i32> for PlayCount {
    open spec fn obeys_from_spec() -> bool {
        true
    }

    open spec fn from_spec(value: i32) -> PlayCount {
        PlayCount(value as i64)
    }
}

impl From<PlayCount> for i64 {
    fn from(value: PlayCount) -> (r: i64) {
        value.0
    }
}

impl vstd::std_specs::convert::FromSpecImpl<PlayCount> for i64 {
    open spec fn obeys_from_spec() -> bool {
        true
    }

    open spec fn from_spec(value: PlayCount) -> i64 {
        value.0
    }
}

} // verus!
