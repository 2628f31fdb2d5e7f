//! Time of day in a caller-given zone: which day a timestamp falls on, and
//! timestamps formatted through chrono.
//!
//! Zone policy: every calculation (the day boundary as well as the formatted
//! time) uses the one UTC offset held by a `RenderContext`, so a label's
//! "today" and its printed hour always agree.
use crate::text::digit_char;
use std::fmt::Write;
use vstd::arithmetic::div_mod::lemma_mod_add_multiples_vanish;
use vstd::prelude::*;

verus! {

pub const DAY_SECS: u64 = 86400;

/// First second of the year 10000: timestamps strictly between its negation
/// and it are formatted; others are rendered as unknown.
pub const STAMP_LIMIT: i64 = 253402300800;

/// Whether chrono can represent and format the (zone-shifted) timestamp.
pub open spec fn representable(secs: int) -> bool {
    -STAMP_LIMIT < secs < STAMP_LIMIT
}

/// Midnight of the day that holds `t`.
pub open spec fn start_of_day(t: int) -> int {
    t - t % (DAY_SECS as int)
}

/// `start` falls on the same day as `now`, or later, in the zone at `offset`.
pub open spec fn on_current_day(start: int, now: int, offset: int) -> bool {
    start + offset >= start_of_day(now + offset)
}

/// Two-digit, zero-padded numeral of `n < 100`.
pub open spec fn two_digits(n: nat) -> Seq<char> {
    seq![digit_char(n / 10), digit_char(n % 10)]
}

/// `HH:MM` of the time of day of `secs`.
pub open spec fn hh_mm(secs: int) -> Seq<char> {
    two_digits(((secs % 86400) / 3600) as nat) + seq![':'] + two_digits(((secs % 3600) / 60) as nat)
}

/// The strftime pattern of hours and minutes.
pub open spec fn hour_minute_pattern() -> Seq<char> {
    seq!['%', 'H', ':', '%', 'M']
}

/// Text that chrono writes for `secs` seconds after the epoch (taken as UTC)
/// under the strftime pattern `fmt`; `None` where chrono rejects the pattern.
pub uninterp spec fn strftime_of(secs: int, fmt: Seq<char>) -> Option<Seq<char>>;

pub open spec fn opt_view(o: Option<String>) -> Option<Seq<char>> {
    match o {
        Some(s) => Some(s@),
        None => None,
    }
}

/// Relies on chrono's `DateTime::from_timestamp` (`Some` for every timestamp
/// in range) and `DateTime::format`, whose `Display` fails on a malformed
/// pattern. `%H` and `%M` are the zero-padded hour and minute.
#[verifier::external_body]
pub(crate) fn strftime(secs: i64, fmt: &str) -> (r: Option<String>)
    requires
        representable(secs as int),
    ensures
        opt_view(r) == strftime_of(secs as int, fmt@),
        fmt@ == hour_minute_pattern() ==> opt_view(r) == Some(hh_mm(secs as int)),
{
    let t = chrono::DateTime::from_timestamp(secs, 0).unwrap();
    let mut out = String::new();
    match write!(out, "{}", t.format(fmt)) {
        Ok(()) => Some(out),
        Err(_) => None,
    }
}

/// Relies on chrono's `Local` zone: the offset from UTC that the machine's
/// zone applies at `secs`. chrono's `FixedOffset` keeps it under one day.
#[verifier::external_body]
fn local_utc_offset(secs: i64) -> (r: i32)
    requires
        representable(secs as int),
    ensures
        -86400 < r < 86400,
{
    chrono::DateTime::from_timestamp(secs, 0).unwrap().with_timezone(&chrono::Local).offset().local_minus_utc()
}

/// What rendering a record depends on besides the record: the time now, the
/// zone's offset from UTC in seconds, and the strftime pattern of dates.
pub struct RenderContext {
    pub now: u64,
    pub utc_offset: i32,
    pub date_format: String,
}

impl RenderContext {
    /// The offset is less than a day either way.
    pub open spec fn wf(&self) -> bool {
        -86400 < self.utc_offset < 86400
    }

    /// A context in the machine's local zone, as it stands at `now`.
    pub fn local(now: u64, date_format: String) -> (r: RenderContext)
        ensures
            r.wf(),
            r.now == now,
            r.date_format@ == date_format@,
            !representable(now as int) ==> r.utc_offset == 0,
    {
        let utc_offset: i32 = if now < STAMP_LIMIT as u64 {
            local_utc_offset(now as i64)
        } else {
            0
        };
        RenderContext { now, utc_offset, date_format }
    }
}

/// Whether `start` falls on the current day (or later) in the context's zone;
/// midnight itself counts as the current day.
pub fn is_current_day(start: u64, ctx: &RenderContext) -> (r: bool)
    requires
        ctx.wf(),
    ensures
        r == on_current_day(start as int, ctx.now as int, ctx.utc_offset as int),
{
    let a: i128 = start as i128 + ctx.utc_offset as i128 + DAY_SECS as i128;
    let b: i128 = ctx.now as i128 + ctx.utc_offset as i128 + DAY_SECS as i128;
    let ua: u128 = a as u128;
    let ub: u128 = b as u128;
    proof {
        let x = ctx.now as int + ctx.utc_offset as int;
        lemma_mod_add_multiples_vanish(x, DAY_SECS as int);
        assert(ub as int % (DAY_SECS as int) == x % (DAY_SECS as int));
    }
    ua >= ub - ub % (DAY_SECS as u128)
}

/// The timestamp shifted into the context's zone, where it can be formatted.
pub fn zoned_secs(start: u64, ctx: &RenderContext) -> (r: Option<i64>)
    requires
        ctx.wf(),
    ensures
        representable(start as int + ctx.utc_offset as int) <==> r is Some,
        r matches Some(s) ==> s as int == start as int + ctx.utc_offset as int,
{
    let s: i128 = start as i128 + ctx.utc_offset as i128;
    if -(STAMP_LIMIT as i128) < s && s < STAMP_LIMIT as i128 {
        Some(s as i64)
    } else {
        None
    }
}

} // verus!
