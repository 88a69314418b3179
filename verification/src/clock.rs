//! Times and dates: reading and writing timestamps with chrono, and the
//! chat variables built on them.
use crate::action::{chan_key, channel_key, effects, emit, opt_view, store4, Action, Effect};
use crate::text::{parse_i64, parse_signed, same_text, views};
use crate::vars::{duration_label, two_units};
use chrono::{TimeZone, Timelike};
use vstd::prelude::*;

verus! {

/// The instant an RFC 3339 timestamp names, as seconds since the epoch and
/// nanoseconds, as chrono reads it; nothing when chrono cannot read it.
pub uninterp spec fn rfc3339_instant(stamp: Seq<char>) -> Option<(int, int)>;

/// `chrono::DateTime::parse_from_rfc3339`, read as an instant: whole seconds
/// since the epoch and the nanoseconds past them (`rfc3339_instant`).
#[verifier::external_body]
fn parse_rfc3339(stamp: &str) -> (r: Option<(i64, u32)>)
    ensures
        match r {
            Some(p) => rfc3339_instant(stamp@) == Some((p.0 as int, p.1 as int)),
            None => rfc3339_instant(stamp@) is None,
        },
{
    match chrono::DateTime::parse_from_rfc3339(stamp) {
        Ok(d) => Some((d.timestamp(), d.timestamp_subsec_nanos())),
        Err(_) => None,
    }
}

/// The instant a `%Y-%m-%dT%H:%M%z` timestamp names, as chrono reads it.
pub uninterp spec fn minute_instant(stamp: Seq<char>) -> Option<(int, int)>;

/// `chrono::DateTime::parse_from_str` with the format `%Y-%m-%dT%H:%M%z`,
/// read as an instant (`minute_instant`).
#[verifier::external_body]
fn parse_minute_stamp(stamp: &str) -> (r: Option<(i64, u32)>)
    ensures
        match r {
            Some(p) => minute_instant(stamp@) == Some((p.0 as int, p.1 as int)),
            None => minute_instant(stamp@) is None,
        },
{
    match chrono::DateTime::parse_from_str(stamp, "%Y-%m-%dT%H:%M%z") {
        Ok(d) => Some((d.timestamp(), d.timestamp_subsec_nanos())),
        Err(_) => None,
    }
}

/// The day an RFC 3339 timestamp falls on, in its own offset, written
/// `%b %e %Y` (`Jan  5 2020`); nothing when chrono cannot read the stamp.
pub uninterp spec fn rfc3339_day(stamp: Seq<char>) -> Option<Seq<char>>;

/// `chrono::DateTime::parse_from_rfc3339` and then `format("%b %e %Y")`
/// (`rfc3339_day`).
#[verifier::external_body]
fn day_of(stamp: &str) -> (r: Option<String>)
    ensures
        opt_view(r) == rfc3339_day(stamp@),
{
    match chrono::DateTime::parse_from_rfc3339(stamp) {
        Ok(d) => Some(d.format("%b %e %Y").to_string()),
        Err(_) => None,
    }
}

/// An RFC 3339 timestamp moved by `delta` seconds and written back in RFC
/// 3339, in the same offset; nothing when chrono cannot read the stamp or
/// the moved time leaves chrono's range.
pub uninterp spec fn shifted_rfc3339(stamp: Seq<char>, delta: int) -> Option<Seq<char>>;

/// `chrono::DateTime::parse_from_rfc3339`, `checked_add_signed` of
/// `TimeDelta::try_seconds(delta)` and `to_rfc3339` (`shifted_rfc3339`).
#[verifier::external_body]
fn shift_rfc3339(stamp: &str, delta: i64) -> (r: Option<String>)
    ensures
        opt_view(r) == shifted_rfc3339(stamp@, delta as int),
{
    let d = chrono::DateTime::parse_from_rfc3339(stamp).ok()?;
    let step = chrono::TimeDelta::try_seconds(delta)?;
    Some(d.checked_add_signed(step)?.to_rfc3339())
}

/// The wall-clock time (`%l:%M%P`, ` 3:07pm`) in the time zone named
/// `zone` at `secs` seconds since the epoch; nothing when chrono-tz knows
/// no such zone.
pub uninterp spec fn zone_clock(zone: Seq<char>, secs: int) -> Option<Seq<char>>;

/// `chrono_tz::Tz::from_str`, then the instant in that zone, formatted
/// `%l:%M%P` (`zone_clock`).
#[verifier::external_body]
fn clock_in_zone(zone: &str, secs: i64) -> (r: Option<String>)
    ensures
        opt_view(r) == zone_clock(zone@, secs as int),
{
    let tz: chrono_tz::Tz = zone.parse().ok()?;
    let t = chrono::Utc.timestamp_opt(secs, 0).single()?;
    Some(t.with_timezone(&tz).format("%l:%M%P").to_string())
}

/// The hour and minute of a `%H:%M%z` time of day, as chrono reads it.
pub uninterp spec fn hour_minute(text: Seq<char>) -> Option<(int, int)>;

/// `chrono::NaiveTime::parse_from_str` with the format `%H:%M%z`, read as
/// its hour and minute (`hour_minute`).
#[verifier::external_body]
fn parse_hour_minute(text: &str) -> (r: Option<(u32, u32)>)
    ensures
        match r {
            Some(p) => hour_minute(text@) == Some((p.0 as int, p.1 as int)),
            None => hour_minute(text@) is None,
        },
{
    match chrono::NaiveTime::parse_from_str(text, "%H:%M%z") {
        Ok(t) => Some((t.hour(), t.minute())),
        Err(_) => None,
    }
}

// ---------------------------------------------------------------------------
/// The time from `then` to `now` (each seconds since the epoch and
/// nanoseconds), in nanoseconds.
pub open spec fn span_nanos(now: (int, int), then: (int, int)) -> int {
    (now.0 - then.0) * 1_000_000_000 + (now.1 - then.1)
}

/// A span as a standard duration (whole seconds and nanoseconds), when it
/// is not negative and its seconds fit in 64 bits.
pub open spec fn as_duration(d: int) -> Option<(int, int)> {
    if d < 0 || d / 1_000_000_000 > u64::MAX {
        None
    } else {
        Some((d / 1_000_000_000, d % 1_000_000_000))
    }
}

/// The time from `then` to `now` as a standard duration, when `now` is not
/// before `then`.
pub fn elapsed(now: (i64, u32), then: (i64, u32)) -> (r: Option<(u64, u32)>)
    ensures
        match as_duration(span_nanos((now.0 as int, now.1 as int), (then.0 as int, then.1 as int))) {
            Some(p) => r == Some((p.0 as u64, p.1 as u32)),
            None => r is None,
        },
{
    let ds: i128 = (now.0 as i128) - (then.0 as i128);
    let dn: i128 = (now.1 as i128) - (then.1 as i128);
    assert(-18446744073709551615 <= ds <= 18446744073709551615);
    let total: i128 = ds * 1_000_000_000 + dn;
    if total < 0 {
        return None;
    }
    let secs: i128 = total / 1_000_000_000;
    let nanos: i128 = total % 1_000_000_000;
    if secs > 18446744073709551615 {
        return None;
    }
    Some((secs as u64, nanos as u32))
}

/// How long ago `stamp` was at `now`, in its two largest units joined by
/// `sep`: `Some(None)` when the stamp cannot be read or lies in the
/// future, which the caller treats as its own failure.
pub open spec fn age_text(now: (int, int), stamp: Seq<char>, sep: Seq<char>) -> Option<Seq<char>> {
    match rfc3339_instant(stamp) {
        Some(t) => match as_duration(span_nanos(now, t)) {
            Some(d) => Some(two_units(d.0 as nat, d.1 as nat, sep)),
            None => None,
        },
        None => None,
    }
}

fn age_label(now: (i64, u32), stamp: &str, sep: &str) -> (r: Option<String>)
    ensures
        opt_view(r) == age_text((now.0 as int, now.1 as int), stamp@, sep@),
{
    match parse_rfc3339(stamp) {
        Some(t) => match elapsed(now, t) {
            Some(d) => Some(duration_label(d.0, d.1, sep)),
            None => None,
        },
        None => None,
    }
}

/// The `(uptime)` variable at `now`: how long the stream has been live
/// (`2h5m`), from its start time; empty when the channel is not live.
/// Nothing comes back when the start time cannot be read or lies in the
/// future (the variable then fails).
pub fn uptime_var(now: (i64, u32), started: &Option<String>) -> (r: Option<String>)
    ensures
        match started {
            None => r matches Some(s) && s@ == Seq::<char>::empty(),
            Some(s) => opt_view(r) == age_text((now.0 as int, now.1 as int), s@, Seq::empty()),
        },
{
    match started {
        None => Some(String::new()),
        Some(s) => {
            let r = age_label(now, s.as_str(), "");
            proof {
                reveal_strlit("");
            }
            r
        },
    }
}

/// The `(followage)` variable at `now`: how long the sender has followed
/// (`3months and 2days`), from the follow's time; `0m` when the follow
/// could not be read. Nothing comes back when the time cannot be read or
/// lies in the future (the variable then fails).
pub fn followage_var(now: (i64, u32), followed: &Option<String>) -> (r: Option<String>)
    ensures
        match followed {
            None => r matches Some(s) && s@ == "0m"@,
            Some(s) => opt_view(r) == age_text((now.0 as int, now.1 as int), s@, " and "@),
        },
{
    match followed {
        None => Some("0m".to_owned()),
        Some(s) => age_label(now, s.as_str(), " and "),
    }
}

/// What `(countdown <stamp>)` shows at `now`: the time left until the
/// `%Y-%m-%dT%H:%M%z` stamp in two units, or nothing once it has passed or
/// when it cannot be read.
pub open spec fn countdown_value(now: (int, int), vargs: Seq<Seq<char>>) -> Seq<char> {
    if vargs.len() == 0 {
        Seq::empty()
    } else {
        match minute_instant(vargs[0]) {
            Some(t) => match as_duration(span_nanos(t, now)) {
                Some(d) => two_units(d.0 as nat, d.1 as nat, " and "@),
                None => Seq::empty(),
            },
            None => Seq::empty(),
        }
    }
}

/// The `(countdown)` variable at `now`.
pub fn countdown_var(now: (i64, u32), vargs: &Vec<String>) -> (r: String)
    ensures
        r@ == countdown_value((now.0 as int, now.1 as int), views(vargs@)),
{
    if vargs.len() == 0 {
        return String::new();
    }
    assert(views(vargs@)[0] == vargs@[0]@);
    match parse_minute_stamp(vargs[0].as_str()) {
        Some(t) => match elapsed(t, now) {
            Some(d) => duration_label(d.0, d.1, " and "),
            None => String::new(),
        },
        None => String::new(),
    }
}

/// What `(date <phrase>)` shows: the day the phrase's stored RFC 3339 time
/// falls on, or nothing.
pub open spec fn date_value(vargs: Seq<Seq<char>>, phrase: Option<Seq<char>>) -> Seq<char> {
    if vargs.len() == 0 {
        Seq::empty()
    } else {
        match phrase {
            Some(p) => match rfc3339_day(p) {
                Some(d) => d,
                None => Seq::empty(),
            },
            None => Seq::empty(),
        }
    }
}

/// The `(date)` variable; `phrase` is the stored value of the phrase its
/// first argument names.
pub fn date_var(vargs: &Vec<String>, phrase: &Option<String>) -> (r: String)
    ensures
        r@ == date_value(views(vargs@), opt_view(*phrase)),
{
    if vargs.len() == 0 {
        return String::new();
    }
    match phrase {
        Some(p) => match day_of(p.as_str()) {
            Some(d) => d,
            None => String::new(),
        },
        None => String::new(),
    }
}

/// What `(dateinc <phrase> <seconds>)` does: the phrase's stored time moves
/// by the given seconds. Nothing changes when the phrase or the seconds
/// cannot be read, or when the moved time leaves chrono's range.
pub open spec fn dateinc_effects(c: Seq<char>, vargs: Seq<Seq<char>>, phrase: Option<Seq<char>>) -> Seq<Effect> {
    if vargs.len() <= 1 {
        seq![]
    } else {
        match phrase {
            Some(p) => match parse_signed(vargs[1], i64::MIN as int, i64::MAX as int) {
                Some(n) => match shifted_rfc3339(p, n) {
                    Some(t) => seq![Effect::Store(seq!["hset"@, chan_key(c, "phrases"@), vargs[0], t])],
                    None => seq![],
                },
                None => seq![],
            },
            None => seq![],
        }
    }
}

/// The `(dateinc)` variable; `phrase` is the stored value of the phrase
/// its first argument names. It shows nothing.
pub fn dateinc_var(channel: &str, vargs: &Vec<String>, phrase: &Option<String>) -> (r: Vec<Action>)
    ensures
        effects(r@) == dateinc_effects(channel@, views(vargs@), opt_view(*phrase)),
{
    let mut r: Vec<Action> = Vec::new();
    if vargs.len() > 1 {
        assert(views(vargs@)[0] == vargs@[0]@);
        assert(views(vargs@)[1] == vargs@[1]@);
        match phrase {
            Some(p) => match parse_i64(vargs[1].as_str()) {
                Some(n) => match shift_rfc3339(p.as_str(), n) {
                    Some(t) => {
                        let k = channel_key(channel, "phrases");
                        emit(&mut r, store4("hset", k.as_str(), vargs[0].as_str(), t.as_str()));
                    },
                    None => {},
                },
                None => {},
            },
            None => {},
        }
    }
    assert(effects(r@) =~= dateinc_effects(channel@, views(vargs@), opt_view(*phrase)));
    r
}

/// What `(time <zone>)` shows at `secs` seconds since the epoch: the
/// wall-clock time in that zone, or nothing for an unknown zone.
pub open spec fn time_value(secs: int, vargs: Seq<Seq<char>>) -> Seq<char> {
    if vargs.len() == 0 {
        Seq::empty()
    } else {
        match zone_clock(vargs[0], secs) {
            Some(t) => t,
            None => Seq::empty(),
        }
    }
}

/// The `(time)` variable at `secs` seconds since the epoch.
pub fn time_var(secs: i64, vargs: &Vec<String>) -> (r: String)
    ensures
        r@ == time_value(secs as int, views(vargs@)),
{
    if vargs.len() == 0 {
        return String::new();
    }
    assert(views(vargs@)[0] == vargs@[0]@);
    match clock_in_zone(vargs[0].as_str(), secs) {
        Some(t) => t,
        None => String::new(),
    }
}

/// A scheduled notice is due while the channel is live, in the minute its
/// `%H:%M%z` time names (hour and minute compared with the clock's).
pub open spec fn scheduled_due(live: Seq<char>, time: Seq<char>, hour: int, minute: int) -> bool {
    live == "true"@ && hour_minute(time) == Some((hour, minute))
}

/// Whether the scheduled notice at `time` is due at `hour`:`minute`.
pub fn scheduled_notice_due(live: &str, time: &str, hour: u32, minute: u32) -> (r: bool)
    ensures
        r == scheduled_due(live@, time@, hour as int, minute as int),
{
    if !same_text(live, "true") {
        return false;
    }
    match parse_hour_minute(time) {
        Some(p) => p.0 == hour && p.1 == minute,
        None => false,
    }
}


// ---------------------------------------------------------------------------
/// Integer division truncated toward zero, as Rust divides.
pub open spec fn trunc_div(a: int, b: int) -> int {
    if a >= 0 {
        a / b
    } else {
        -((-a) / b)
    }
}

/// The whole units (of `unit` seconds) from `then` to `now`, truncated
/// toward zero as chrono counts a span's seconds, minutes and hours.
pub open spec fn whole_units(now: (int, int), then: (int, int), unit: int) -> int {
    trunc_div(trunc_div(span_nanos(now, then), 1_000_000_000), unit)
}

/// The whole units (of `unit` seconds) since the RFC 3339 timestamp
/// `stamp` at `now`, when the stamp can be read and the count fits in 64
/// bits.
pub open spec fn units_since_value(now: (i64, u32), stamp: Seq<char>, unit: int) -> Option<i64> {
    match rfc3339_instant(stamp) {
        Some(t) => {
            let w = whole_units((now.0 as int, now.1 as int), t, unit);
            if i64::MIN <= w <= i64::MAX {
                Some(w as i64)
            } else {
                None
            }
        },
        None => None,
    }
}

/// The whole units (of `unit` seconds, 1 to 3600) since the RFC 3339
/// timestamp `stamp` at `now`; nothing when the stamp cannot be read (or,
/// beyond chrono's range, the count leaves 64 bits).
pub fn units_since(now: (i64, u32), stamp: &str, unit: i64) -> (r: Option<i64>)
    requires
        1 <= unit <= 3600,
    ensures
        r == units_since_value(now, stamp@, unit as int),
{
    let t = match parse_rfc3339(stamp) {
        Some(t) => t,
        None => return None,
    };
    let ds: i128 = (now.0 as i128) - (t.0 as i128);
    let dn: i128 = (now.1 as i128) - (t.1 as i128);
    assert(-18446744073709551615 <= ds <= 18446744073709551615);
    let total: i128 = ds * 1_000_000_000 + dn;
    let secs: i128 = if total >= 0 { total / 1_000_000_000 } else { -((-total) / 1_000_000_000) };
    let u = unit as i128;
    let w: i128 = if secs >= 0 { secs / u } else { -((-secs) / u) };
    if w < -9223372036854775808 || w > 9223372036854775807 {
        None
    } else {
        Some(w as i64)
    }
}

} // verus!
