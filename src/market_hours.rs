//! Exchange hours and the REST poller's schedule.
//!
//! Times of day are seconds after midnight in the exchange's time zone
//! (New York).
use chrono::Timelike;
use vstd::prelude::*;

verus! {

/// Seconds in a day.
pub const SECONDS_PER_DAY: u32 = 86400;

/// Regular session open, 09:30.
pub const MARKET_OPEN_TIME: u32 = 34200;

/// Regular session close, 16:00.
pub const MARKET_CLOSE_TIME: u32 = 57600;

/// Extended session open, 04:00.
pub const MARKET_OPEN_EXT: u32 = 14400;

/// Extended session close, 20:00.
pub const MARKET_CLOSE_EXT: u32 = 72000;

/// Whether buy orders are placed as extended-hours limit orders.
pub const BUY_EXTENDED_HOURS: bool = false;

/// Whether limit sell orders are placed for extended hours.
pub const SELL_EXTENDED_HOURS: bool = false;

/// The poller's interval while the market is open, in milliseconds.
pub const REST_POLL_RATE_OPEN_MILLIS: u64 = 3000;

/// The poller's interval while the market is closed, in milliseconds.
pub const REST_POLL_RATE_CLOSED_MILLIS: u64 = 10000;

/// The largest distance from the Unix epoch, in milliseconds, that the
/// clock conversions accept.
pub const MAX_ABS_MILLIS: i64 = 8_000_000_000_000_000;

/// The exchange's regular and extended sessions, as times of day.
#[derive(Debug, Clone, Copy, PartialEq, Eq, Structural)]
pub struct MarketCalendar {
    pub open: u32,
    pub close: u32,
    pub open_ext: u32,
    pub close_ext: u32,
}

/// The poller's two intervals, in milliseconds.
#[derive(Debug, Clone, Copy, PartialEq, Eq, Structural)]
pub struct PollSchedule {
    pub open_ms: u64,
    pub closed_ms: u64,
}

/// Whether the time of day `t` lies strictly inside the session that the flag
/// selects: the extended one when `extended`, else the regular one.
pub open spec fn strictly_inside(t: u32, cal: MarketCalendar, extended: bool) -> bool {
    if extended {
        cal.open_ext < t && t < cal.close_ext
    } else {
        cal.open < t && t < cal.close
    }
}

/// Whether the time of day `t` lies inside the session that the flag selects,
/// its bounds included.
pub open spec fn inside_inclusive(t: u32, cal: MarketCalendar, extended: bool) -> bool {
    if extended {
        cal.open_ext <= t && t <= cal.close_ext
    } else {
        cal.open <= t && t <= cal.close
    }
}

/// The poller's interval at time of day `t`.
pub open spec fn interval_at(t: u32, cal: MarketCalendar, extended: bool, sched: PollSchedule) -> u64 {
    if inside_inclusive(t, cal, extended) {
        sched.open_ms
    } else {
        sched.closed_ms
    }
}

/// New York's time of day, in seconds after midnight, at the instant
/// `utc_millis` milliseconds after the Unix epoch.
pub uninterp spec fn ny_time_of_day(utc_millis: i64) -> u32;

/// Relies on `DateTime::<Utc>::from_timestamp_millis`, chrono-tz's
/// `America::New_York` and `Timelike::num_seconds_from_midnight`: the result
/// depends on the instant alone and is a time of day. chrono accepts every
/// instant within the bound (about 250,000 years either way).
#[verifier::external_body]
fn ny_seconds_of_day(utc_millis: i64) -> (r: u32)
    requires
        -MAX_ABS_MILLIS <= utc_millis <= MAX_ABS_MILLIS,
    ensures
        r == ny_time_of_day(utc_millis),
        r < SECONDS_PER_DAY,
{
    chrono::DateTime::<chrono::Utc>::from_timestamp_millis(utc_millis)
        .expect("instant within chrono's range")
        .with_timezone(&chrono_tz::America::New_York)
        .time()
        .num_seconds_from_midnight()
}

/// Relies on `chrono::Utc::now` and `DateTime::timestamp_millis`: the time
/// now, in milliseconds after the Unix epoch. Nothing is known of its value.
#[verifier::external_body]
fn utc_now_millis() -> (r: i64) {
    chrono::Utc::now().timestamp_millis()
}

/// New York's time of day now, in seconds after midnight (midnight where the
/// clock reads beyond the range that the conversion accepts).
pub fn ny_time_now() -> (r: u32)
    ensures
        r < SECONDS_PER_DAY,
{
    let now = utc_now_millis();
    ny_time_at(now)
}

/// New York's time of day at `utc_millis` milliseconds after the Unix epoch;
/// midnight for an instant beyond the range that the conversion accepts.
pub fn ny_time_at(utc_millis: i64) -> (r: u32)
    ensures
        -MAX_ABS_MILLIS <= utc_millis <= MAX_ABS_MILLIS ==> r == ny_time_of_day(utc_millis),
        !(-MAX_ABS_MILLIS <= utc_millis <= MAX_ABS_MILLIS) ==> r == 0,
        r < SECONDS_PER_DAY,
{
    if -MAX_ABS_MILLIS <= utc_millis && utc_millis <= MAX_ABS_MILLIS {
        ny_seconds_of_day(utc_millis)
    } else {
        0
    }
}

impl MarketCalendar {
    /// The exchange's sessions: regular 09:30-16:00, extended 04:00-20:00.
    pub fn new_york() -> (r: MarketCalendar)
        ensures
            r.open == MARKET_OPEN_TIME,
            r.close == MARKET_CLOSE_TIME,
            r.open_ext == MARKET_OPEN_EXT,
            r.close_ext == MARKET_CLOSE_EXT,
    {
        MarketCalendar {
            open: MARKET_OPEN_TIME,
            close: MARKET_CLOSE_TIME,
            open_ext: MARKET_OPEN_EXT,
            close_ext: MARKET_CLOSE_EXT,
        }
    }
}

impl PollSchedule {
    /// The poller's default intervals, with the open interval overridden
    /// where the operator gave one.
    pub fn with_open_override(open_override: Option<u64>) -> (r: PollSchedule)
        ensures
            r.open_ms == (match open_override {
                Some(v) => v,
                None => REST_POLL_RATE_OPEN_MILLIS,
            }),
            r.closed_ms == REST_POLL_RATE_CLOSED_MILLIS,
    {
        let open_ms = match open_override {
            Some(v) => v,
            None => REST_POLL_RATE_OPEN_MILLIS,
        };
        PollSchedule { open_ms, closed_ms: REST_POLL_RATE_CLOSED_MILLIS }
    }
}

/// Market hours, as the trading decisions ask after them.
pub struct MarketHours {}

impl MarketHours {
    /// Whether the market is open at New York time of day `time_ny`: strictly
    /// inside the regular session, or the extended one when
    /// `operate_after_hours`; always open when `open_for_testing`.
    pub fn is_open_at(
        time_ny: u32,
        cal: &MarketCalendar,
        operate_after_hours: bool,
        open_for_testing: bool,
    ) -> (r: bool)
        ensures
            r == (open_for_testing || strictly_inside(time_ny, *cal, operate_after_hours)),
    {
        let inside = if operate_after_hours {
            time_ny > cal.open_ext && time_ny < cal.close_ext
        } else {
            time_ny > cal.open && time_ny < cal.close
        };
        open_for_testing || inside
    }

    /// Whether the New York market is open now, by the clock.
    pub fn is_open(operate_after_hours: bool, open_for_testing: bool) -> (r: bool)
        ensures
            open_for_testing ==> r,
    {
        let t = ny_time_now();
        let cal = MarketCalendar::new_york();
        MarketHours::is_open_at(t, &cal, operate_after_hours, open_for_testing)
    }

    /// The REST poller's interval at New York time of day `time_ny`: the open
    /// interval inside the selected session, bounds included, the closed
    /// interval outside it.
    pub fn poll_interval(time_ny: u32, cal: &MarketCalendar, extended: bool, sched: &PollSchedule) -> (r:
        u64)
        ensures
            r == interval_at(time_ny, *cal, extended, *sched),
    {
        let inside = if extended {
            cal.open_ext <= time_ny && time_ny <= cal.close_ext
        } else {
            cal.open <= time_ny && time_ny <= cal.close
        };
        if inside {
            sched.open_ms
        } else {
            sched.closed_ms
        }
    }
}

/// Market-hours scheduling: at a time of day inside the selected session the
/// poller uses the open interval, and at one outside it the closed interval.
pub proof fn lemma_poll_interval_by_hours(t: u32, cal: MarketCalendar, extended: bool, sched: PollSchedule)
    ensures
        inside_inclusive(t, cal, extended) ==> interval_at(t, cal, extended, sched) == sched.open_ms,
        !inside_inclusive(t, cal, extended) ==> interval_at(t, cal, extended, sched) == sched.closed_ms,
{
}

} // verus!
