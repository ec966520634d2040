//! The minute at which the poll loop last finished a cycle, and what the
//! liveness probe answers from it.

use vstd::prelude::*;
use crate::decimal::{decimal_i64, decimal_of_int};

verus! {

/// Status with which the probe answers while the monitor is alive.
pub const STATUS_OK: u16 = 200;

/// Status with which the probe answers once the monitor has stalled.
pub const STATUS_SERVICE_UNAVAILABLE: u16 = 503;

/// The minute in which a time given in seconds falls: the quotient by sixty,
/// rounded towards zero.
pub open spec fn minute_of_timestamp_spec(seconds: int) -> int {
    if seconds >= 0 {
        seconds / 60
    } else {
        -((-seconds) / 60)
    }
}

/// Age, in minutes, of a record made at `last` when read at `now`.
pub open spec fn age_minutes(last: int, now: int) -> int {
    now - last
}

/// Whether an age is beyond what the threshold allows.
pub open spec fn is_stale(age: int, threshold: int) -> bool {
    age > threshold
}

/// The status that the probe answers with for an age.
pub open spec fn probe_status(age: int, threshold: int) -> u16 {
    if is_stale(age, threshold) {
        STATUS_SERVICE_UNAVAILABLE
    } else {
        STATUS_OK
    }
}

/// Whether an age fits in 64 bits.
pub open spec fn age_fits(last: int, now: int) -> bool {
    i64::MIN <= age_minutes(last, now) <= i64::MAX
}

/// The minute in which the time `seconds` falls.
pub fn minute_of_timestamp(seconds: i64) -> (minute: i64)
    ensures
        minute == minute_of_timestamp_spec(seconds as int),
        is_clock_minute(minute as int),
{
    if seconds >= 0 {
        seconds / 60
    } else if seconds == i64::MIN {
        -(i64::MAX / 60)
    } else {
        -((-seconds) / 60)
    }
}

/// Whether `minute` lies no further from zero than the minute of a time
/// that fits in 64 bits can.
pub open spec fn is_clock_minute(minute: int) -> bool {
    -(i64::MAX / 60) <= minute <= i64::MAX / 60
}

/// The minute of the last finished poll cycle; zero until one has finished.
#[derive(Clone, Copy, Debug)]
pub struct LivenessTracker {
    last_minute: i64,
}

impl View for LivenessTracker {
    type V = int;

    /// The minute last recorded.
    closed spec fn view(&self) -> int {
        self.last_minute as int
    }
}

/// What the probe answers to one request.
#[derive(Clone, Debug)]
pub struct ProbeReply {
    /// The status of the answer.
    pub status: u16,
    /// The age of the last record in minutes, in decimal.
    pub body: String,
}

/// Whether `reply` is the answer at minute `now` to a last record at `last`:
/// the age in decimal as the body, and as the status service-unavailable
/// where the age is above `threshold`, ok otherwise.
pub open spec fn is_reply_at(last: int, now: int, threshold: int, reply: ProbeReply) -> bool {
    &&& reply.status == probe_status(age_minutes(last, now), threshold)
    &&& reply.body@ == decimal_of_int(age_minutes(last, now))
}

/// Whether `reply` is what a probe that guards against overflow gives at
/// minute `now` for a last record at `last`: the answer where the age fits in
/// 64 bits, nothing where it does not.
pub open spec fn is_checked_reply_at(
    last: int,
    now: int,
    threshold: int,
    reply: Option<ProbeReply>,
) -> bool {
    match reply {
        Some(r) => age_fits(last, now) && is_reply_at(last, now, threshold, r),
        None => !age_fits(last, now),
    }
}

impl LivenessTracker {
    /// A tracker on which nothing was recorded yet.
    pub fn new() -> (tracker: Self)
        ensures
            tracker@ == 0,
    {
        LivenessTracker { last_minute: 0 }
    }

    /// A tracker whose last record is `minute`.
    pub fn at(minute: i64) -> (tracker: Self)
        ensures
            tracker@ == minute,
    {
        LivenessTracker { last_minute: minute }
    }

    /// The minute last recorded.
    pub fn last_recorded(&self) -> (minute: i64)
        ensures
            minute == self@,
    {
        self.last_minute
    }

    /// Records that a poll cycle finished in `minute`. The earlier record is
    /// overwritten, whether it is older or not.
    pub fn record_success_at(&mut self, minute: i64)
        ensures
            final(self)@ == minute,
    {
        self.last_minute = minute;
    }

    /// Minutes from the last record to `now`; negative where `now` lies
    /// before the record. The difference must fit in 64 bits.
    pub fn minutes_since_last_record(&self, now: i64) -> (age: i64)
        requires
            age_fits(self@, now as int),
        ensures
            age == age_minutes(self@, now as int),
    {
        now - self.last_minute
    }

    /// Minutes from the last record to `now`, or nothing where the
    /// difference does not fit in 64 bits.
    pub fn checked_minutes_since_last_record(&self, now: i64) -> (age: Option<i64>)
        ensures
            age == (if age_fits(self@, now as int) {
                Some(age_minutes(self@, now as int) as i64)
            } else {
                None
            }),
    {
        now.checked_sub(self.last_minute)
    }

    /// What the probe answers at minute `now`: the age of the last record as
    /// the body, and as the status service-unavailable where that age is
    /// above `threshold`, ok otherwise.
    pub fn probe(&self, now: i64, threshold: i64) -> (reply: ProbeReply)
        requires
            age_fits(self@, now as int),
        ensures
            is_reply_at(self@, now as int, threshold as int, reply),
    {
        let age = self.minutes_since_last_record(now);
        probe_reply(age, threshold)
    }

    /// What the probe answers at minute `now`, or nothing where the age of
    /// the last record does not fit in 64 bits.
    pub fn checked_probe(&self, now: i64, threshold: i64) -> (reply: Option<ProbeReply>)
        ensures
            is_checked_reply_at(self@, now as int, threshold as int, reply),
    {
        match self.checked_minutes_since_last_record(now) {
            Some(age) => Some(probe_reply(age, threshold)),
            None => None,
        }
    }
}

/// What the probe answers for an age: the age in decimal as the body, and as
/// the status service-unavailable where the age is above `threshold`, ok
/// otherwise.
pub fn probe_reply(age: i64, threshold: i64) -> (reply: ProbeReply)
    ensures
        reply.status == probe_status(age as int, threshold as int),
        reply.body@ == decimal_of_int(age as int),
        reply.status == STATUS_SERVICE_UNAVAILABLE <==> age > threshold,
        reply.status == STATUS_OK <==> age <= threshold,
{
    let body = decimal_i64(age);
    if age > threshold {
        ProbeReply { status: STATUS_SERVICE_UNAVAILABLE, body }
    } else {
        ProbeReply { status: STATUS_OK, body }
    }
}

/// The probe reports a stall exactly for the ages above the threshold: an
/// age equal to the threshold is still answered with ok, the next one with
/// service-unavailable.
pub proof fn lemma_probe_status_boundary(age: int, threshold: int)
    ensures
        probe_status(age, threshold) == STATUS_SERVICE_UNAVAILABLE <==> age > threshold,
        probe_status(age, threshold) == STATUS_OK <==> age <= threshold,
        probe_status(threshold, threshold) == STATUS_OK,
        probe_status(threshold + 1, threshold) == STATUS_SERVICE_UNAVAILABLE,
{
}

/// Right after a record, read in the minute of the record, the age is zero:
/// the probe answers ok under any threshold that is not negative, with the
/// body `0`.
pub proof fn lemma_fresh_after_record(now: int, threshold: int)
    requires
        threshold >= 0,
    ensures
        age_minutes(now, now) == 0,
        probe_status(age_minutes(now, now), threshold) == STATUS_OK,
        decimal_of_int(age_minutes(now, now)) =~= seq!['0'],
{
}

/// A tracker on which nothing was recorded reads as stale as soon as the
/// clock has passed the threshold.
pub proof fn lemma_never_recorded_is_stale(tracker: LivenessTracker, now: int, threshold: int)
    requires
        tracker@ == 0,
        now > threshold,
    ensures
        probe_status(age_minutes(tracker@, now), threshold) == STATUS_SERVICE_UNAVAILABLE,
{
}

/// The minute of a time that fits in 64 bits is a clock minute.
pub proof fn lemma_minute_of_timestamp_is_clock_minute(seconds: i64)
    ensures
        is_clock_minute(minute_of_timestamp_spec(seconds as int)),
{
}

/// The age between two clock minutes always fits in 64 bits, and so does the
/// age at a clock minute of a tracker on which nothing was recorded.
pub proof fn lemma_age_of_clock_minutes_fits(last: int, now: int)
    requires
        is_clock_minute(last),
        is_clock_minute(now),
    ensures
        age_fits(last, now),
        age_fits(0, now),
{
}

} // verus!
