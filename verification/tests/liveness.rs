use discord_bot::liveness::{
    minute_of_timestamp, probe_reply, LivenessTracker, STATUS_OK, STATUS_SERVICE_UNAVAILABLE,
};

#[test]
fn minute_of_timestamp_rounds_towards_zero() {
    assert_eq!(minute_of_timestamp(0), 0);
    assert_eq!(minute_of_timestamp(59), 0);
    assert_eq!(minute_of_timestamp(60), 1);
    assert_eq!(minute_of_timestamp(600), 10);
    assert_eq!(minute_of_timestamp(1_700_000_000), 28_333_333);
    assert_eq!(minute_of_timestamp(-1), 0);
    assert_eq!(minute_of_timestamp(-59), 0);
    assert_eq!(minute_of_timestamp(-60), -1);
    assert_eq!(minute_of_timestamp(-61), -1);
    assert_eq!(minute_of_timestamp(i64::MAX), i64::MAX / 60);
    assert_eq!(minute_of_timestamp(i64::MIN), i64::MIN / 60);
}

#[test]
fn new_tracker_reads_zero() {
    let tracker = LivenessTracker::new();
    assert_eq!(tracker.last_recorded(), 0);
    assert_eq!(tracker.minutes_since_last_record(10), 10);
}

#[test]
fn age_is_now_minus_last_record() {
    let mut tracker = LivenessTracker::new();
    tracker.record_success_at(100);
    assert_eq!(tracker.last_recorded(), 100);
    assert_eq!(tracker.minutes_since_last_record(106), 6);
    assert_eq!(tracker.minutes_since_last_record(106), 6);
    assert_eq!(tracker.minutes_since_last_record(100), 0);
}

#[test]
fn age_is_negative_when_the_clock_went_back() {
    let tracker = LivenessTracker::at(100);
    assert_eq!(tracker.minutes_since_last_record(97), -3);
    let reply = tracker.probe(97, 5);
    assert_eq!(reply.status, STATUS_OK);
    assert_eq!(reply.body, "-3");
}

#[test]
fn record_overwrites_even_with_an_older_minute() {
    let mut tracker = LivenessTracker::at(100);
    tracker.record_success_at(200);
    assert_eq!(tracker.last_recorded(), 200);
    tracker.record_success_at(50);
    assert_eq!(tracker.last_recorded(), 50);
}

#[test]
fn checked_age_is_absent_on_overflow() {
    let tracker = LivenessTracker::at(i64::MIN);
    assert_eq!(tracker.checked_minutes_since_last_record(0), None);
    assert_eq!(tracker.checked_minutes_since_last_record(-1), Some(i64::MAX));
    let tracker = LivenessTracker::at(1);
    assert_eq!(tracker.checked_minutes_since_last_record(i64::MIN), None);
    assert_eq!(tracker.checked_minutes_since_last_record(7), Some(6));
}

#[test]
fn probe_boundary_at_threshold() {
    let tracker = LivenessTracker::at(100);
    let at = tracker.probe(105, 5);
    assert_eq!(at.status, 200);
    assert_eq!(at.body, "5");
    let past = tracker.probe(106, 5);
    assert_eq!(past.status, 503);
    assert_eq!(past.body, "6");
}

#[test]
fn probe_reply_for_ages_around_threshold() {
    for threshold in [-2i64, 0, 5, 60] {
        for age in [threshold - 1, threshold, threshold + 1] {
            let reply = probe_reply(age, threshold);
            let expected = if age > threshold { STATUS_SERVICE_UNAVAILABLE } else { STATUS_OK };
            assert_eq!(reply.status, expected);
            assert_eq!(reply.body, format!("{}", age));
        }
    }
}

#[test]
fn probe_is_fresh_right_after_a_record() {
    let mut tracker = LivenessTracker::new();
    tracker.record_success_at(28_333_333);
    let reply = tracker.probe(28_333_333, 5);
    assert_eq!(reply.status, 200);
    assert_eq!(reply.body, "0");
}

#[test]
fn probe_is_stale_before_the_first_cycle() {
    let tracker = LivenessTracker::new();
    let now = minute_of_timestamp(600);
    let reply = tracker.probe(now, 5);
    assert_eq!(reply.status, 503);
    assert_eq!(reply.body, "10");
}

#[test]
fn status_codes() {
    assert_eq!(STATUS_OK, 200);
    assert_eq!(STATUS_SERVICE_UNAVAILABLE, 503);
}

#[test]
fn checked_probe_answers_where_the_age_fits() {
    let tracker = LivenessTracker::at(100);
    let reply = tracker.checked_probe(111, 5).expect("the age fits");
    assert_eq!(reply.status, 503);
    assert_eq!(reply.body, "11");
    let reply = tracker.checked_probe(100, 0).expect("the age fits");
    assert_eq!(reply.status, 200);
    assert_eq!(reply.body, "0");
}

#[test]
fn checked_probe_is_absent_on_overflow() {
    assert!(LivenessTracker::at(i64::MIN).checked_probe(0, 5).is_none());
    assert!(LivenessTracker::at(i64::MAX).checked_probe(-2, 5).is_none());
    let reply = LivenessTracker::at(i64::MAX).checked_probe(-1, 5).expect("the age fits");
    assert_eq!(reply.status, 200);
    assert_eq!(reply.body, "-9223372036854775808");
}

#[test]
fn minute_of_the_wall_clock_records_and_probes_fresh() {
    let seconds = chrono::Utc::now().timestamp();
    let minute = minute_of_timestamp(seconds);
    assert_eq!(minute, seconds / 60);
    let mut tracker = LivenessTracker::new();
    let stale = tracker.checked_probe(minute, 5).expect("the age of minute zero fits");
    assert_eq!(stale.status, 503);
    assert_eq!(stale.body, format!("{}", minute));
    tracker.record_success_at(minute);
    let fresh = tracker.checked_probe(minute, 5).expect("the age fits");
    assert_eq!(fresh.status, 200);
    assert_eq!(fresh.body, "0");
}
