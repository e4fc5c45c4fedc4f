use smmo_bot::text::{i64_to_string, u64_to_string};
use smmo_bot::time::{Duration, Timestamp};
use smmo_bot::utils::duration_pretty;

#[test]
fn decimal_text() {
    assert_eq!(u64_to_string(0), "0");
    assert_eq!(u64_to_string(1234567890), "1234567890");
    assert_eq!(u64_to_string(u64::MAX), "18446744073709551615");
    assert_eq!(i64_to_string(-42), "-42");
    assert_eq!(i64_to_string(i64::MIN), "-9223372036854775808");
    assert_eq!(i64_to_string(i64::MAX), "9223372036854775807");
}

#[test]
fn timestamp_range() {
    assert!(Timestamp::new(0, 0).is_some());
    assert!(Timestamp::new(10_000_000_000_000, 999_999_999).is_some());
    assert!(Timestamp::new(10_000_000_000_001, 0).is_none());
    assert!(Timestamp::new(-10_000_000_000_001, 0).is_none());
    assert!(Timestamp::new(5, 1_000_000_000).is_none());
}

#[test]
fn duration_range_matches_chrono() {
    let lim = i64::MAX / 1000;
    assert!(Duration::new(lim, 807_000_000).is_some());
    assert!(Duration::new(lim, 807_000_001).is_none());
    assert!(Duration::new(-lim - 1, 193_000_000).is_some());
    assert!(Duration::new(-lim - 1, 192_999_999).is_none());
    assert!(Duration::new(lim + 1, 0).is_none());
    assert!(Duration::new(0, 1_000_000_000).is_none());
}

#[test]
fn whole_units_round_toward_zero() {
    let d = Duration { secs: -2, nanos: 500_000_000 };
    assert_eq!(d.num_seconds(), -1);
    let d = Duration::seconds(-3661);
    assert_eq!(d.num_seconds(), -3661);
    assert_eq!(d.num_minutes(), -61);
    assert_eq!(d.num_hours(), -1);
    assert_eq!(d.num_days(), 0);
    let d = Duration::days(3);
    assert_eq!(d.num_hours(), 72);
    assert_eq!(d.num_days(), 3);
}

#[test]
fn subtraction_and_addition() {
    let a = Timestamp { secs: 10, nanos: 0 };
    let b = Timestamp { secs: 5, nanos: 500_000_000 };
    assert_eq!(a.signed_duration_since(&b), Duration { secs: 4, nanos: 500_000_000 });
    assert_eq!(b.signed_duration_since(&a), Duration { secs: -5, nanos: 500_000_000 });
    let s = Duration { secs: 1, nanos: 700_000_000 }.add(&Duration { secs: 2, nanos: 600_000_000 });
    assert_eq!(s, Duration { secs: 4, nanos: 300_000_000 });
    assert!(b.is_before(&a));
    assert!(!a.is_before(&b));
    assert!(!a.is_before(&a));
}

#[test]
fn pretty_durations() {
    assert_eq!(duration_pretty(Duration::seconds(0)), "0 hours 0 mins 0 secs.");
    assert_eq!(duration_pretty(Duration::seconds(3661)), "1 hours 1 mins 1 secs.");
    assert_eq!(duration_pretty(Duration::seconds(90061)), "1 days, 1 hours 1 mins 1 secs.");
    assert_eq!(duration_pretty(Duration::seconds(-3661)), "-1 hours -1 mins -1 secs.");
    assert_eq!(duration_pretty(Duration::seconds(-90061)), "-1 hours -1 mins -1 secs.");
    assert_eq!(duration_pretty(Duration { secs: 59, nanos: 999_999_999 }), "0 hours 0 mins 59 secs.");
}

#[test]
fn pretty_parts_add_back_up() {
    // 2 days, 7 hours, 33 minutes, 20 seconds
    let secs: i64 = 2 * 86_400 + 7 * 3600 + 33 * 60 + 20;
    assert_eq!(duration_pretty(Duration::seconds(secs)), "2 days, 7 hours 33 mins 20 secs.");
}

#[test]
fn clock_reads_a_valid_recent_instant() {
    let t = Timestamp::now().unwrap();
    assert!(t.nanos < 1_000_000_000);
    assert!(t.secs > 1_600_000_000);
    assert!(Timestamp::new(t.secs, t.nanos).is_some());
}
