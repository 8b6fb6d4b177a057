use watch_room::protocol::Time;
use watch_room::time::{convert_time, to_span, Elapsed, MediaSpan, Timestamp};

#[test]
fn wire_time_splits_into_seconds_and_nanoseconds() {
    assert_eq!(convert_time(Time(0)), Timestamp { secs: 0, nanos: 0 });
    assert_eq!(convert_time(Time(1000)), Timestamp { secs: 1, nanos: 0 });
    assert_eq!(convert_time(Time(1500)), Timestamp { secs: 1, nanos: 500_000_000 });
    assert_eq!(
        convert_time(Time(1_600_000_000_123)),
        Timestamp { secs: 1_600_000_000, nanos: 123_000_000 }
    );
}

#[test]
fn wire_time_before_the_epoch_rounds_down() {
    assert_eq!(convert_time(Time(-1)), Timestamp { secs: -1, nanos: 999_000_000 });
    assert_eq!(convert_time(Time(-1000)), Timestamp { secs: -1, nanos: 0 });
    assert_eq!(convert_time(Time(-1001)), Timestamp { secs: -2, nanos: 999_000_000 });
}

#[test]
fn wire_time_at_the_bounds() {
    assert_eq!(
        convert_time(Time(i64::MAX)),
        Timestamp { secs: 9_223_372_036_854_775, nanos: 807_000_000 }
    );
    assert_eq!(
        convert_time(Time(i64::MIN)),
        Timestamp { secs: -9_223_372_036_854_776, nanos: 192_000_000 }
    );
}

#[test]
fn timestamp_counts_nanoseconds() {
    assert_eq!(Timestamp { secs: 3, nanos: 7 }.nanos_since_epoch(), 3_000_000_007);
    assert_eq!(Timestamp { secs: -1, nanos: 999_999_999 }.nanos_since_epoch(), -1);
    assert_eq!(Timestamp::from_nanos(3_000_000_007), Timestamp { secs: 3, nanos: 7 });
    assert_eq!(Timestamp::from_nanos(-1), Timestamp { secs: -1, nanos: 999_999_999 });
    assert_eq!(Timestamp::from_nanos(-1_000_000_000), Timestamp { secs: -1, nanos: 0 });
}

#[test]
fn timestamp_saturates_at_its_bounds() {
    let latest = Timestamp { secs: i64::MAX, nanos: u32::MAX };
    let earliest = Timestamp { secs: i64::MIN, nanos: 0 };
    assert_eq!(Timestamp::from_nanos(i128::MAX), latest);
    assert_eq!(Timestamp::from_nanos(i128::MIN), earliest);
    assert_eq!(Timestamp::from_nanos(latest.nanos_since_epoch()), latest);
    assert_eq!(Timestamp::from_nanos(latest.nanos_since_epoch() + 1), latest);
    assert_eq!(Timestamp::from_nanos(earliest.nanos_since_epoch()), earliest);
    assert_eq!(Timestamp::from_nanos(earliest.nanos_since_epoch() - 1), earliest);
    let high = Timestamp { secs: i64::MAX, nanos: 0 };
    assert_eq!(high.plus(Elapsed { nanos: 10_000_000_000 }), latest);
    assert_eq!(high.plus(Elapsed { nanos: i128::MAX }), latest);
    assert_eq!(earliest.plus(Elapsed { nanos: -1 }), earliest);
    assert_eq!(earliest.plus(Elapsed { nanos: i128::MIN }), earliest);
    assert_eq!(
        high.plus(Elapsed { nanos: 2_000_000_000 }),
        Timestamp { secs: i64::MAX, nanos: 2_000_000_000 }
    );
}

#[test]
fn spans_between_timestamps() {
    let later = Timestamp { secs: 10, nanos: 5 };
    let earlier = Timestamp { secs: 3, nanos: 0 };
    assert_eq!(later.since(&earlier), Elapsed { nanos: 7_000_000_005 });
    assert_eq!(earlier.since(&later), Elapsed { nanos: -7_000_000_005 });
    assert_eq!(earlier.plus(Elapsed { nanos: 7_000_000_005 }), later);
    assert_eq!(later.plus(Elapsed { nanos: -7_000_000_005 }), earlier);
}

#[test]
fn milliseconds_round_toward_zero() {
    assert_eq!(Elapsed { nanos: 0 }.num_milliseconds(), 0);
    assert_eq!(Elapsed { nanos: 999_999 }.num_milliseconds(), 0);
    assert_eq!(Elapsed { nanos: 1_999_999 }.num_milliseconds(), 1);
    assert_eq!(Elapsed { nanos: -999_999 }.num_milliseconds(), 0);
    assert_eq!(Elapsed { nanos: -1_999_999 }.num_milliseconds(), -1);
    assert_eq!(Elapsed { nanos: 10_000_000_000 }.num_milliseconds(), 10_000);
    assert_eq!(Elapsed { nanos: i128::MAX }.num_milliseconds(), i64::MAX);
    assert_eq!(Elapsed { nanos: i128::MIN }.num_milliseconds(), i64::MIN);
}

#[test]
fn wall_time_becomes_media_time() {
    assert_eq!(to_span(Elapsed { nanos: 10_000_000_000 }), MediaSpan(10_000));
    assert_eq!(to_span(Elapsed { nanos: -2_500_000 }), MediaSpan(-2));
}

#[test]
fn media_spans_add_and_saturate() {
    assert_eq!(MediaSpan(5).plus(MediaSpan(7)), MediaSpan(12));
    assert_eq!(MediaSpan(5).plus(MediaSpan(-7)), MediaSpan(-2));
    assert_eq!(MediaSpan(i64::MAX).plus(MediaSpan(1)), MediaSpan(i64::MAX));
    assert_eq!(MediaSpan(i64::MIN).plus(MediaSpan(-1)), MediaSpan(i64::MIN));
    assert_eq!(MediaSpan(i64::MAX).plus(MediaSpan(i64::MIN)), MediaSpan(-1));
}
