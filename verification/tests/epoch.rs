use chrono::{DateTime, Duration, TimeZone, Utc};
use paged_stream::Epoch;

#[test]
fn the_default_instant_is_in_april_2022() {
    assert_eq!(Epoch::default_after(), Epoch { millis: 1_649_203_261_000 });
}

#[test]
fn the_default_instant_is_the_calendar_date() {
    let date = Utc.with_ymd_and_hms(2022, 4, 6, 0, 1, 1).unwrap();
    assert_eq!(Epoch::default_after().millis, date.timestamp_millis());
    let back = DateTime::from_timestamp_millis(Epoch::default_after().millis).unwrap();
    assert_eq!(back.to_rfc3339(), "2022-04-06T00:01:01+00:00");
}

#[test]
fn the_successor_is_one_millisecond_later() {
    assert_eq!(Epoch { millis: 100 }.successor(), Epoch { millis: 101 });
    assert_eq!(Epoch { millis: 0 }.successor(), Epoch { millis: 1 });
    assert_eq!(Epoch { millis: -1 }.successor(), Epoch { millis: 0 });
    assert_eq!(Epoch { millis: 999 }.successor(), Epoch { millis: 1000 });
    assert_eq!(Epoch { millis: i64::MAX - 1 }.successor(), Epoch { millis: i64::MAX });
    assert_eq!(Epoch { millis: i64::MIN }.successor(), Epoch { millis: i64::MIN + 1 });
}

#[test]
fn the_successor_is_what_adding_a_millisecond_gives() {
    for millis in [0_i64, 999, 1_649_203_261_000, 1_700_000_000_999, -1, -1_000, 253_402_300_799_999] {
        let date = DateTime::from_timestamp_millis(millis).unwrap();
        let later = date + Duration::milliseconds(1);
        assert_eq!(Epoch { millis }.successor().millis, later.timestamp_millis());
    }
}

#[test]
fn instants_compare_by_their_milliseconds() {
    assert_eq!(Epoch { millis: 5 }, Epoch { millis: 5 });
    assert_ne!(Epoch { millis: 5 }, Epoch { millis: 6 });
    let copy = Epoch { millis: 5 };
    let same = copy;
    assert_eq!(copy, same);
}
