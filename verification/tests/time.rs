use agentenv_snapshot::info::calendar_time_of;
use agentenv_snapshot::staging::{named_staging_root, new_staging_root};
use agentenv_snapshot::time::{
    system_time_from_unix_ms, utc_date_time, SystemTime, EARLIEST_SECOND, LATEST_SECOND,
};
use std::time::{Duration, UNIX_EPOCH};

#[test]
fn system_time_rounds_seconds_down() {
    assert_eq!(system_time_from_unix_ms(0), SystemTime { secs: 0, nanos: 0 });
    assert_eq!(system_time_from_unix_ms(1500), SystemTime { secs: 1, nanos: 500_000_000 });
    assert_eq!(system_time_from_unix_ms(-1), SystemTime { secs: -1, nanos: 999_000_000 });
    assert_eq!(system_time_from_unix_ms(-1000), SystemTime { secs: -1, nanos: 0 });
    assert_eq!(
        system_time_from_unix_ms(i64::MIN),
        SystemTime { secs: -9_223_372_036_854_776, nanos: 192_000_000 }
    );
    assert_eq!(
        system_time_from_unix_ms(i64::MAX),
        SystemTime { secs: 9_223_372_036_854_775, nanos: 807_000_000 }
    );
}

#[test]
fn system_times_are_ordered_as_their_milliseconds() {
    let times = [i64::MIN, -1001, -1000, -999, -1, 0, 1, 999, 1000, i64::MAX];
    for (i, a) in times.iter().enumerate() {
        for (j, b) in times.iter().enumerate() {
            let s = system_time_from_unix_ms(*a);
            let t = system_time_from_unix_ms(*b);
            assert_eq!((s.secs, s.nanos) < (t.secs, t.nanos), i < j);
        }
    }
}

#[test]
fn calendar_times_are_those_of_chrono() {
    for ms in [0_i64, 1, -1, 1_700_000_000_123, -62_135_596_800_000] {
        let clock = if ms >= 0 {
            UNIX_EPOCH + Duration::from_millis(ms as u64)
        } else {
            UNIX_EPOCH - Duration::from_millis(ms.unsigned_abs())
        };
        let expected = chrono::DateTime::<chrono::Utc>::from(clock);
        let found = calendar_time_of(ms).unwrap();
        assert_eq!(found.timestamp, expected.timestamp());
        assert_eq!(found.subsec_nanos, expected.timestamp_subsec_nanos());
    }
}

#[test]
fn calendar_times_end_where_those_of_chrono_end() {
    assert_eq!(EARLIEST_SECOND, chrono::DateTime::<chrono::Utc>::MIN_UTC.timestamp());
    assert_eq!(LATEST_SECOND, chrono::DateTime::<chrono::Utc>::MAX_UTC.timestamp());
    let at = |secs: i64| utc_date_time(SystemTime { secs, nanos: 999_999_999 });
    assert_eq!(at(EARLIEST_SECOND).unwrap().timestamp, EARLIEST_SECOND);
    assert_eq!(at(LATEST_SECOND).unwrap().subsec_nanos, 999_999_999);
    assert_eq!(at(EARLIEST_SECOND - 1), None);
    assert_eq!(at(LATEST_SECOND + 1), None);
    assert_eq!(at(i64::MIN), None);
    assert_eq!(at(i64::MAX), None);
    assert_eq!(calendar_time_of(i64::MAX), None);
    assert_eq!(calendar_time_of(i64::MIN), None);
}

#[test]
fn staging_roots_stand_under_the_home_directory() {
    assert_eq!(named_staging_root("/home/x", "job"), "/home/x/squash-staging/job");
}

#[test]
fn new_staging_roots_are_named_by_uuids_and_differ() {
    let first = new_staging_root("/h");
    let second = new_staging_root("/h");
    assert_ne!(first, second);
    let name = first.strip_prefix("/h/squash-staging/").unwrap();
    let id = uuid::Uuid::parse_str(name).unwrap();
    assert_eq!(id.get_version_num(), 7);
    assert_eq!(id.to_string(), name);
}
