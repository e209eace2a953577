use policy_casbin::calendar::{epoch_to_ymdhms, MAX_EPOCH_SECS, MIN_EPOCH_SECS};
use policy_casbin::clock::{marker, now_marker, rfc3339_millis, rfc3339_now_millis};

#[test]
fn timestamps_have_calendar_times() {
    assert_eq!(epoch_to_ymdhms(0), (1970, 1, 1, 0, 0, 0));
    assert_eq!(epoch_to_ymdhms(-1), (1969, 12, 31, 23, 59, 59));
    assert_eq!(epoch_to_ymdhms(951_782_400), (2000, 2, 29, 0, 0, 0));
    assert_eq!(epoch_to_ymdhms(951_868_800), (2000, 3, 1, 0, 0, 0));
    assert_eq!(epoch_to_ymdhms(1_700_000_000), (2023, 11, 14, 22, 13, 20));
    assert_eq!(epoch_to_ymdhms(4_107_542_400), (2100, 3, 1, 0, 0, 0));
    assert_eq!(epoch_to_ymdhms(4_107_542_399), (2100, 2, 28, 23, 59, 59));
    assert_eq!(epoch_to_ymdhms(-62_167_219_200), (0, 1, 1, 0, 0, 0));
}

#[test]
fn the_range_of_timestamps_ends_where_years_do() {
    assert_eq!(
        epoch_to_ymdhms(MIN_EPOCH_SECS),
        (-2_147_483_600, 3, 1, 0, 0, 0)
    );
    assert_eq!(
        epoch_to_ymdhms(MAX_EPOCH_SECS),
        (2_147_483_647, 12, 31, 23, 59, 59)
    );
}

#[test]
fn consecutive_days_follow_each_other() {
    let (mut year, mut month, mut day) = (1970, 1, 1);
    for n in 0..200_000i64 {
        assert_eq!(epoch_to_ymdhms(n * 86_400 + 3661), (year, month, day, 1, 1, 1));
        let leap = year % 4 == 0 && (year % 100 != 0 || year % 400 == 0);
        let length = match month {
            2 => 28 + u32::from(leap),
            4 | 6 | 9 | 11 => 30,
            _ => 31,
        };
        day += 1;
        if day > length {
            day = 1;
            month += 1;
        }
        if month > 12 {
            month = 1;
            year += 1;
        }
    }
}

#[test]
fn timestamps_are_written_as_rfc_3339() {
    assert_eq!(
        rfc3339_millis(0, 0),
        Some("1970-01-01T00:00:00.000Z".to_string())
    );
    assert_eq!(
        rfc3339_millis(1_700_000_000, 7),
        Some("2023-11-14T22:13:20.007Z".to_string())
    );
    assert_eq!(
        rfc3339_millis(253_402_300_800, 999),
        Some("10000-01-01T00:00:00.999Z".to_string())
    );
    assert_eq!(
        rfc3339_millis(MAX_EPOCH_SECS as u64, 0),
        Some("2147483647-12-31T23:59:59.000Z".to_string())
    );
    assert_eq!(rfc3339_millis(MAX_EPOCH_SECS as u64 + 1, 0), None);
    assert_eq!(rfc3339_millis(u64::MAX, 0), None);
}

#[test]
fn markers_name_the_second() {
    assert_eq!(marker(0), "@0");
    assert_eq!(marker(1_700_000_000), "@1700000000");
    assert_eq!(marker(u64::MAX), "@18446744073709551615");
}

#[test]
fn the_clock_is_read() {
    let secs: u64 = now_marker()[1..].parse().unwrap();
    assert!(secs > 1_600_000_000);
    let stamp = rfc3339_now_millis().unwrap();
    assert!(stamp.as_str() > "2020-01-01T00:00:00.000Z");
    assert_eq!(stamp.len(), 24);
    assert!(stamp.ends_with('Z'));
    assert_eq!(&stamp[..4], &rfc3339_millis(secs, 0).unwrap()[..4]);
}
