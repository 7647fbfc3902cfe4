use chrono::TimeZone;
use xirr::calendar::days_between;
use xirr::calendar::same_day;
use xirr::calendar::timestamp_representable;
use xirr::calendar::whole_years_between;
use xirr::calendar::MAX_TIMESTAMP_MILLIS;
use xirr::calendar::MIN_TIMESTAMP_MILLIS;

const DAY: i64 = 86_400_000;

#[test]
fn days_between_truncates_fractional_days() {
    assert_eq!(days_between(0, 0), 0);
    assert_eq!(days_between(0, DAY - 1), 0);
    assert_eq!(days_between(0, DAY), 1);
    // 365.25 days of milliseconds: one mean year, truncated to whole days.
    assert_eq!(days_between(0, 31_557_600_000), 365);
    assert_eq!(days_between(-DAY, DAY), 2);
}

#[test]
fn same_day_within_and_across_midnight() {
    // 1970-01-01: first and last millisecond of the day.
    assert!(same_day(0, DAY - 1));
    // Midnight of 1970-01-02 is the next calendar day.
    assert!(!same_day(0, DAY));
    // 2020-12-31 versus 2021-01-01.
    assert!(!same_day(1_609_372_800_000, 1_609_459_200_000));
    // Morning and evening of 2021-06-01.
    assert!(same_day(1_622_519_345_000, 1_622_570_400_000));
}

#[test]
fn same_day_agrees_with_chrono() {
    let samples: [i64; 6] =
        [0, DAY - 1, DAY, 1_609_372_800_000, -1, MIN_TIMESTAMP_MILLIS + 1_000];
    for &a in samples.iter() {
        for &b in samples.iter() {
            let da = chrono::Utc.timestamp_millis_opt(a).unwrap();
            let db = chrono::Utc.timestamp_millis_opt(b).unwrap();
            let expected = chrono::Datelike::year(&da) == chrono::Datelike::year(&db)
                && chrono::Datelike::ordinal(&da) == chrono::Datelike::ordinal(&db);
            assert_eq!(same_day(a, b), expected);
        }
    }
}

#[test]
fn whole_years_counts_completed_periods() {
    let one_common_year: i64 = 365 * DAY;
    // 1970-01-01 to 1971-01-01: one completed year.
    assert_eq!(whole_years_between(0, one_common_year), Some(1));
    // One millisecond short of the anniversary: none completed.
    assert_eq!(whole_years_between(0, one_common_year - 1), Some(0));
    // 1970-01-01 to 1970-12-31: still within the first year.
    assert_eq!(whole_years_between(0, 364 * DAY), Some(0));
    // Reversed by a whole year: rejected.
    assert_eq!(whole_years_between(one_common_year, 0), None);
    // Reversed by a day only: still rejected — any reversal counts.
    assert_eq!(whole_years_between(DAY, 0), None);
}

#[test]
fn whole_years_agrees_with_chrono() {
    let samples: [i64; 9] = [
        0,
        DAY,
        364 * DAY,
        365 * DAY,
        1_582_934_400_000, // 2020-02-29
        1_614_470_400_000, // 2021-02-28
        -400 * DAY,
        3_600_000,              // 1970-01-01T01:00
        365 * DAY + 3_599_999,  // one millisecond before that time next year
    ];
    for &earlier in samples.iter() {
        for &later in samples.iter() {
            let de = chrono::Utc.timestamp_millis_opt(earlier).unwrap();
            let dl = chrono::Utc.timestamp_millis_opt(later).unwrap();
            assert_eq!(whole_years_between(earlier, later), dl.years_since(de));
        }
    }
}

#[test]
fn representable_range_matches_chrono() {
    assert!(timestamp_representable(0));
    assert!(timestamp_representable(MIN_TIMESTAMP_MILLIS));
    assert!(timestamp_representable(MAX_TIMESTAMP_MILLIS));
    assert!(!timestamp_representable(MIN_TIMESTAMP_MILLIS - 1));
    assert!(!timestamp_representable(MAX_TIMESTAMP_MILLIS + 1));
    assert!(chrono::Utc.timestamp_millis_opt(MIN_TIMESTAMP_MILLIS).single().is_some());
    assert!(chrono::Utc.timestamp_millis_opt(MAX_TIMESTAMP_MILLIS).single().is_some());
    assert!(chrono::Utc.timestamp_millis_opt(MIN_TIMESTAMP_MILLIS - 1).single().is_none());
    assert!(chrono::Utc.timestamp_millis_opt(MAX_TIMESTAMP_MILLIS + 1).single().is_none());
}
