use chrono::{DateTime, Utc};
use sntry::time::{format_ymd, format_ymd_hms_utc, Timestamp};

const MIN_SECS: i64 = -8_334_601_228_800;
const MAX_SECS: i64 = 8_210_266_876_799;

#[test]
fn representable_range_matches_chrono() {
    assert_eq!(DateTime::<Utc>::MIN_UTC.timestamp(), MIN_SECS);
    assert_eq!(DateTime::<Utc>::MAX_UTC.timestamp(), MAX_SECS);
    assert!(Timestamp::from_parts(MIN_SECS, 0).is_some());
    assert!(Timestamp::from_parts(MIN_SECS - 1, 0).is_none());
    assert!(Timestamp::from_parts(MAX_SECS, 999_999_999).is_some());
    assert!(Timestamp::from_parts(MAX_SECS + 1, 0).is_none());
    assert!(Timestamp::from_parts(i64::MIN, 0).is_none());
    assert!(Timestamp::from_parts(i64::MAX, 0).is_none());
}

#[test]
fn leap_second_nanoseconds_only_at_second_59() {
    assert!(Timestamp::from_parts(59, 1_500_000_000).is_some());
    assert!(Timestamp::from_parts(-1, 1_999_999_999).is_some());
    assert!(Timestamp::from_parts(58, 1_000_000_000).is_none());
    assert!(Timestamp::from_parts(59, 2_000_000_000).is_none());
    assert!(Timestamp::from_parts(0, 999_999_999).is_some());
    assert!(Timestamp::from_parts(0, u32::MAX).is_none());
}

#[test]
fn now_reads_the_clock() {
    let now = Timestamp::now().expect("the clock reads after 1970");
    let chrono_now = Utc::now().timestamp();
    assert!(now.secs() >= 0);
    assert!(now.nanos() < 1_000_000_000);
    assert!((now.secs() - chrono_now).abs() <= 2);
}

/// The proleptic Gregorian date of a day counted from 1970-01-01.
fn civil_date(days: i64) -> (i64, i64, i64) {
    let z = days + 719_468;
    let era = z.div_euclid(146_097);
    let doe = z - era * 146_097;
    let yoe = (doe - doe / 1460 + doe / 36_524 - doe / 146_096) / 365;
    let doy = doe - (365 * yoe + yoe / 4 - yoe / 100);
    let mp = (5 * doy + 2) / 153;
    let d = doy - (153 * mp + 2) / 5 + 1;
    let m = if mp < 10 { mp + 3 } else { mp - 9 };
    let y = yoe + era * 400;
    (if m <= 2 { y + 1 } else { y }, m, d)
}

fn year_text(y: i64) -> String {
    if (0..=9999).contains(&y) {
        format!("{y:04}")
    } else {
        let sign = if y < 0 { '-' } else { '+' };
        format!("{sign}{:04}", y.abs())
    }
}

fn ymd(secs: i64) -> String {
    let (y, m, d) = civil_date(secs.div_euclid(86_400));
    format!("{}-{:02}-{:02}", year_text(y), m, d)
}

fn ymd_hms(secs: i64, nanos: u32) -> String {
    let sod = secs.rem_euclid(86_400);
    format!(
        "{} {:02}:{:02}:{:02} UTC",
        ymd(secs),
        sod / 3600,
        sod / 60 % 60,
        sod % 60 + (nanos / 1_000_000_000) as i64
    )
}

#[test]
fn date_texts_follow_the_civil_calendar() {
    let mut samples = vec![0i64, -1, 86_399, 86_400, 951_782_400, 1_704_067_200, MIN_SECS, MAX_SECS, -62_135_596_800, -62_167_219_200, -62_167_219_201, 253_402_300_799, 253_402_300_800];
    let mut x: u64 = 0x2545_f491_4f6c_dd1d;
    for _ in 0..50_000 {
        x ^= x << 13;
        x ^= x >> 7;
        x ^= x << 17;
        let span = (MAX_SECS - MIN_SECS) as u64;
        samples.push(MIN_SECS + (x % span) as i64);
    }
    for secs in samples {
        let t = Timestamp::from_parts(secs, 0).unwrap();
        assert_eq!(format_ymd(&t), ymd(secs), "secs {secs}");
        assert_eq!(format_ymd_hms_utc(&t), ymd_hms(secs, 0), "secs {secs}");
        assert_eq!(format_ymd(&t), DateTime::from_timestamp(secs, 0).unwrap().format("%Y-%m-%d").to_string());
    }
    let leap = Timestamp::from_parts(59, 1_500_000_000).unwrap();
    assert_eq!(format_ymd_hms_utc(&leap), "1970-01-01 00:00:60 UTC");
    assert_eq!(format_ymd_hms_utc(&leap), ymd_hms(59, 1_500_000_000));
}
