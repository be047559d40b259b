use pg_temporal::duration::Duration;
use pg_temporal::duration_storage::{duration_recv, duration_send, duration_to_interval, interval_to_duration};
use pg_temporal::error::{Error, IntervalPart};
use pg_temporal::wire::{push_u128_be, push_u32_be, push_u64_be, read_u128_be, read_u32_be, read_u64_be};

fn fields(d: &Duration) -> [i128; 10] {
    [d.years as i128, d.months as i128, d.weeks as i128, d.days as i128, d.hours as i128,
        d.minutes as i128, d.seconds as i128, d.milliseconds as i128, d.microseconds, d.nanoseconds]
}

fn dur(text: &str) -> Duration {
    Duration::parse(text).unwrap()
}

#[test]
fn wire_integers_are_big_endian() {
    let mut out = Vec::new();
    push_u32_be(&mut out, 0x0102_0304);
    push_u64_be(&mut out, 0x0506_0708_090A_0B0C);
    push_u128_be(&mut out, 0x0D0E_0F10_1112_1314_1516_1718_191A_1B1C);
    assert_eq!(out.len(), 28);
    assert_eq!(&out[..4], &[1, 2, 3, 4]);
    assert_eq!(out[4], 5);
    assert_eq!(out[27], 0x1C);
    assert_eq!(read_u32_be(&out, 0), 0x0102_0304);
    assert_eq!(read_u64_be(&out, 4), 0x0506_0708_090A_0B0C);
    assert_eq!(read_u128_be(&out, 12), 0x0D0E_0F10_1112_1314_1516_1718_191A_1B1C);
}

#[test]
fn interval_time_is_split_toward_zero() {
    let d = interval_to_duration(14, 3, 5_400_000_001).unwrap();
    assert_eq!(fields(&d), [0, 14, 0, 3, 1, 30, 0, 0, 1, 0]);
    let d = interval_to_duration(0, 0, -5_400_000_001).unwrap();
    assert_eq!(fields(&d), [0, 0, 0, 0, -1, -30, 0, 0, -1, 0]);
}

#[test]
fn interval_with_mixed_signs_is_refused() {
    assert!(matches!(interval_to_duration(1, -1, 0), Err(Error::Temporal(_))));
}

#[test]
fn interval_round_trip() {
    let d = interval_to_duration(-7, -2, -3_723_000_004).unwrap();
    assert_eq!(duration_to_interval(d).unwrap(), (-7, -2, -3_723_000_004));
}

#[test]
fn duration_to_interval_folds_units() {
    assert_eq!(duration_to_interval(dur("P1Y2M3W4DT5H6M7.008009010S")).unwrap(),
        (14, 25, 5 * 3_600_000_000 + 6 * 60_000_000 + 7_008_009));
}

#[test]
fn duration_to_interval_names_the_part_out_of_range() {
    let mut d = dur("PT0S");
    d.years = 200_000_000;
    assert!(matches!(duration_to_interval(d), Err(Error::IntervalOutOfRange(IntervalPart::Months))));
    let mut d = dur("PT0S");
    d.days = 3_000_000_000;
    assert!(matches!(duration_to_interval(d), Err(Error::IntervalOutOfRange(IntervalPart::Days))));
    let mut d = dur("PT0S");
    d.hours = 3_000_000_000_000;
    assert!(matches!(duration_to_interval(d), Err(Error::IntervalOutOfRange(IntervalPart::Time))));
}

#[test]
fn duration_binary_round_trip() {
    let d = dur("-P1Y2M3DT4H5M6.007008009S");
    let bytes = duration_send(d);
    assert_eq!(bytes.len(), 96);
    assert_eq!(&bytes[..8], &[0xFF; 8]);
    assert_eq!(&bytes[8..16], &[0xFF, 0xFF, 0xFF, 0xFF, 0xFF, 0xFF, 0xFF, 0xFE]);
    assert_eq!(duration_recv(&bytes).unwrap(), d);
    assert!(matches!(duration_recv(&bytes[..95]), Err(Error::BadBinaryLength)));
}
