use dcf77::DCF77Time;

// 2024-03-15, a Friday, 14:37 CET.
const SAMPLE: u64 = 0x0090_7152_96f4_0000;

fn bcd(n: u64) -> u64 {
    (n % 10) | ((n / 10) << 4)
}

fn parity(v: u64, lo: u32, hi: u32) -> u64 {
    (((v >> lo) & ((1u64 << (hi - lo)) - 1)).count_ones() & 1) as u64
}

fn with_minutes(m: u64) -> u64 {
    let v = bcd(m) << 21;
    v | (parity(v, 21, 28) << 28)
}

fn with_hours(h: u64) -> u64 {
    let v = bcd(h) << 29;
    v | (parity(v, 29, 35) << 35)
}

fn with_date(year: u64, month: u64, day: u64, weekday: u64) -> u64 {
    let v = (bcd(day) << 36) | (weekday << 42) | (bcd(month) << 45) | (bcd(year - 2000) << 50);
    v | (parity(v, 36, 58) << 58)
}

#[test]
fn new_keeps_raw_bits() {
    assert_eq!(DCF77Time::new(SAMPLE).0, SAMPLE);
}

#[test]
fn sample_telegram_decodes() {
    let t = DCF77Time::new(SAMPLE);
    assert_eq!(t.validate_start(), Ok(()));
    assert_eq!(t.cest(), Ok(false));
    assert_eq!(t.minutes(), Ok(37));
    assert_eq!(t.hours(), Ok(14));
    assert_eq!(t.day(), Ok(15));
    assert_eq!(t.date(), Ok((2024, 3, 15, 4)));
}

#[test]
fn unchecked_fields_of_sample() {
    let t = DCF77Time::new(SAMPLE);
    assert!(!t.cest_unchecked());
    assert_eq!(t.minutes_unchecked(), 37);
    assert_eq!(t.hours_unchecked(), 14);
    assert_eq!(t.day_unchecked(), 15);
    assert_eq!(t.weekday_unchecked(), 4);
    assert_eq!(t.month_unchecked(), 3);
    assert_eq!(t.year_unchecked(), 2024);
}

#[test]
fn start_bit_must_be_clear() {
    assert_eq!(DCF77Time::new(0).validate_start(), Ok(()));
    assert_eq!(DCF77Time::new(1).validate_start(), Err(()));
    assert_eq!(DCF77Time::new(SAMPLE | 1).validate_start(), Err(()));
    assert_eq!(DCF77Time::new(u64::MAX - 1).validate_start(), Ok(()));
}

#[test]
fn cest_needs_complementary_bits() {
    assert_eq!(DCF77Time::new(1 << 17).cest(), Ok(true));
    assert_eq!(DCF77Time::new(1 << 18).cest(), Ok(false));
    assert_eq!(DCF77Time::new(0).cest(), Err(()));
    assert_eq!(DCF77Time::new((1 << 17) | (1 << 18)).cest(), Err(()));
    assert!(DCF77Time::new((1 << 17) | (1 << 18)).cest_unchecked());
}

#[test]
fn every_valid_minute_decodes_and_parity_flip_fails() {
    for m in 0..60u64 {
        let t = DCF77Time::new(with_minutes(m));
        assert_eq!(t.minutes(), Ok(m as u8));
        let flipped = DCF77Time::new(with_minutes(m) ^ (1 << 28));
        assert_eq!(flipped.minutes(), Err(()));
    }
}

#[test]
fn minutes_out_of_range_fail() {
    // BCD 0x7f: units 15, tens 7, sum 85.
    let v = 0x7fu64 << 21;
    let t = DCF77Time::new(v | (parity(v, 21, 28) << 28));
    assert_eq!(t.minutes_unchecked(), 85);
    assert_eq!(t.minutes(), Err(()));
    // 60 with correct parity.
    assert_eq!(DCF77Time::new(with_minutes(60)).minutes(), Err(()));
}

#[test]
fn minutes_weights_sum() {
    assert_eq!(DCF77Time::new(1 << 27).minutes_unchecked(), 40);
    assert_eq!(DCF77Time::new(1 << 24).minutes_unchecked(), 8);
    assert_eq!(DCF77Time::new(0x7fu64 << 21).minutes_unchecked(), 85);
}

#[test]
fn every_valid_hour_decodes() {
    for h in 0..24u64 {
        assert_eq!(DCF77Time::new(with_hours(h)).hours(), Ok(h as u8));
        assert_eq!(DCF77Time::new(with_hours(h) ^ (1 << 35)).hours(), Err(()));
    }
}

#[test]
fn hours_over_23_fail_whatever_the_parity() {
    for raw in 0..64u64 {
        let v = raw << 29;
        let t = DCF77Time::new(v);
        if t.hours_unchecked() > 23 {
            assert_eq!(t.hours(), Err(()));
            assert_eq!(DCF77Time::new(v | (1 << 35)).hours(), Err(()));
        }
    }
    assert_eq!(DCF77Time::new(0x3fu64 << 29).hours_unchecked(), 45);
    assert_eq!(DCF77Time::new(with_hours(24)).hours(), Err(()));
}

#[test]
fn day_range_check() {
    assert_eq!(DCF77Time::new(bcd(31) << 36).day(), Ok(31));
    assert_eq!(DCF77Time::new(bcd(32) << 36).day(), Err(()));
    assert_eq!(DCF77Time::new(0x3fu64 << 36).day_unchecked(), 45);
    assert_eq!(DCF77Time::new(0x3fu64 << 36).day(), Err(()));
}

#[test]
fn unchecked_weights_of_date_fields() {
    assert_eq!(DCF77Time::new(0x7u64 << 42).weekday_unchecked(), 7);
    assert_eq!(DCF77Time::new(0x1fu64 << 45).month_unchecked(), 25);
    assert_eq!(DCF77Time::new(0xffu64 << 50).year_unchecked(), 2165);
    assert_eq!(DCF77Time::new(0).year_unchecked(), 2000);
}

#[test]
fn date_round_trip() {
    for &(y, m, d, w) in &[
        (2000u64, 1u64, 1u64, 5u64),
        (2024, 3, 15, 4),
        (2099, 12, 31, 3),
        (2031, 7, 9, 0),
        (2050, 10, 20, 6),
    ] {
        let t = DCF77Time::new(with_date(y, m, d, w));
        assert_eq!(t.date(), Ok((y as u16, m as u8, d as u8, w as u8)));
    }
}

#[test]
fn date_single_bit_corruption_fails() {
    let v = with_date(2024, 3, 15, 4);
    for i in 36..=58u32 {
        assert_eq!(DCF77Time::new(v ^ (1u64 << i)).date(), Err(()));
    }
}

#[test]
fn date_range_failures() {
    // Month 13 with correct parity.
    assert_eq!(DCF77Time::new(with_date(2024, 13, 1, 0)).date(), Err(()));
    // Day 32 with correct parity.
    assert_eq!(DCF77Time::new(with_date(2024, 1, 32, 0)).date(), Err(()));
    // Year 2101 with correct parity.
    assert_eq!(DCF77Time::new(with_date(2101, 1, 1, 0)).date(), Err(()));
    // Year 2100 is still accepted.
    assert_eq!(DCF77Time::new(with_date(2100, 1, 1, 7)).date(), Ok((2100, 1, 1, 7)));
}
