use archivefs_cli::format::{civil_from_days, format_system_time, format_unix_timestamp, human_size};

// The original formatting: f64 division by 1024 and `{:.1}`.
fn float_human_size(bytes: u64) -> String {
    const UNITS: [&str; 5] = ["B", "KiB", "MiB", "GiB", "TiB"];
    if bytes < 1024 {
        return format!("{bytes} B");
    }
    let mut value = bytes as f64;
    let mut unit = 0;
    while value >= 1024.0 && unit < UNITS.len() - 1 {
        value /= 1024.0;
        unit += 1;
    }
    format!("{value:.1} {}", UNITS[unit])
}

#[test]
fn human_size_examples() {
    assert_eq!(human_size(0), "0 B");
    assert_eq!(human_size(1023), "1023 B");
    assert_eq!(human_size(1024), "1.0 KiB");
    assert_eq!(human_size(1536), "1.5 KiB");
    assert_eq!(human_size(10 * 1024 * 1024), "10.0 MiB");
    assert_eq!(human_size(u64::MAX), "16777216.0 TiB");
}

#[test]
fn human_size_matches_floating_point_formatting() {
    let mut samples: Vec<u64> = Vec::new();
    for shift in 0..64u32 {
        let base = 1u64 << shift;
        for delta in [0u64, 1, 2, 3, 51, 52, 101, 102, 103, 511, 512, 513] {
            samples.push(base.wrapping_add(delta));
            samples.push(base.wrapping_sub(delta));
        }
    }
    for tenth in 0..40u64 {
        samples.push(1024 * tenth / 10 * 1024);
        samples.push(1024 * 1024 * tenth / 20 + 1);
        samples.push((1024 * 1024 * 1024 / 20) * tenth);
    }
    let mut state: u64 = 0x9E37_79B9_7F4A_7C15;
    for _ in 0..20_000 {
        state ^= state << 13;
        state ^= state >> 7;
        state ^= state << 17;
        samples.push(state >> (state % 60));
    }
    for bytes in samples {
        assert_eq!(human_size(bytes), float_human_size(bytes), "bytes = {bytes}");
    }
}

#[test]
fn unix_timestamps() {
    assert_eq!(format_unix_timestamp(0), "1970-01-01 00:00:00 UTC");
    assert_eq!(format_unix_timestamp(951_782_400), "2000-02-29 00:00:00 UTC");
    assert_eq!(format_unix_timestamp(1_700_000_000), "2023-11-14 22:13:20 UTC");
    assert_eq!(format_unix_timestamp(4_102_444_799), "2099-12-31 23:59:59 UTC");
    assert_eq!(format_system_time(Ok(86_399)), "1970-01-01 23:59:59 UTC");
    assert_eq!(format_system_time(Err(42)), "before UNIX epoch by 42s");
}

#[test]
fn civil_dates() {
    assert_eq!(civil_from_days(0), (1970, 1, 1));
    assert_eq!(civil_from_days(-1), (1969, 12, 31));
    assert_eq!(civil_from_days(11_016), (2000, 2, 29));
    assert_eq!(civil_from_days(-719_468), (0, 3, 1));
    assert_eq!(civil_from_days(2_932_896), (9999, 12, 31));
    let mut previous = civil_from_days(-800_000);
    for day in -799_999..800_000i64 {
        let next = civil_from_days(day);
        assert!(next > previous, "day {day}: {next:?} after {previous:?}");
        previous = next;
    }
}
