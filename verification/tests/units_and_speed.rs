//! Unit conversion and rate rendering.

use cirg::network_info::format_speed;
use cirg::units::{gb_micro, mb_of_bytes, pct_micro};

#[test]
fn gigabytes_match_float_division_within_tolerance() {
    let cases: Vec<u64> = vec![
        0,
        1,
        1024,
        1 << 30,
        (1 << 30) + 1,
        500_107_862_016,
        u64::MAX,
    ];
    for b in cases {
        let exact = b as f64 / (1024.0 * 1024.0 * 1024.0);
        let fixed = gb_micro(b) as f64 / 1_000_000.0;
        let tol = if exact > 0.0 { 1e-6 * exact.max(1.0) } else { 1e-6 };
        assert!(
            (fixed - exact).abs() <= tol,
            "bytes {}: fixed {} vs exact {}",
            b,
            fixed,
            exact
        );
    }
}

#[test]
fn one_gigabyte_is_exact() {
    assert_eq!(gb_micro(1 << 30), 1_000_000);
    assert_eq!(gb_micro(3 * (1 << 30)), 3_000_000);
    assert_eq!(gb_micro((1 << 30) / 2), 500_000);
}

#[test]
fn megabytes_and_percentages() {
    assert_eq!(mb_of_bytes(8 * 1024 * 1024 * 1024), 8 * 1024);
    assert_eq!(pct_micro(1, 4), 25_000_000);
    assert_eq!(pct_micro(0, 4), 0);
    assert_eq!(pct_micro(0, 0), 0);
    assert_eq!(pct_micro(4, 4), 100_000_000);
}

#[test]
fn speed_rendering() {
    assert_eq!(format_speed(0), "N/A");
    assert_eq!(format_speed(999), "999 bps");
    assert_eq!(format_speed(1000), "1 Kbps");
    assert_eq!(format_speed(1500), "2 Kbps");
    assert_eq!(format_speed(100_000_000), "100 Mbps");
    assert_eq!(format_speed(1_000_000_000), "1.0 Gbps");
    assert_eq!(format_speed(2_500_000_000), "2.5 Gbps");
    assert_eq!(format_speed(10_000_000_000), "10.0 Gbps");
}
