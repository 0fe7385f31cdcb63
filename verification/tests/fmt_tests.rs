use ollama_core::fmt::{format_bytes, speed_label, u64_to_dec};

#[test]
fn decimal_rendering_is_exact() {
    assert_eq!(u64_to_dec(0), "0");
    assert_eq!(u64_to_dec(7), "7");
    assert_eq!(u64_to_dec(10), "10");
    assert_eq!(u64_to_dec(12345), "12345");
    assert_eq!(u64_to_dec(u64::MAX), "18446744073709551615");
}

#[test]
fn byte_counts_below_a_kilobyte_are_plain() {
    assert_eq!(format_bytes(0), "0 B");
    assert_eq!(format_bytes(500), "500 B");
    assert_eq!(format_bytes(1023), "1023 B");
}

#[test]
fn byte_counts_scale_with_one_decimal() {
    assert_eq!(format_bytes(1024), "1.0 KB");
    assert_eq!(format_bytes(1536), "1.5 KB");
    assert_eq!(format_bytes(1048576), "1.0 MB");
    assert_eq!(format_bytes(1572864), "1.5 MB");
    assert_eq!(format_bytes(1073741824), "1.0 GB");
    assert_eq!(format_bytes(5368709120), "5.0 GB");
}

#[test]
fn speed_label_shows_both_counts_mid_download() {
    assert_eq!(speed_label(250, 1000), "250 B / 1000 B");
    assert_eq!(speed_label(1536, 1048576), "1.5 KB / 1.0 MB");
}

#[test]
fn speed_label_is_empty_outside_mid_download() {
    assert_eq!(speed_label(0, 1000), "");
    assert_eq!(speed_label(1000, 1000), "");
    assert_eq!(speed_label(5, 0), "");
}
