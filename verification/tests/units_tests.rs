use kusanagi::strfmt::{
    str_contains, str_contains_ci, str_ends_with, str_eq_ci, str_find_char, str_le,
    str_split_char, str_starts_with, str_trim, str_trim_quotes,
};
use kusanagi::units::{
    format_bytes, format_memory, parse_capacity, parse_capacity_to_bytes, parse_capacity_u64,
    parse_memory, parse_u64_str,
};

#[test]
fn memory_quantities_parse_to_bytes() {
    assert_eq!(parse_memory("512Mi"), 512 * 1024 * 1024);
    assert_eq!(parse_memory("2Gi"), 2 * 1024 * 1024 * 1024);
    assert_eq!(parse_memory("3Ki"), 3 * 1024);
    assert_eq!(parse_memory("1Ti"), 1024i64 * 1024 * 1024 * 1024);
    assert_eq!(parse_memory("1000k"), 1_000_000);
    assert_eq!(parse_memory("2M"), 2_000_000);
    assert_eq!(parse_memory("1G"), 1_000_000_000);
    assert_eq!(parse_memory("12345"), 12_345);
}

#[test]
fn fractional_quantities_parse_exactly() {
    assert_eq!(parse_memory("1.5Gi"), 3 * 1024 * 1024 * 1024 / 2);
    assert_eq!(parse_memory("0.25Gi"), 256 * 1024 * 1024);
    assert_eq!(parse_memory("2.Gi"), 2 * 1024 * 1024 * 1024);
    assert_eq!(parse_memory(".5Ki"), 512);
    assert_eq!(parse_capacity_to_bytes("1.5Gi"), 3 * 1024 * 1024 * 1024 / 2);
}

#[test]
fn malformed_memory_reads_zero() {
    assert_eq!(parse_memory(""), 0);
    assert_eq!(parse_memory("Gi"), 0);
    assert_eq!(parse_memory("abcMi"), 0);
    assert_eq!(parse_memory("-5Gi"), 0);
    assert_eq!(parse_memory(".Gi"), 0);
    assert_eq!(parse_memory("1.2.3Gi"), 0);
}

#[test]
fn capacity_parsers_agree_on_binary_suffixes() {
    assert_eq!(parse_capacity("10Gi"), 10 * 1024 * 1024 * 1024);
    assert_eq!(parse_capacity_to_bytes("10Gi"), 10 * 1024 * 1024 * 1024);
    assert_eq!(parse_capacity_to_bytes("500Mi"), 500 * 1024 * 1024);
    assert_eq!(parse_capacity_u64("8Ki"), 8 * 1024);
    assert_eq!(parse_capacity_to_bytes("777"), 777);
}

#[test]
fn byte_counts_render_by_magnitude() {
    assert_eq!(format_bytes(512), "512B");
    assert_eq!(format_bytes(2048), "2Ki");
    assert_eq!(format_bytes(3 * 1024 * 1024), "3Mi");
    assert_eq!(format_bytes(3 * 1024 * 1024 * 1024 / 2), "1.5Gi");
    assert_eq!(format_bytes(1024i64 * 1024 * 1024 * 1024), "1.0Ti");
}

#[test]
fn node_memory_rendering() {
    // 16 GiB reported in KiB scales up to Gi with one decimal.
    assert_eq!(format_memory("16777216Ki"), "16.0Gi");
    // Below a GiB it scales to whole Mi.
    assert_eq!(format_memory("524288Ki"), "512Mi");
    assert_eq!(format_memory("8Gi"), "8.0Gi");
    assert_eq!(format_memory("256Mi"), "256Mi");
    assert_eq!(format_memory("3000m"), "3000m");
}

#[test]
fn decimal_strings_parse_exactly() {
    assert_eq!(parse_u64_str("0"), Some(0));
    assert_eq!(parse_u64_str("18446744073709551615"), Some(u64::MAX));
    assert_eq!(parse_u64_str("18446744073709551616"), None);
    assert_eq!(parse_u64_str("12a"), None);
    assert_eq!(parse_u64_str(""), None);
}

#[test]
fn string_toolkit_behaves() {
    assert!(str_eq_ci("LATEST", "latest"));
    assert!(!str_eq_ci("latest", "late"));
    assert!(str_contains("argocd-server/argocd", "argocd"));
    assert!(!str_contains("pods", "argocd"));
    assert!(str_contains_ci("Successfully Synced", "successfully synced"));
    assert!(str_starts_with("kubelet_volume_stats_used_bytes{x}", "kubelet_volume_stats_used_bytes{"));
    assert!(str_ends_with("10Gi", "Gi"));
    assert_eq!(str_trim("  hello\t\n"), "hello");
    assert_eq!(str_trim("   "), "");
    assert_eq!(str_trim_quotes("\"quoted\""), "quoted");
    assert_eq!(str_find_char("a=b", '='), Some(1));
    assert_eq!(str_find_char("ab", '='), None);
    let parts = str_split_char("a,b,,c", ',');
    assert_eq!(parts, vec!["a", "b", "", "c"]);
    assert!(str_le("alpha", "beta"));
    assert!(str_le("abc", "abcd"));
    assert!(!str_le("b", "ab"));
}
