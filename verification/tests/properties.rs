use hsakmt_rs::properties::{
    find_byte, find_property, find_property_text, is_space_byte, parse_decimal, parse_line,
    spells_key, trim_range,
};

#[test]
fn numbers_are_read_in_decimal() {
    assert_eq!(parse_decimal(b"12345", 0, 5), Some(12345));
    assert_eq!(parse_decimal(b"12345", 1, 3), Some(23));
    assert_eq!(parse_decimal(b"+7", 0, 2), Some(7));
    assert_eq!(parse_decimal(b"0", 0, 1), Some(0));
    assert_eq!(parse_decimal(b"007", 0, 3), Some(7));
    assert_eq!(parse_decimal(b"18446744073709551615", 0, 20), Some(u64::MAX));
    assert_eq!(parse_decimal(b"18446744073709551616", 0, 20), None);
    assert_eq!(parse_decimal(b"99999999999999999999", 0, 20), None);
    assert_eq!(parse_decimal(b"", 0, 0), None);
    assert_eq!(parse_decimal(b"+", 0, 1), None);
    assert_eq!(parse_decimal(b"-1", 0, 2), None);
    assert_eq!(parse_decimal(b"1 2", 0, 3), None);
    assert_eq!(parse_decimal(b"0x10", 0, 4), None);
    assert_eq!(parse_decimal(b"1+", 0, 2), None);
}

#[test]
fn bytes_and_keys_are_found() {
    assert_eq!(find_byte(b"a b c", b' ', 0, 5), 1);
    assert_eq!(find_byte(b"a b c", b' ', 2, 5), 3);
    assert_eq!(find_byte(b"a b c", b' ', 4, 5), 5);
    assert_eq!(find_byte(b"a b c", b'x', 0, 5), 5);
    assert!(spells_key(b"width 64", 0, 5, "width"));
    assert!(!spells_key(b"width 64", 0, 4, "width"));
    assert!(!spells_key(b"widtH 64", 0, 5, "width"));
    assert!(spells_key(b"", 0, 0, ""));
    assert!(is_space_byte(b' ') && is_space_byte(b'\t') && is_space_byte(b'\r') && is_space_byte(b'\n'));
    assert!(!is_space_byte(b'0') && !is_space_byte(0));
}

#[test]
fn a_line_gives_a_property_with_one_space() {
    assert_eq!(parse_line(b"simd_count 256", 0, 14, "simd_count"), Some(256));
    assert_eq!(parse_line(b"simd_count 256\r", 0, 15, "simd_count"), Some(256));
    assert_eq!(parse_line(b"simd_count\t256", 0, 14, "simd_count"), None);
    assert_eq!(parse_line(b"simd_count  256", 0, 15, "simd_count"), None);
    assert_eq!(parse_line(b"simd_count 256 ", 0, 15, "simd_count"), None);
    assert_eq!(parse_line(b"simd_count", 0, 10, "simd_count"), None);
    assert_eq!(parse_line(b"simd_count 256", 0, 14, "simd"), None);
    assert_eq!(parse_line(b"simd_count abc", 0, 14, "simd_count"), None);
    assert_eq!(parse_line(b"xsimd_count 256", 1, 15, "simd_count"), Some(256));
}

#[test]
fn the_last_line_with_the_property_counts() {
    let text = b"cpu_cores_count 0\nsimd_count 256\nmem_banks_count 1\nsimd_count 512\nbad line here\n";
    assert_eq!(find_property(text, "simd_count"), Some(512));
    assert_eq!(find_property(text, "cpu_cores_count"), Some(0));
    assert_eq!(find_property(text, "mem_banks_count"), Some(1));
    assert_eq!(find_property(text, "caches_count"), None);
    assert_eq!(find_property(text, "bad"), None);
    assert_eq!(find_property(b"", "simd_count"), None);
    assert_eq!(find_property(b"simd_count 3", "simd_count"), Some(3));
    assert_eq!(find_property(b"\n\nsimd_count 3\n\n", "simd_count"), Some(3));
    assert_eq!(find_property(b"simd_count 3\nsimd_count x\n", "simd_count"), Some(3));
}

#[test]
fn the_text_of_a_property_is_found_where_it_stands() {
    let text = b"level 2\nsibling_map 1,0\nsibling_map 1,1,1\ntype 3";
    assert_eq!(find_property_text(text, "sibling_map"), Some((36, 41)));
    assert_eq!(&text[36..41], b"1,1,1");
    assert_eq!(find_property_text(text, "type"), Some((47, 48)));
    assert_eq!(find_property_text(text, "level"), Some((6, 7)));
    assert_eq!(find_property_text(text, "size"), None);
    assert_eq!(find_property_text(b"key ", "key"), Some((4, 4)));
    assert_eq!(trim_range(b"  ab \t", 0, 6), (2, 4));
    assert_eq!(trim_range(b"    ", 0, 4), (4, 4));
    assert_eq!(trim_range(b"ab", 0, 2), (0, 2));
    assert_eq!(trim_range(b" ab ", 1, 3), (1, 3));
}
