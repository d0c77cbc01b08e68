use hdr_merge_master::text::{
    contains_str, decimal_string, join_strings, parse_unsigned_str, push_padded3, push_zero_padded,
    sort_texts, split_settings_list, split_text, starts_with_str, trim_str,
};

#[test]
fn parses_unsigned_numbers_like_str_parse() {
    assert_eq!(parse_unsigned_str("6", 255), Some(6));
    assert_eq!(parse_unsigned_str("+12", 255), Some(12));
    assert_eq!(parse_unsigned_str("255", 255), Some(255));
    assert_eq!(parse_unsigned_str("256", 255), None);
    assert_eq!(parse_unsigned_str("", 255), None);
    assert_eq!(parse_unsigned_str("+", 255), None);
    assert_eq!(parse_unsigned_str(" 5", 255), None);
    assert_eq!(parse_unsigned_str("-1", 255), None);
    assert_eq!(parse_unsigned_str("007", 255), Some(7));
    assert_eq!(parse_unsigned_str("4294967295", 4294967295), Some(4294967295));
    assert_eq!(parse_unsigned_str("4294967296", 4294967295), None);
    for n in [0u64, 9, 10, 99, 100, 12345] {
        assert_eq!(parse_unsigned_str(&decimal_string(n), u64::MAX), Some(n));
    }
}

#[test]
fn splits_settings_lists() {
    assert_eq!(split_settings_list(" .tif, .tiff ,,.png,"), vec![".tif", ".tiff", ".png"]);
    assert!(split_settings_list("").is_empty());
    assert!(split_settings_list(" , ").is_empty());
}

#[test]
fn joined_list_reads_back() {
    let items = vec!["Merged".to_string(), "tif".to_string(), "jpg".to_string()];
    let joined = join_strings(&items, ",");
    assert_eq!(joined, "Merged,tif,jpg");
    assert_eq!(split_settings_list(&joined), items);
    assert_eq!(join_strings(&[], ","), "");
}

#[test]
fn trims_unicode_white_space() {
    assert_eq!(trim_str("  a b \t\n"), "a b");
    assert_eq!(trim_str("\u{3000}x\u{a0}"), "x");
    assert_eq!(trim_str("   "), "");
}

#[test]
fn finds_text() {
    assert!(contains_str("landscape nd8 nd400", "nd400"));
    assert!(!contains_str("nd4", "nd400"));
    assert!(contains_str("abc", ""));
    assert!(starts_with_str("align_set_3_0001.tif", "align_set_3_"));
    assert!(!starts_with_str("align_set_31_0001.tif", "align_set_3_"));
}

#[test]
fn pads_numbers() {
    let mut s = String::new();
    push_padded3(&mut s, 7);
    s.push(' ');
    push_padded3(&mut s, 42);
    s.push(' ');
    push_padded3(&mut s, 1234);
    assert_eq!(s, "007 042 1234");
    let mut t = String::new();
    push_zero_padded(&mut t, 12, 4);
    assert_eq!(t, "0012");
}

#[test]
fn sorts_texts() {
    let mut v = vec!["b".to_string(), "a10".to_string(), "a2".to_string(), "".to_string()];
    sort_texts(&mut v);
    assert_eq!(v, vec!["", "a10", "a2", "b"]);
}

#[test]
fn splits_text_like_str_split() {
    assert_eq!(split_text("1/100", '/'), vec!["1", "100"]);
    assert_eq!(split_text("", '/'), vec![""]);
    assert_eq!(split_text("/a/", '/'), vec!["", "a", ""]);
}
