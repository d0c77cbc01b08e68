use hdr_merge_master::scan_folder::{
    detect_brackets, has_listed_extension, read_exif_data, scan_folder, sort_by_path, ScannedFile,
};

fn file(path: &str, exposure: Option<&str>, f_number: Option<&str>, iso: Option<&str>) -> ScannedFile {
    ScannedFile {
        path: path.to_string(),
        exposure_time: exposure.map(|s| s.to_string()),
        f_number: f_number.map(|s| s.to_string()),
        iso: iso.map(|s| s.to_string()),
    }
}

#[test]
fn test_bracket_detection_pattern() {
    // Create a mock sequence: A, B, C, A, B, C (brackets = 3, sets = 2)
    let files = vec![
        ScannedFile {
            path: "img001.dng".to_string(),
            exposure_time: Some("1/100".to_string()),
            f_number: Some("f/8".to_string()),
            iso: Some("100".to_string()),
        },
        ScannedFile {
            path: "img002.dng".to_string(),
            exposure_time: Some("1/50".to_string()),
            f_number: Some("f/8".to_string()),
            iso: Some("100".to_string()),
        },
        ScannedFile {
            path: "img003.dng".to_string(),
            exposure_time: Some("1/25".to_string()),
            f_number: Some("f/8".to_string()),
            iso: Some("100".to_string()),
        },
        ScannedFile {
            path: "img004.dng".to_string(),
            exposure_time: Some("1/100".to_string()),
            f_number: Some("f/8".to_string()),
            iso: Some("100".to_string()),
        },
        ScannedFile {
            path: "img005.dng".to_string(),
            exposure_time: Some("1/50".to_string()),
            f_number: Some("f/8".to_string()),
            iso: Some("100".to_string()),
        },
        ScannedFile {
            path: "img006.dng".to_string(),
            exposure_time: Some("1/25".to_string()),
            f_number: Some("f/8".to_string()),
            iso: Some("100".to_string()),
        },
    ];

    let brackets = detect_brackets(&files);
    assert_eq!(brackets, 3);
}

#[test]
fn brackets_default_to_one_without_files() {
    assert_eq!(detect_brackets(&[]), 1);
}

#[test]
fn brackets_default_to_one_without_complete_exif() {
    let files = vec![
        file("a.tif", Some("1/100"), None, Some("100")),
        file("b.tif", None, None, None),
    ];
    assert_eq!(detect_brackets(&files), 1);
}

#[test]
fn brackets_count_distinct_settings_with_partial_last_set() {
    let files = vec![
        file("a.tif", Some("1/100"), Some("8"), Some("100")),
        file("b.tif", Some("1/50"), Some("8"), Some("100")),
        file("c.tif", Some("1/25"), Some("8"), Some("100")),
        file("d.tif", Some("1/100"), Some("8"), Some("100")),
        file("e.tif", Some("1/50"), Some("8"), Some("100")),
    ];
    assert_eq!(detect_brackets(&files), 3);
}

#[test]
fn brackets_count_distinct_settings() {
    let a = file("a", Some("1/100"), Some("f/8"), Some("100"));
    let b = file("b", Some("1/50"), Some("f/8"), Some("100"));
    let c = file("c", Some("1/100"), Some("f/8"), Some("100"));
    assert_eq!(detect_brackets(&[a.clone(), b.clone(), c.clone()]), 2);
    let d = file("d", Some("1/50"), Some("f/8"), Some("100"));
    assert_eq!(detect_brackets(&[a, c, b, d]), 2);
    let iso = file("e", Some("1/100"), Some("f/8"), Some("200"));
    assert_eq!(detect_brackets(&[iso, file("f", Some("1/100"), Some("f/8"), Some("100"))]), 2);
}

#[test]
fn brackets_ignore_files_without_complete_settings() {
    let files = vec![
        file("a.tif", Some("1/100"), Some("8"), Some("100")),
        file("b.tif", None, Some("8"), Some("100")),
        file("c.tif", Some("1/50"), Some("8"), Some("100")),
        file("d.tif", Some("1/100"), Some("8"), Some("100")),
        file("e.tif", Some("1/50"), Some("8"), Some("100")),
    ];
    assert_eq!(detect_brackets(&files), 2);
}

#[test]
fn single_exposure_repeated_is_one_bracket() {
    let files = vec![
        file("a.tif", Some("1/100"), Some("8"), Some("100")),
        file("b.tif", Some("1/100"), Some("8"), Some("100")),
        file("c.tif", Some("1/100"), Some("8"), Some("100")),
    ];
    assert_eq!(detect_brackets(&files), 1);
}

#[test]
fn sort_by_path_orders_and_keeps_files() {
    let mut files = vec![
        file("c.dng", None, None, None),
        file("a.tif", Some("1"), None, None),
        file("b.dng", None, None, None),
        file("a.tif", Some("2"), None, None),
    ];
    sort_by_path(&mut files);
    let paths: Vec<&str> = files.iter().map(|f| f.path.as_str()).collect();
    assert_eq!(paths, vec!["a.tif", "a.tif", "b.dng", "c.dng"]);
    assert_eq!(files[0].exposure_time.as_deref(), Some("1"));
    assert_eq!(files[1].exposure_time.as_deref(), Some("2"));
}

#[test]
fn scan_folder_combines_sorts_and_counts_sets() {
    let processed = vec![
        file("img4.tif", Some("1/50"), Some("8"), Some("100")),
        file("img1.tif", Some("1/100"), Some("8"), Some("100")),
    ];
    let raw = vec![
        file("img3.dng", Some("1/100"), Some("8"), Some("100")),
        file("img2.dng", Some("1/50"), Some("8"), Some("100")),
        file("img5.dng", Some("1/100"), Some("8"), Some("100")),
    ];
    let r = scan_folder(processed, raw);
    let paths: Vec<&str> = r.files.iter().map(|f| f.path.as_str()).collect();
    assert_eq!(paths, vec!["img1.tif", "img2.dng", "img3.dng", "img4.tif", "img5.dng"]);
    assert!(r.is_raw);
    assert_eq!(r.brackets, 2);
    assert_eq!(r.sets, 2);
}

#[test]
fn scan_folder_without_raw_files() {
    let processed = vec![
        file("a.tif", Some("1/100"), Some("8"), Some("100")),
        file("b.tif", Some("1/50"), Some("8"), Some("100")),
        file("c.tif", Some("1/100"), Some("8"), Some("100")),
        file("d.tif", Some("1/50"), Some("8"), Some("100")),
        file("e.tif", Some("1/100"), Some("8"), Some("100")),
    ];
    let r = scan_folder(processed, Vec::new());
    assert!(!r.is_raw);
    assert_eq!(r.brackets, 2);
    assert_eq!(r.sets, 2);
    let empty = scan_folder(Vec::new(), Vec::new());
    assert_eq!(empty.brackets, 1);
    assert_eq!(empty.sets, 0);
    assert!(empty.files.is_empty());
}

#[test]
fn scan_folder_sets_round_down() {
    let processed = vec![
        file("a.tif", Some("1/100"), Some("8"), Some("100")),
        file("b.tif", Some("1/50"), Some("8"), Some("100")),
        file("c.tif", Some("1/100"), Some("8"), Some("100")),
        file("d.tif", Some("1/50"), Some("8"), Some("100")),
        file("e.tif", None, None, None),
    ];
    let r = scan_folder(processed, Vec::new());
    assert_eq!(r.brackets, 2);
    assert_eq!(r.sets, 2);
}

#[test]
fn listed_extensions_ignore_case() {
    let exts = vec![".tif".to_string(), ".TIFF".to_string(), ".png".to_string()];
    assert!(has_listed_extension("TIF", &exts));
    assert!(has_listed_extension("tiff", &exts));
    assert!(has_listed_extension("PnG", &exts));
    assert!(!has_listed_extension("dng", &exts));
    assert!(!has_listed_extension("", &exts));
    assert!(!has_listed_extension("tif", &[]));
}

/// A little-endian TIFF file whose EXIF data gives the exposure settings and size.
pub fn tiff_with_exif() -> Vec<u8> {
    let mut b: Vec<u8> = Vec::new();
    b.extend_from_slice(b"II");
    b.extend_from_slice(&42u16.to_le_bytes());
    b.extend_from_slice(&8u32.to_le_bytes());
    // IFD0 at 8: 3 entries -> 2 + 3*12 + 4 = 42 bytes, ends at 50.
    let entry = |b: &mut Vec<u8>, tag: u16, typ: u16, count: u32, value: u32| {
        b.extend_from_slice(&tag.to_le_bytes());
        b.extend_from_slice(&typ.to_le_bytes());
        b.extend_from_slice(&count.to_le_bytes());
        b.extend_from_slice(&value.to_le_bytes());
    };
    b.extend_from_slice(&3u16.to_le_bytes());
    entry(&mut b, 0x0100, 3, 1, 4000);
    entry(&mut b, 0x0101, 3, 1, 3000);
    entry(&mut b, 0x8769, 4, 1, 50);
    b.extend_from_slice(&0u32.to_le_bytes());
    // Exif IFD at 50: 3 entries -> 42 bytes, ends at 92; rationals at 92 and 100.
    b.extend_from_slice(&3u16.to_le_bytes());
    entry(&mut b, 0x829a, 5, 1, 92);
    entry(&mut b, 0x829d, 5, 1, 100);
    entry(&mut b, 0x8827, 3, 1, 100);
    b.extend_from_slice(&0u32.to_le_bytes());
    b.extend_from_slice(&1u32.to_le_bytes());
    b.extend_from_slice(&100u32.to_le_bytes());
    b.extend_from_slice(&8u32.to_le_bytes());
    b.extend_from_slice(&1u32.to_le_bytes());
    b
}

#[test]
fn read_exif_data_reads_exposure_settings() {
    let data = tiff_with_exif();
    let f = read_exif_data("shot.tif".to_string(), &data);
    assert_eq!(f.path, "shot.tif");
    assert_eq!(f.exposure_time.as_deref(), Some("1/100"));
    assert_eq!(f.f_number.as_deref(), Some("8"));
    assert_eq!(f.iso.as_deref(), Some("100"));
}

#[test]
fn read_exif_data_without_exif() {
    let f = read_exif_data("plain.png".to_string(), b"not an image at all");
    assert_eq!(f.path, "plain.png");
    assert!(f.exposure_time.is_none());
    assert!(f.f_number.is_none());
    assert!(f.iso.is_none());
}
