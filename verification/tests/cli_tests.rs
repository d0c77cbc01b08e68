use hdr_merge_master::cli::{
    apply_cli_options, cli_folder_entry, collect_folder_requests, is_image_extension,
    resolve_align, resolve_profile, BatchEntry, BatchFile, CliTally, Commands,
};
use hdr_merge_master::config::ProcessSettings;
use hdr_merge_master::scan_folder::{ScanResult, ScannedFile};

fn entry(path: &str, profile: Option<&str>) -> BatchEntry {
    BatchEntry {
        path: path.to_string(),
        profile: profile.map(|p| p.to_string()),
        align: Some(true),
        extension: None,
    }
}

#[test]
fn folders_come_from_batch_then_folder_then_command() {
    let batch = Some(BatchFile {
        folders: vec![entry("C:/path/to/folder1", Some("Default")), entry("C:/path/to/folder2", None)],
    });
    let folder = vec!["/shots/day1".to_string()];
    let command = Some(Commands::Process { folders: vec!["/a".to_string(), "/b".to_string()] });
    let profile = Some("Landscape".to_string());
    let r = collect_folder_requests(&batch, &folder, &command, &profile);
    let got: Vec<(&str, Option<&str>, Option<bool>)> =
        r.iter().map(|q| (q.path.as_str(), q.profile.as_deref(), q.align)).collect();
    assert_eq!(
        got,
        vec![
            ("C:/path/to/folder1", Some("Default"), Some(true)),
            ("C:/path/to/folder2", None, Some(true)),
            ("/shots/day1", Some("Landscape"), None),
            ("/a", Some("Landscape"), None),
            ("/b", Some("Landscape"), None),
        ]
    );
}

#[test]
fn batch_entry_alignment_overrides_the_default() {
    let mut e = entry("/x", None);
    e.align = Some(false);
    let batch = Some(BatchFile { folders: vec![e, BatchEntry { align: None, ..entry("/y", None) }] });
    let r = collect_folder_requests(&batch, &Vec::new(), &None, &None);
    assert!(!resolve_align(r[0].align, true));
    assert!(resolve_align(r[1].align, true));
    assert!(!resolve_align(r[1].align, false));
    assert!(resolve_align(Some(true), false));
}

#[test]
fn no_folders_requested() {
    let r = collect_folder_requests(&None, &Vec::new(), &None, &None);
    assert!(r.is_empty());
}

#[test]
fn profile_resolution_order() {
    let configured = "pp3 default".to_string();
    assert_eq!(resolve_profile(&Some("A".to_string()), &Some("B".to_string()), &configured), "A");
    assert_eq!(resolve_profile(&None, &Some("B".to_string()), &configured), "B");
    assert_eq!(resolve_profile(&None, &None, &configured), "pp3 default");
}

fn scanned(n: usize, brackets: u32) -> ScanResult {
    let files = (0..n)
        .map(|i| ScannedFile { path: format!("f{}.dng", i), exposure_time: None, f_number: None, iso: None })
        .collect();
    ScanResult { files, is_raw: true, brackets, sets: 0 }
}

#[test]
fn headless_folder_entry() {
    let e = cli_folder_entry("/x".to_string(), "Night".to_string(), true, scanned(7, 3)).unwrap();
    assert_eq!(e.path, "/x");
    assert_eq!(e.profile, "Night");
    assert_eq!(e.extension, "");
    assert!(e.is_raw && e.align);
    assert_eq!(e.brackets, 3);
    assert_eq!(e.sets, 2);
    assert_eq!(e.files.len(), 7);
    assert!(cli_folder_entry("/y".to_string(), "Night".to_string(), false, scanned(0, 1)).is_none());
}

#[test]
fn command_line_options_override_settings() {
    let mut s = ProcessSettings::default();
    s.do_recursive = true;
    s.use_opencv_merge_robertson = true;
    apply_cli_options(&mut s, 300, true, true, true, true, false, "Drago".to_string());
    assert_eq!(s.threads, 44);
    assert!(s.do_cleanup && s.do_align && s.use_opencv_align && s.use_opencv_merge);
    assert!(!s.use_opencv_tonemap);
    assert_eq!(s.tonemap_operator, "Drago");
    assert!(s.do_recursive && s.use_opencv_merge_robertson);
    apply_cli_options(&mut s, 6, false, false, false, false, true, "Reinhard".to_string());
    assert_eq!(s.threads, 6);
}

#[test]
fn image_extensions_for_recursive_scan() {
    for e in ["tif", "TIFF", "jpg", "Jpeg", "png", "dng", "CR2", "cr3", "nef", "arw", "raf", "orf", "rw2", "pef"] {
        assert!(is_image_extension(e), "{}", e);
    }
    for e in ["exr", "txt", "", "tiff2"] {
        assert!(!is_image_extension(e), "{}", e);
    }
}

#[test]
fn cli_run_with_no_folders_exits_with_status_one() {
    let tally = CliTally::new(0);
    assert_eq!(tally.exit_status(), 1);
}

#[test]
fn cli_run_exit_status_counts_failures() {
    let mut tally = CliTally::new(3);
    tally.record_outcome(&Ok("done".to_string()));
    tally.record_outcome(&Ok("done".to_string()));
    assert_eq!((tally.succeeded, tally.failed), (2, 0));
    tally.record_no_sets();
    assert_eq!((tally.succeeded, tally.failed), (2, 1));
    assert_eq!(tally.exit_status(), 1);

    let mut ok = CliTally::new(2);
    ok.record_outcome(&Ok(String::new()));
    ok.record_outcome(&Ok(String::new()));
    assert_eq!(ok.exit_status(), 0);

    let mut failed = CliTally::new(1);
    failed.record_outcome(&Err("Folder does not exist: /x".to_string()));
    assert_eq!((failed.succeeded, failed.failed), (0, 1));
    assert_eq!(failed.exit_status(), 1);
}
