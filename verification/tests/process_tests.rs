use hdr_merge_master::ui::setup_dialog::ToneMapChoice;
use hdr_merge_master::config::{FolderEntry, ProcessSettings, Profile};
use hdr_merge_master::process::ev_calc::{exposure_time_text, f_number_text, iso_text, ExposureText};
use hdr_merge_master::process::external_blender::{
    blender_args, blender_file_arg, check_blender_inputs, check_brackets, combine_results,
    get_filter_from_profile, get_resolution_from_file, merged_exr_name,
};
use hdr_merge_master::process::external_luminance::{
    check_exr_files, check_luminance_exe, luminance_args, select_exr_files, tonemap_log_name,
    tonemapped_jpg_name,
};
use hdr_merge_master::process::opencv_align::{keypoint_aligned_name, opencv_aligned_name};
use hdr_merge_master::process::opencv_merge::check_exposure_count;
use hdr_merge_master::process::opencv_tonemap::{check_hdr_files, ToneMappingOperator};
use hdr_merge_master::process::processor::{
    align_image_stack_args, align_prefix, align_tool, check_align_tool, check_folder,
    find_profile_path, hdr_jpg_name, is_raw_extension, merge_jobs, merge_tool,
    raw_conversion_profile, rawtherapee_args, removes_aligned_folder, select_aligned_files,
    select_converted_tifs, set_is_raw, set_log_name, set_range, tonemap_tool, tool_log, AlignTool,
    save_jpg_message, shutdown_message, DirFile, FolderRun, IoMessage, IoWorker, MergeJob, MergeTool, NextSet,
    TonemapTool,
};
use hdr_merge_master::scan_folder::ScannedFile;

fn folder(path: &str, profile: &str, n_files: usize, brackets: u32, sets: u32) -> FolderEntry {
    FolderEntry {
        path: path.to_string(),
        profile: profile.to_string(),
        extension: ".dng".to_string(),
        is_raw: true,
        align: false,
        brackets,
        sets,
        files: (0..n_files)
            .map(|i| ScannedFile { path: format!("f{}", i), exposure_time: None, f_number: None, iso: None })
            .collect(),
    }
}

fn strings(v: &[&str]) -> Vec<String> {
    v.iter().map(|s| s.to_string()).collect()
}

#[test]
fn folder_checks() {
    assert_eq!(check_folder(&folder("/x", "p", 3, 3, 1), false), Err("Folder does not exist: /x".to_string()));
    assert_eq!(check_folder(&folder("/x", "p", 0, 1, 0), true), Err("No files to process in: /x".to_string()));
    assert_eq!(check_folder(&folder("/x", "p", 3, 3, 1), true), Ok(()));
}

#[test]
fn profile_lookup_takes_first_match() {
    let profiles = vec![
        Profile { name: "A".to_string(), file_path: "a1.pp3".to_string(), tag: String::new() },
        Profile { name: "B".to_string(), file_path: "b.pp3".to_string(), tag: String::new() },
        Profile { name: "A".to_string(), file_path: "a2.pp3".to_string(), tag: String::new() },
    ];
    assert_eq!(find_profile_path(&profiles, &"A".to_string()), Some("a1.pp3".to_string()));
    assert_eq!(find_profile_path(&profiles, &"B".to_string()), Some("b.pp3".to_string()));
    assert_eq!(find_profile_path(&profiles, &"C".to_string()), None);
}

#[test]
fn set_ranges() {
    assert_eq!(set_range(0, 3, 7), Some((0, 3)));
    assert_eq!(set_range(1, 3, 7), Some((3, 6)));
    assert_eq!(set_range(2, 3, 7), None);
    assert_eq!(set_range(2, 3, 6), None);
}

#[test]
fn folder_run_counts_sets_and_reports() {
    let mut run = FolderRun::new(3);
    match run.next(3, 7) {
        NextSet::Process { set_idx, start, end } => {
            assert_eq!((set_idx, start, end), (0, 0, 3));
        }
        _ => panic!("first set should be processed"),
    }
    run.finish(Ok(()));
    match run.next(3, 7) {
        NextSet::Process { set_idx, start, end } => assert_eq!((set_idx, start, end), (1, 3, 6)),
        _ => panic!("second set should be processed"),
    }
    run.finish(Err("Blender failed".to_string()));
    assert!(matches!(run.next(3, 7), NextSet::Skipped { set_idx: 2 }));
    assert!(matches!(run.next(3, 7), NextSet::Done));
    assert_eq!(run.completed, 1);
    assert_eq!(run.errors, vec!["Set 2: Blender failed", "Set 3 has incorrect number of files"]);
    assert_eq!(
        run.outcome("1.50"),
        Err("Completed 1/3 sets with 2 errors: Set 2: Blender failed; Set 3 has incorrect number of files".to_string())
    );
}

#[test]
fn folder_run_success_message() {
    let mut run = FolderRun::new(2);
    for _ in 0..2 {
        assert!(matches!(run.next(2, 4), NextSet::Process { .. }));
        run.finish(Ok(()));
    }
    assert!(matches!(run.next(2, 4), NextSet::Done));
    assert_eq!(run.outcome("12.34"), Ok("Successfully processed 2 sets in 12.34s".to_string()));
}

#[test]
fn tool_choices() {
    let mut s = ProcessSettings::default();
    assert_eq!(merge_tool(&s), MergeTool::Blender);
    s.use_rust_merge = true;
    assert_eq!(merge_tool(&s), MergeTool::Rust);
    assert_eq!(tonemap_tool(&s), TonemapTool::Luminance);
    assert_eq!(align_tool(&s), None);
    s.use_opencv_merge_robertson = true;
    assert_eq!(merge_tool(&s), MergeTool::OpenCvRobertson);
    s.use_opencv_merge = true;
    assert_eq!(merge_tool(&s), MergeTool::OpenCvDebevec);
    s.use_opencv_tonemap = true;
    assert_eq!(tonemap_tool(&s), TonemapTool::OpenCv);
    s.do_align = true;
    assert_eq!(align_tool(&s), Some(AlignTool::AlignImageStack));
    s.use_opencv_align = true;
    assert_eq!(align_tool(&s), Some(AlignTool::OpenCv));
    assert!(!removes_aligned_folder(&s));
    s.do_cleanup = true;
    assert!(removes_aligned_folder(&s));
}

#[test]
fn raw_detection() {
    assert!(is_raw_extension("DNG"));
    assert!(is_raw_extension("rw2"));
    assert!(!is_raw_extension("tif"));
    assert!(set_is_raw(&[Some("tif".to_string()), Some("NEF".to_string())]));
    assert!(!set_is_raw(&[Some("tif".to_string()), None]));
    assert!(!set_is_raw(&[]));
}

#[test]
fn raw_conversion_needs_profile_and_program() {
    assert_eq!(
        raw_conversion_profile(&None, &"rt".to_string()),
        Err("No PP3 profile selected for RAW processing".to_string())
    );
    assert_eq!(
        raw_conversion_profile(&Some("p.pp3".to_string()), &String::new()),
        Err("RawTherapee CLI not configured".to_string())
    );
    assert_eq!(raw_conversion_profile(&Some("p.pp3".to_string()), &"rt".to_string()), Ok("p.pp3".to_string()));
    assert_eq!(
        check_align_tool(AlignTool::AlignImageStack, &String::new()),
        Err("align_image_stack not configured".to_string())
    );
    assert_eq!(check_align_tool(AlignTool::OpenCv, &String::new()), Ok(()));
    assert_eq!(check_align_tool(AlignTool::AlignImageStack, &"ais".to_string()), Ok(()));
}

#[test]
fn output_names() {
    assert_eq!(hdr_jpg_name(0), "HDR_set_000.jpg");
    assert_eq!(hdr_jpg_name(12), "HDR_set_012.jpg");
    assert_eq!(hdr_jpg_name(1234), "HDR_set_1234.jpg");
    assert_eq!(set_log_name("rawtherapee", 5), "rawtherapee_set_005.log");
    assert_eq!(set_log_name("align", 10), "align_set_010.log");
    assert_eq!(align_prefix(7), "align_set_7_");
    assert_eq!(merged_exr_name(3), "merged_003.exr");
    assert_eq!(opencv_aligned_name(2, 0), "opencv_set_2_0001.tif");
    assert_eq!(keypoint_aligned_name(2, 11), "opencv_kp_set_2_0012.tif");
    assert_eq!(tonemapped_jpg_name("merged_003"), "merged_003.jpg");
    assert_eq!(tonemap_log_name("merged_003"), "tonemap_merged_003.log");
}

#[test]
fn tool_logs() {
    assert_eq!(
        tool_log("RawTherapee CLI", 2, "\"rt\" \"-p\"", "ok", ""),
        "=== RawTherapee CLI - Set 2 ===\n\nCommand: \"rt\" \"-p\"\n\nSTDOUT:\nok\nSTDERR:\n"
    );
}

#[test]
fn command_arguments() {
    let files = strings(&["a.dng", "b.dng"]);
    assert_eq!(
        rawtherapee_args(&"p.pp3".to_string(), &"/m/tif".to_string(), &files),
        strings(&["-p", "p.pp3", "-o", "/m/tif", "-t", "-c", "a.dng", "b.dng"])
    );
    assert_eq!(
        align_image_stack_args(&"/m/aligned/align_set_0_".to_string(), &files),
        strings(&["-v", "-i", "-l", "-a", "/m/aligned/align_set_0_", "--gpu", "a.dng", "b.dng"])
    );
    assert_eq!(
        luminance_args(&"in.exr".to_string(), &"out.jpg".to_string()),
        strings(&["-l", "in.exr", "--tmo", "reinhard02", "-q", "98", "-o", "out.jpg"])
    );
    let file_args = vec![blender_file_arg("a.tif", "0.000"), blender_file_arg("b.tif", "1.000")];
    assert_eq!(file_args, strings(&["a.tif___0.000", "b.tif___1.000"]));
    assert_eq!(
        blender_args(
            &"HDR_Merge.blend".to_string(),
            &"blender_merge.py".to_string(),
            &"4000x3000".to_string(),
            &"/m/exr/merged_004.exr".to_string(),
            &"ND8".to_string(),
            4,
            &file_args,
        ),
        strings(&[
            "--background", "HDR_Merge.blend", "--factory-startup", "--python", "blender_merge.py", "--",
            "4000x3000", "/m/exr/merged_004.exr", "ND8", "4", "a.tif___0.000", "b.tif___1.000",
        ])
    );
}

fn dir_file(path: &str, name: &str, stem: &str, ext: Option<&str>) -> DirFile {
    DirFile { path: path.to_string(), name: name.to_string(), stem: stem.to_string(), extension: ext.map(|e| e.to_string()) }
}

#[test]
fn selects_converted_and_aligned_files() {
    let entries = vec![
        dir_file("/t/b.tif", "b.tif", "b", Some("tif")),
        dir_file("/t/a.TIFF", "a.TIFF", "a", Some("TIFF")),
        dir_file("/t/c.tif", "c.tif", "c", Some("tif")),
        dir_file("/t/a.jpg", "a.jpg", "a", Some("jpg")),
        dir_file("/t/a", "a", "a", None),
    ];
    assert_eq!(
        select_converted_tifs(&entries, &strings(&["b", "a"])),
        strings(&["/t/a.TIFF", "/t/b.tif"])
    );
    let aligned = vec![
        dir_file("/al/align_set_1_0001.tif", "align_set_1_0001.tif", "align_set_1_0001", Some("tif")),
        dir_file("/al/align_set_1_0000.tif", "align_set_1_0000.tif", "align_set_1_0000", Some("tif")),
        dir_file("/al/align_set_10_0000.tif", "align_set_10_0000.tif", "align_set_10_0000", Some("tif")),
        dir_file("/al/align_set_1_0002.exr", "align_set_1_0002.exr", "align_set_1_0002", Some("exr")),
    ];
    assert_eq!(
        select_aligned_files(&aligned, 1),
        strings(&["/al/align_set_1_0000.tif", "/al/align_set_1_0001.tif"])
    );
    let exrs = vec![
        dir_file("/e/merged_001.exr", "merged_001.exr", "merged_001", Some("EXR")),
        dir_file("/e/merged_000.exr", "merged_000.exr", "merged_000", Some("exr")),
        dir_file("/e/notes.txt", "notes.txt", "notes", Some("txt")),
    ];
    let selected = select_exr_files(&exrs);
    assert_eq!(selected, strings(&["/e/merged_000.exr", "/e/merged_001.exr"]));
    assert_eq!(check_exr_files(&selected), Ok(()));
    assert_eq!(check_exr_files(&[]), Err("No EXR files found for tone mapping".to_string()));
}

#[test]
fn filters_named_by_profiles() {
    assert_eq!(get_filter_from_profile(&folder("/x", "Landscape ND8 + ND400", 1, 1, 1)), "ND8_ND400");
    assert_eq!(get_filter_from_profile(&folder("/x", "nd8 sky", 1, 1, 1)), "ND8");
    assert_eq!(get_filter_from_profile(&folder("/x", "Sea ND400", 1, 1, 1)), "ND400");
    assert_eq!(get_filter_from_profile(&folder("/x", "Default", 1, 1, 1)), "");
}

#[test]
fn resolution_from_exif() {
    let data = tiff_with_size();
    assert_eq!(get_resolution_from_file(&Some(data)), "4000x3000");
    assert_eq!(get_resolution_from_file(&Some(b"garbage".to_vec())), "0x0");
    assert_eq!(get_resolution_from_file(&None), "0x0");
}

fn tiff_with_size() -> Vec<u8> {
    let mut b: Vec<u8> = Vec::new();
    b.extend_from_slice(b"II");
    b.extend_from_slice(&42u16.to_le_bytes());
    b.extend_from_slice(&8u32.to_le_bytes());
    b.extend_from_slice(&2u16.to_le_bytes());
    for (tag, value) in [(0x0100u16, 4000u32), (0x0101u16, 3000u32)] {
        b.extend_from_slice(&tag.to_le_bytes());
        b.extend_from_slice(&4u16.to_le_bytes());
        b.extend_from_slice(&1u32.to_le_bytes());
        b.extend_from_slice(&value.to_le_bytes());
    }
    b.extend_from_slice(&0u32.to_le_bytes());
    b
}

#[test]
fn blender_checks() {
    assert_eq!(check_blender_inputs(0, &"blender".to_string()), Err("No files to merge".to_string()));
    assert_eq!(
        check_blender_inputs(3, &String::new()),
        Err("Blender executable not configured in setup".to_string())
    );
    assert_eq!(check_blender_inputs(3, &"blender".to_string()), Ok(()));
    assert_eq!(check_brackets(0), Err("No brackets detected".to_string()));
    assert_eq!(check_brackets(3), Ok(()));
    assert_eq!(
        check_luminance_exe(&String::new(), true),
        Err("Luminance CLI not configured in setup".to_string())
    );
    assert_eq!(check_luminance_exe(&String::new(), false), Err("Luminance CLI not configured".to_string()));
    assert_eq!(check_luminance_exe(&"lum".to_string(), false), Ok(()));
    assert_eq!(check_exposure_count(3, 3), Ok(()));
    assert_eq!(
        check_exposure_count(3, 2),
        Err("Number of files (3) must match number of exposure times (2)".to_string())
    );
    assert_eq!(check_hdr_files(0), Err("No HDR files to tone map".to_string()));
    assert_eq!(check_hdr_files(1), Ok(()));
}

#[test]
fn first_error_wins() {
    assert_eq!(combine_results(vec![Ok(()), Err("a".to_string()), Err("b".to_string())]), Err("a".to_string()));
    assert_eq!(combine_results(vec![Ok(()), Ok(())]), Ok(()));
    assert_eq!(combine_results(vec![]), Ok(()));
}

#[test]
fn merge_jobs_skip_short_sets() {
    let jobs = merge_jobs(3, 3, 8, 7);
    assert_eq!(
        jobs,
        vec![
            MergeJob { set_idx: 0, start: 0, end: 3, ev_start: 0, ev_end: 3 },
            MergeJob { set_idx: 1, start: 3, end: 6, ev_start: 3, ev_end: 6 },
        ]
    );
    let cut = merge_jobs(2, 3, 6, 5);
    assert_eq!(cut[1], MergeJob { set_idx: 1, start: 3, end: 6, ev_start: 3, ev_end: 5 });
}

#[test]
fn exposure_texts() {
    assert!(matches!(exposure_time_text(" 1/100 "), ExposureText::Fraction { ref numerator, ref denominator } if numerator == "1" && denominator == "100"));
    assert!(matches!(exposure_time_text("0.5"), ExposureText::Single(ref t) if t == "0.5"));
    assert!(matches!(exposure_time_text("1/2/3"), ExposureText::Malformed));
    assert_eq!(f_number_text("f/8"), (Some("8".to_string()), "f/8".to_string()));
    assert_eq!(f_number_text(" F/ 5.6 "), (Some("5.6".to_string()), "F/ 5.6".to_string()));
    assert_eq!(f_number_text("5.6"), (None, "5.6".to_string()));
    assert_eq!(f_number_text("f8"), (None, "f8".to_string()));
    assert_eq!(iso_text("ISO400"), "400");
    assert_eq!(iso_text(" iso 200"), " 200");
    assert_eq!(iso_text("100"), "100");
}

#[test]
fn operator_names() {
    assert_eq!(ToneMappingOperator::default(), ToneMappingOperator::Reinhard);
    assert_eq!(ToneMappingOperator::Drago.name(), "Drago");
    assert_eq!(ToneMappingOperator::Mantiuk.name(), "Mantiuk");
}

#[test]
fn io_worker_queues_and_reports_closed_channel() {
    let (sender, receiver) = std::sync::mpsc::channel();
    let mut worker = IoWorker::from_sender(sender);
    assert_eq!(worker.save_jpg(vec![1, 2, 3], "out.jpg".to_string(), 4), Ok(()));
    match receiver.recv().unwrap() {
        IoMessage::SaveJpg { jpg_data, output_path, set_idx } => {
            assert_eq!(jpg_data, vec![1, 2, 3]);
            assert_eq!(output_path, "out.jpg");
            assert_eq!(set_idx, 4);
        }
        IoMessage::Shutdown => panic!("expected a save"),
    }
    let _ = worker.shutdown();
    assert!(matches!(receiver.recv().unwrap(), IoMessage::Shutdown));
    drop(receiver);
    let (sender, receiver) = std::sync::mpsc::channel();
    drop(receiver);
    let mut worker = IoWorker::from_sender(sender);
    let err = worker.save_jpg(vec![], "x.jpg".to_string(), 0).unwrap_err();
    assert!(err.starts_with("Failed to queue I/O operation: "));
}

#[test]
fn scanned_folder_sets_are_full_and_merge_jobs_cover_them() {
    // 7 files in brackets of 3 give 2 sets; both are full and each job reads its own EXIF range.
    let n = 7usize;
    let b = 3usize;
    let sets = n / b;
    for s in 0..sets {
        assert_eq!(set_range(s, b, n), Some((s * b, s * b + b)));
    }
    let jobs = merge_jobs(sets, b, n, n);
    assert_eq!(jobs.len(), sets);
    for (i, j) in jobs.iter().enumerate() {
        assert_eq!(j.set_idx, i);
        assert_eq!(j.end - j.start, b);
        assert_eq!((j.ev_start, j.ev_end), (j.start, j.end));
    }
}

#[test]
fn opencv_operator_from_setting() {
    assert_eq!(ToneMappingOperator::from_choice(ToneMapChoice::Drago), ToneMappingOperator::Drago);
    assert_eq!(ToneMappingOperator::from_choice(ToneMapChoice::Mantiuk), ToneMappingOperator::Mantiuk);
    assert_eq!(ToneMappingOperator::from_choice(ToneMapChoice::Durand), ToneMappingOperator::Reinhard);
    assert_eq!(ToneMappingOperator::from_choice(ToneMapChoice::Reinhard), ToneMappingOperator::Reinhard);
}

#[test]
fn checked_set_ranges() {
    assert_eq!(hdr_merge_master::process::processor::checked_set_range(1, 3, 6), Ok((3, 6)));
    assert_eq!(
        hdr_merge_master::process::processor::checked_set_range(2, 3, 7),
        Err("Invalid bracket range for set 2: 6-9".to_string())
    );
}

#[test]
fn folder_alignment_decides() {
    let mut s = ProcessSettings::default();
    s.use_opencv_align = true;
    s.tonemap_operator = "Drago".to_string();
    let mut f = folder("/x", "p", 3, 3, 1);
    f.align = true;
    let fs = hdr_merge_master::process::processor::settings_for_folder(&s, &f);
    assert!(fs.do_align);
    assert_eq!(align_tool(&fs), Some(AlignTool::OpenCv));
    assert_eq!(fs.tonemap_operator, "Drago");
    s.do_align = true;
    f.align = false;
    let fs = hdr_merge_master::process::processor::settings_for_folder(&s, &f);
    assert_eq!(align_tool(&fs), None);
}

#[test]
fn io_messages_carry_their_arguments() {
    match save_jpg_message(vec![1, 2, 3], "/out/HDR_set_004.jpg".to_string(), 4) {
        IoMessage::SaveJpg { jpg_data, output_path, set_idx } => {
            assert_eq!(jpg_data, vec![1, 2, 3]);
            assert_eq!(output_path, "/out/HDR_set_004.jpg");
            assert_eq!(set_idx, 4);
        }
        IoMessage::Shutdown => panic!("expected a save"),
    }
    assert!(matches!(shutdown_message(), IoMessage::Shutdown));
}
