use hdr_merge_master::config::{ExePaths, FolderEntry, ProcessSettings, Profile};
use hdr_merge_master::scan_folder::{ScanResult, ScannedFile};
use hdr_merge_master::ui::app::{
    dialog_previous_theme_index, format_exif_info, next_theme_index, previous_theme_index,
    scale_key, BatchState, ExecutionSummary, ScaleKey,
};
use hdr_merge_master::ui::clear_profiles_confirm_dialog::ClearProfilesConfirmDialog;
use hdr_merge_master::ui::edit_profile_dialog::{EditProfileDialog, EditProfileMessage};
use hdr_merge_master::ui::profile_manager_dialog::ProfileManagerDialog;
use hdr_merge_master::ui::setup_dialog::{
    merge_method_of, AlignMethod, MergeMethod, SetupForm, SetupMessage, TonemapMethod, ToneMapChoice,
};

fn strings(v: &[&str]) -> Vec<String> {
    v.iter().map(|s| s.to_string()).collect()
}

#[test]
fn simple_dialogs_open_and_close() {
    let mut c = ClearProfilesConfirmDialog::new();
    assert!(!c.show);
    c.open();
    assert!(c.show);
    c.close();
    assert!(!c.show);
    let mut p = ProfileManagerDialog::new();
    assert!(!p.show);
    p.open();
    assert!(p.show);
    p.close();
    assert!(!p.show);
}

#[test]
fn edit_profile_dialog_round_trip() {
    let mut d = EditProfileDialog::new();
    assert!(!d.show);
    assert_eq!(d.get_result(), (None, String::new(), String::new(), String::new()));
    d.open(2, "Night", "night.pp3", "dark");
    assert!(d.show);
    assert_eq!(d.get_result(), (Some(2), "Night".to_string(), "night.pp3".to_string(), "dark".to_string()));
    d.update(EditProfileMessage::NameChanged("Night 2".to_string()));
    d.update(EditProfileMessage::TagChanged("darker".to_string()));
    d.update(EditProfileMessage::Browse);
    d.update(EditProfileMessage::Save);
    d.update(EditProfileMessage::Cancel);
    assert_eq!(d.get_result(), (Some(2), "Night 2".to_string(), "night.pp3".to_string(), "darker".to_string()));
    d.update(EditProfileMessage::FilePathChanged("n2.pp3".to_string()));
    assert_eq!(d.file_path, "n2.pp3");
    d.close();
    assert!(!d.show);
    assert_eq!(d.get_result().0, None);
}

#[test]
fn tone_map_choice_from_operator() {
    assert_eq!(ToneMapChoice::from_operator("Drago"), ToneMapChoice::Drago);
    assert_eq!(ToneMapChoice::from_operator("Durand"), ToneMapChoice::Durand);
    assert_eq!(ToneMapChoice::from_operator("Mantiuk"), ToneMapChoice::Mantiuk);
    assert_eq!(ToneMapChoice::from_operator("Reinhard"), ToneMapChoice::Reinhard);
    assert_eq!(ToneMapChoice::from_operator("drago"), ToneMapChoice::Reinhard);
}

fn exe_paths() -> ExePaths {
    ExePaths {
        align_image_stack_exe: "ais".to_string(),
        blender_exe: "blender".to_string(),
        luminance_cli_exe: "lum".to_string(),
        rawtherapee_cli_exe: "rt".to_string(),
    }
}

#[test]
fn setup_form_open_then_save_keeps_settings() {
    let mut f = SetupForm::new();
    assert!(!f.show);
    assert_eq!(f.setup_page, "process_page");
    f.open(
        8,
        &strings(&[".tif", ".png"]),
        &strings(&[".dng"]),
        &strings(&["Merged", "jpg"]),
        &"Drago".to_string(),
        "1".to_string(),
        "0.5".to_string(),
        "1".to_string(),
        3,
        &exe_paths(),
    );
    assert!(f.show);
    assert_eq!(f.threads_str, "8");
    assert_eq!(f.processed_exts_str, ".tif,.png");
    assert_eq!(f.ignore_folders_str, "Merged,jpg");
    assert_eq!(f.recursive_max_depth_str, "3");
    let v = f.save();
    assert_eq!(v.threads, 8);
    assert_eq!(v.processed_extensions, strings(&[".tif", ".png"]));
    assert_eq!(v.raw_extensions, strings(&[".dng"]));
    assert_eq!(v.recursive_ignore_folders, strings(&["Merged", "jpg"]));
    assert_eq!(v.tonemap_operator, "Drago");
    assert_eq!(v.recursive_max_depth, 3);
    assert_eq!(v.exe_paths.blender_exe, "blender");
    assert_eq!(v.exe_paths.rawtherapee_cli_exe, "rt");
    f.cancel();
    assert!(!f.show);
}

#[test]
fn setup_form_edits() {
    let mut f = SetupForm::new();
    let mut s = ProcessSettings::default();
    f.update(SetupMessage::ThreadsChanged("abc".to_string()), &mut s);
    f.update(SetupMessage::RecursiveMaxDepthChanged("".to_string()), &mut s);
    f.update(SetupMessage::RawExtensionsChanged(" .NEF , ,.cr2 ".to_string()), &mut s);
    f.update(SetupMessage::BlenderPathChanged("/usr/bin/blender".to_string()), &mut s);
    f.update(SetupMessage::TonemapOperatorSelected("Mantiuk".to_string()), &mut s);
    f.update(SetupMessage::ExePage, &mut s);
    let v = f.save();
    assert_eq!(v.threads, 6);
    assert_eq!(v.recursive_max_depth, 1);
    assert_eq!(v.raw_extensions, strings(&[".NEF", ".cr2"]));
    assert_eq!(v.exe_paths.blender_exe, "/usr/bin/blender");
    assert_eq!(v.tonemap_operator, "Mantiuk");
    assert_eq!(f.setup_page, "exe_page");
    f.update(SetupMessage::FolderPage, &mut s);
    assert_eq!(f.setup_page, "folder_page");
    f.update(SetupMessage::ThreadsChanged("300".to_string()), &mut s);
    assert_eq!(f.save().threads, 6);

    f.update(SetupMessage::ToggleRecursive(true), &mut s);
    f.update(SetupMessage::ToggleCleanup(true), &mut s);
    f.update(SetupMessage::ToggleAlign(true), &mut s);
    f.update(SetupMessage::AlignMethodSelected(AlignMethod::OpenCvAlign), &mut s);
    f.update(SetupMessage::MergeMethodSelected(MergeMethod::OpenCvRobertson), &mut s);
    f.update(SetupMessage::TonemapMethodSelected(TonemapMethod::OpenCv), &mut s);
    assert!(s.do_recursive && s.do_cleanup && s.do_align && s.use_opencv_align);
    assert!(!s.use_opencv_merge && s.use_opencv_merge_robertson && s.use_opencv_tonemap);
    f.update(SetupMessage::MergeMethodSelected(MergeMethod::OpenCvDebevec), &mut s);
    assert!(s.use_opencv_merge && !s.use_opencv_merge_robertson);
    f.update(SetupMessage::MergeMethodSelected(MergeMethod::Rust), &mut s);
    assert!(!s.use_opencv_merge && !s.use_opencv_merge_robertson && s.use_rust_merge);
    assert_eq!(merge_method_of(&s), MergeMethod::Rust);
    f.update(SetupMessage::ToggleRustMergeDebug(true), &mut s);
    assert!(s.rust_merge_debug_export);
    f.update(SetupMessage::MergeMethodSelected(MergeMethod::Blender), &mut s);
    assert!(!s.use_opencv_merge && !s.use_opencv_merge_robertson && !s.use_rust_merge);
    assert_eq!(merge_method_of(&s), MergeMethod::Blender);
    f.update(SetupMessage::AlignMethodSelected(AlignMethod::AlignImageStack), &mut s);
    f.update(SetupMessage::TonemapMethodSelected(TonemapMethod::Luminance), &mut s);
    assert!(!s.use_opencv_align && !s.use_opencv_tonemap);
    assert_eq!(s.threads, 6);
}

fn scan(paths: &[&str], brackets: u32, sets: u32) -> ScanResult {
    ScanResult {
        files: paths
            .iter()
            .map(|p| ScannedFile { path: p.to_string(), exposure_time: None, f_number: None, iso: None })
            .collect(),
        is_raw: false,
        brackets,
        sets,
    }
}

#[test]
fn batch_state_adds_folders_once() {
    let mut b = BatchState::new(Vec::new(), ProcessSettings::default());
    assert_eq!(b.profiles, strings(&["Default", "Landscape", "Portrait", "Night"]));
    let exts = strings(&[".tif", ".tiff"]);
    assert!(b.add_scanned_folder("/a".to_string(), scan(&["/a/1.TIF", "/a/2.TIF"], 2, 1), Some("TIF".to_string()), &exts));
    assert!(!b.add_scanned_folder("/a".to_string(), scan(&[], 1, 0), None, &exts));
    assert!(b.add_scanned_folder("/b".to_string(), scan(&[], 1, 0), None, &exts));
    assert!(b.add_scanned_folder("/c".to_string(), scan(&[], 1, 0), None, &[]));
    assert_eq!(b.batch_folders.len(), 3);
    assert_eq!(b.batch_folders[0].extension, ".tif");
    assert_eq!(b.batch_folders[0].profile, "Default");
    assert_eq!(b.batch_folders[0].brackets, 2);
    assert_eq!(b.batch_folders[0].sets, 1);
    assert_eq!(b.batch_folders[1].extension, ".tif");
    assert_eq!(b.batch_folders[2].extension, ".tiff");
    assert!(b.has_folder(&"/b".to_string()));
    assert!(!b.has_folder(&"/d".to_string()));
}

fn entry(path: &str) -> FolderEntry {
    FolderEntry {
        path: path.to_string(),
        profile: "Default".to_string(),
        extension: ".tif".to_string(),
        is_raw: false,
        align: false,
        brackets: 1,
        sets: 0,
        files: Vec::new(),
    }
}

#[test]
fn batch_state_selection_and_folder_edits() {
    let mut b = BatchState::new(Vec::new(), ProcessSettings::default());
    b.import_folders(vec![entry("/a"), entry("/b"), entry("/c")]);
    assert_eq!(b.status_message, "Import successful");
    b.select_profile("Night".to_string());
    assert!(b.batch_folders.iter().all(|f| f.profile == "Default"));
    b.select_folder(1);
    b.select_profile("Night".to_string());
    assert_eq!(b.batch_folders[1].profile, "Night");
    b.set_folder_profile(2, "Portrait".to_string());
    b.set_folder_profile(9, "Portrait".to_string());
    assert_eq!(b.batch_folders[2].profile, "Portrait");
    b.toggle_folder_align(0, true);
    b.toggle_folder_align(5, true);
    assert!(b.batch_folders[0].align && !b.batch_folders[1].align);
    b.remove_selected();
    assert_eq!(b.selected_index, None);
    let paths: Vec<&str> = b.batch_folders.iter().map(|f| f.path.as_str()).collect();
    assert_eq!(paths, vec!["/a", "/c"]);
    b.select_folder(7);
    b.remove_selected();
    assert_eq!(b.batch_folders.len(), 2);
    assert_eq!(b.selected_index, Some(7));
    b.clear_all();
    assert!(b.batch_folders.is_empty());
    assert_eq!(b.selected_index, None);
    assert!(!b.ready_to_execute());
    assert_eq!(b.status_message, "Please add folders first");
}

#[test]
fn batch_state_threads() {
    let mut b = BatchState::new(Vec::new(), ProcessSettings::default());
    b.threads_changed("12");
    assert_eq!(b.settings.threads, 12);
    b.threads_changed("twelve");
    assert_eq!(b.settings.threads, 1);
}

#[test]
fn batch_state_profiles() {
    let pp3 = vec![Profile { name: "ND8".to_string(), file_path: "nd8.pp3".to_string(), tag: "t".to_string() }];
    let mut b = BatchState::new(pp3, ProcessSettings::default());
    assert_eq!(b.profiles, strings(&["ND8"]));
    b.add_profile_file("/p/sunset.pp3".to_string(), Some("sunset".to_string()));
    b.add_profile_file("/p/.pp3".to_string(), None);
    assert_eq!(b.profiles, strings(&["ND8", "sunset", "New Profile"]));
    assert_eq!(b.pp3_profiles[1].file_path, "/p/sunset.pp3");
    assert_eq!(b.pp3_profiles[2].name, "New Profile");
    assert_eq!(b.profile_for_edit(0), ("ND8".to_string(), "nd8.pp3".to_string(), "t".to_string()));
    assert_eq!(b.profile_for_edit(9), (String::new(), String::new(), String::new()));
    b.apply_profile_edit(1, "Sunset".to_string(), "/p/s.pp3".to_string(), "warm".to_string());
    assert_eq!(b.pp3_profiles[1].name, "Sunset");
    assert_eq!(b.pp3_profiles[1].tag, "warm");
    assert_eq!(b.profiles[1], "Sunset");
    b.delete_profile(0);
    assert_eq!(b.profiles, strings(&["Sunset", "New Profile"]));
    assert_eq!(b.pp3_profiles.len(), 2);
    b.clear_profiles();
    assert!(b.pp3_profiles.is_empty());
    assert_eq!(b.profiles, strings(&["Default", "Landscape", "Portrait", "Night"]));
    assert_eq!(b.profile_for_edit(1), ("Landscape".to_string(), String::new(), String::new()));
    b.reload_profiles(vec![Profile { name: "X".to_string(), file_path: "x".to_string(), tag: String::new() }]);
    assert_eq!(b.profiles, strings(&["X"]));
}

#[test]
fn execution_summary_messages() {
    let mut s = ExecutionSummary::new(2);
    s.record(&"/a".to_string(), &Ok("done".to_string()));
    s.record(&"/b".to_string(), &Err("Folder does not exist: /b".to_string()));
    assert_eq!(
        s.message(),
        "Completed with errors: 1 of 2 folders processed. Errors: /b: Folder does not exist: /b"
    );
    let mut ok = ExecutionSummary::new(1);
    ok.record(&"/a".to_string(), &Ok("done".to_string()));
    assert_eq!(ok.message(), "Successfully processed 1 folders");
}

#[test]
fn exif_info_lines() {
    let full = ScannedFile {
        path: "a".to_string(),
        exposure_time: Some("1/100".to_string()),
        f_number: Some("8".to_string()),
        iso: Some("100".to_string()),
    };
    assert_eq!(format_exif_info(&full), "Exposure: 1/100 | FNumber: 8 | ISO: 100");
    let part = ScannedFile { path: "b".to_string(), exposure_time: None, f_number: Some("4".to_string()), iso: None };
    assert_eq!(format_exif_info(&part), "FNumber: 4");
    let none = ScannedFile { path: "c".to_string(), exposure_time: None, f_number: None, iso: None };
    assert_eq!(format_exif_info(&none), "");
}

#[test]
fn theme_stepping() {
    assert_eq!(next_theme_index(None, 5), 0);
    assert_eq!(next_theme_index(Some(4), 5), 0);
    assert_eq!(next_theme_index(Some(1), 5), 2);
    assert_eq!(previous_theme_index(None, 5), 4);
    assert_eq!(previous_theme_index(Some(0), 5), 4);
    assert_eq!(previous_theme_index(Some(3), 5), 2);
    assert_eq!(dialog_previous_theme_index(None, 5), 0);
    assert_eq!(dialog_previous_theme_index(Some(0), 5), 4);
    for c in 0..5 {
        assert_eq!(previous_theme_index(Some(next_theme_index(Some(c), 5)), 5), c);
        assert_eq!(next_theme_index(Some(previous_theme_index(Some(c), 5)), 5), c);
    }
}

#[test]
fn scale_keys() {
    assert_eq!(scale_key("="), Some(ScaleKey::Increase));
    assert_eq!(scale_key("+"), Some(ScaleKey::Increase));
    assert_eq!(scale_key("-"), Some(ScaleKey::Decrease));
    assert_eq!(scale_key("a"), None);
}

#[test]
fn saved_setup_settings_reach_the_window() {
    let mut b = BatchState::new(Vec::new(), ProcessSettings::default());
    b.settings.use_opencv_tonemap = true;
    let mut saved = ProcessSettings::default();
    saved.threads = 3;
    saved.do_align = true;
    saved.use_opencv_merge = true;
    saved.use_opencv_merge_robertson = true;
    saved.use_opencv_tonemap = false;
    b.take_saved_settings(&saved);
    assert_eq!(b.settings.threads, 3);
    assert!(b.settings.do_align && b.settings.use_opencv_merge);
    assert!(!b.settings.use_opencv_merge_robertson);
    assert!(b.settings.use_opencv_tonemap);
}

#[test]
fn deleting_a_profile_keeps_selection_and_status() {
    let mut b = BatchState::new(Vec::new(), ProcessSettings::default());
    b.import_folders(vec![entry("/a")]);
    b.select_folder(0);
    b.delete_profile(1);
    assert_eq!(b.profiles, strings(&["Default", "Portrait", "Night"]));
    assert!(b.pp3_profiles.is_empty());
    assert_eq!(b.selected_index, Some(0));
    assert_eq!(b.status_message, "Import successful");
    assert_eq!(b.batch_folders.len(), 1);
}
