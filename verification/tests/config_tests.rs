use hdr_merge_master::config::{
    default_ignore_folders, default_processed_extensions, default_profile_list,
    default_raw_extensions, default_recursive_max_depth, default_theme_name, default_threads,
    default_tonemap_operator, profile_names, ExePaths, OptionalExesAvailable, ProcessSettings,
    Profile,
};

#[test]
fn defaults_of_the_settings() {
    assert_eq!(default_tonemap_operator(), "Reinhard");
    assert_eq!(default_recursive_max_depth(), 1);
    assert_eq!(default_threads(), 6);
    assert_eq!(default_theme_name(), "");
    let o = OptionalExesAvailable::default();
    assert!(!o.align_image_stack_exe && !o.rawtherapee_cli_exe);
    let e = ExePaths::default();
    assert!(e.align_image_stack_exe.is_empty() && e.blender_exe.is_empty());
    assert!(e.luminance_cli_exe.is_empty() && e.rawtherapee_cli_exe.is_empty());
    let s = ProcessSettings::default();
    assert_eq!(s.threads, 6);
    assert!(!s.do_align && !s.do_cleanup && !s.do_recursive);
    assert!(!s.use_opencv_merge && !s.use_opencv_tonemap);
    assert_eq!(s.tonemap_operator, "Reinhard");
}

#[test]
fn default_lists() {
    assert_eq!(default_processed_extensions(), vec![".tif", ".tiff", ".png"]);
    assert_eq!(
        default_raw_extensions(),
        vec![".dng", ".cr2", ".cr3", ".nef", ".arw", ".raf", ".orf", ".rw2", ".pef"]
    );
    assert_eq!(default_ignore_folders(), vec!["Merged", "tif", "exr", "jpg", "aligned"]);
}

#[test]
fn profile_names_fall_back_to_defaults() {
    assert_eq!(default_profile_list(), vec!["Default", "Landscape", "Portrait", "Night"]);
    assert_eq!(profile_names(&[]), vec!["Default", "Landscape", "Portrait", "Night"]);
    let profiles = vec![
        Profile { name: "ND8".to_string(), file_path: "nd8.pp3".to_string(), tag: String::new() },
        Profile { name: "Sky".to_string(), file_path: "sky.pp3".to_string(), tag: "t".to_string() },
    ];
    assert_eq!(profile_names(&profiles), vec!["ND8", "Sky"]);
}
