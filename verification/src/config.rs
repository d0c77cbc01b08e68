//! Configuration and batch records: executable paths, PP3 profiles and the
//! folders queued for processing, with the defaults the application starts from.

use vstd::prelude::*;

use crate::scan_folder::ScannedFile;
use crate::text::owned;

verus! {

/// Which optional helper programs were found.
#[derive(Debug, Clone)]
pub struct OptionalExesAvailable {
    pub align_image_stack_exe: bool,
    pub rawtherapee_cli_exe: bool,
}

impl Default for OptionalExesAvailable {
    fn default() -> (r: Self)
        ensures
            !r.align_image_stack_exe,
            !r.rawtherapee_cli_exe,
    {
        OptionalExesAvailable { align_image_stack_exe: false, rawtherapee_cli_exe: false }
    }
}

/// Paths of the external programs; an empty path means "not configured".
#[derive(Debug, Clone)]
pub struct ExePaths {
    pub align_image_stack_exe: String,
    pub blender_exe: String,
    pub luminance_cli_exe: String,
    pub rawtherapee_cli_exe: String,
}

impl Default for ExePaths {
    fn default() -> (r: Self)
        ensures
            r.align_image_stack_exe@ == Seq::<char>::empty(),
            r.blender_exe@ == Seq::<char>::empty(),
            r.luminance_cli_exe@ == Seq::<char>::empty(),
            r.rawtherapee_cli_exe@ == Seq::<char>::empty(),
    {
        ExePaths {
            align_image_stack_exe: String::new(),
            blender_exe: String::new(),
            luminance_cli_exe: String::new(),
            rawtherapee_cli_exe: String::new(),
        }
    }
}

/// A file shown in the file list, with its EXIF summary when it has one.
#[derive(Debug, Clone)]
pub struct FileEntry {
    pub path: String,
    pub exif_info: Option<String>,
}

/// A RawTherapee processing profile.
#[derive(Debug, Clone)]
pub struct Profile {
    pub name: String,
    pub file_path: String,
    pub tag: String,
}

/// A folder queued for processing, with the result of its scan.
#[derive(Debug, Clone)]
pub struct FolderEntry {
    pub path: String,
    pub profile: String,
    pub extension: String,
    pub is_raw: bool,
    pub align: bool,
    pub brackets: u32,
    pub sets: u32,
    pub files: Vec<ScannedFile>,
}

/// The processing switches of the settings, the part that decides which tools run.
#[derive(Debug, Clone)]
pub struct ProcessSettings {
    pub threads: u32,
    pub do_recursive: bool,
    pub do_cleanup: bool,
    pub do_align: bool,
    pub use_opencv_align: bool,
    pub use_opencv_merge: bool,
    pub use_opencv_merge_robertson: bool,
    pub use_rust_merge: bool,
    pub rust_merge_debug_export: bool,
    pub use_opencv_tonemap: bool,
    pub tonemap_operator: String,
}

/// The tone mapping operator used when the settings name none.
pub fn default_tonemap_operator() -> (r: String)
    ensures
        r@ == "Reinhard"@,
{
    owned("Reinhard")
}

/// The folder depth of a recursive scan when the settings give none.
pub fn default_recursive_max_depth() -> (r: u32)
    ensures
        r == 1,
{
    1
}

/// The number of worker threads when the settings give none.
pub fn default_threads() -> (r: u8)
    ensures
        r == 6,
{
    6
}

/// The theme name when the settings give none; empty means the system theme.
pub fn default_theme_name() -> (r: String)
    ensures
        r@ == Seq::<char>::empty(),
{
    String::new()
}

impl Default for ProcessSettings {
    fn default() -> (r: Self)
        ensures
            r.threads == 6,
            !r.do_recursive && !r.do_cleanup && !r.do_align,
            !r.use_opencv_align && !r.use_opencv_merge && !r.use_opencv_merge_robertson,
            !r.use_rust_merge && !r.rust_merge_debug_export,
            !r.use_opencv_tonemap,
            r.tonemap_operator@ == "Reinhard"@,
    {
        ProcessSettings {
            threads: 6,
            do_recursive: false,
            do_cleanup: false,
            do_align: false,
            use_opencv_align: false,
            use_opencv_merge: false,
            use_opencv_merge_robertson: false,
            use_rust_merge: false,
            rust_merge_debug_export: false,
            use_opencv_tonemap: false,
            tonemap_operator: default_tonemap_operator(),
        }
    }
}

/// The profile names offered when no PP3 profile is configured.
pub open spec fn default_profile_names() -> Seq<Seq<char>> {
    seq!["Default"@, "Landscape"@, "Portrait"@, "Night"@]
}

/// The names of `profiles`, in order.
pub open spec fn names_of(profiles: Seq<Profile>) -> Seq<Seq<char>> {
    profiles.map_values(|p: Profile| p.name@)
}

/// The profile names shown for the configured profiles: their names, or the
/// default names when none is configured.
pub open spec fn shown_profile_names(profiles: Seq<Profile>) -> Seq<Seq<char>> {
    if profiles.len() == 0 {
        default_profile_names()
    } else {
        names_of(profiles)
    }
}

/// The default profile names: Default, Landscape, Portrait, Night.
pub fn default_profile_list() -> (r: Vec<String>)
    ensures
        crate::text::texts(r@) == default_profile_names(),
{
    let mut r: Vec<String> = Vec::new();
    r.push(owned("Default"));
    r.push(owned("Landscape"));
    r.push(owned("Portrait"));
    r.push(owned("Night"));
    assert(crate::text::texts(r@) =~= default_profile_names());
    r
}

/// The profile names to show for `profiles`.
pub fn profile_names(profiles: &[Profile]) -> (r: Vec<String>)
    ensures
        crate::text::texts(r@) == shown_profile_names(profiles@),
{
    if profiles.len() == 0 {
        return default_profile_list();
    }
    let mut r: Vec<String> = Vec::new();
    let mut i: usize = 0;
    while i < profiles.len()
        invariant
            i <= profiles@.len(),
            crate::text::texts(r@) == names_of(profiles@.take(i as int)),
        decreases profiles@.len() - i,
    {
        let ghost before = r@;
        let nm = profiles[i].name.clone();
        r.push(nm);
        assert(profiles@.take(i + 1) =~= profiles@.take(i as int).push(profiles@[i as int]));
        assert(crate::text::texts(r@) =~= crate::text::texts(before).push(nm@));
        assert(names_of(profiles@.take(i + 1)) =~= names_of(profiles@.take(i as int)).push(
            profiles@[i as int].name@,
        ));
        i = i + 1;
    }
    assert(profiles@.take(profiles@.len() as int) =~= profiles@);
    r
}

/// The extensions of processed images scanned by default.
pub open spec fn default_processed_extensions_text() -> Seq<Seq<char>> {
    seq![".tif"@, ".tiff"@, ".png"@]
}

/// The extensions of raw files scanned by default.
pub open spec fn default_raw_extensions_text() -> Seq<Seq<char>> {
    seq![".dng"@, ".cr2"@, ".cr3"@, ".nef"@, ".arw"@, ".raf"@, ".orf"@, ".rw2"@, ".pef"@]
}

/// The folders a recursive scan skips by default: those the tool writes itself.
pub open spec fn default_ignore_folders_text() -> Seq<Seq<char>> {
    seq!["Merged"@, "tif"@, "exr"@, "jpg"@, "aligned"@]
}

/// The processed image extensions of a new configuration.
pub fn default_processed_extensions() -> (r: Vec<String>)
    ensures
        crate::text::texts(r@) == default_processed_extensions_text(),
{
    let mut r: Vec<String> = Vec::new();
    crate::text::push_text(&mut r, ".tif");
    crate::text::push_text(&mut r, ".tiff");
    crate::text::push_text(&mut r, ".png");
    r
}

/// The raw file extensions of a new configuration.
pub fn default_raw_extensions() -> (r: Vec<String>)
    ensures
        crate::text::texts(r@) == default_raw_extensions_text(),
{
    let mut r: Vec<String> = Vec::new();
    crate::text::push_text(&mut r, ".dng");
    crate::text::push_text(&mut r, ".cr2");
    crate::text::push_text(&mut r, ".cr3");
    crate::text::push_text(&mut r, ".nef");
    crate::text::push_text(&mut r, ".arw");
    crate::text::push_text(&mut r, ".raf");
    crate::text::push_text(&mut r, ".orf");
    crate::text::push_text(&mut r, ".rw2");
    crate::text::push_text(&mut r, ".pef");
    r
}

/// The folders a recursive scan of a new configuration skips.
pub fn default_ignore_folders() -> (r: Vec<String>)
    ensures
        crate::text::texts(r@) == default_ignore_folders_text(),
{
    let mut r: Vec<String> = Vec::new();
    crate::text::push_text(&mut r, "Merged");
    crate::text::push_text(&mut r, "tif");
    crate::text::push_text(&mut r, "exr");
    crate::text::push_text(&mut r, "jpg");
    crate::text::push_text(&mut r, "aligned");
    r
}

} // verus!
