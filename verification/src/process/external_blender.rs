//! Merging a bracket set with Blender's HDR merge scene: the checks, the filter
//! named by the profile, the image resolution and the command line.

use vstd::prelude::*;

use crate::config::FolderEntry;
use crate::text::{owned, push_all, push_copy, push_decimal, push_padded3, push_str, push_text};

verus! {

/// The filter that the profile name `profile_lower` (in lowercase) names: both ND
/// filters, one of them, or none.
pub open spec fn filter_for(profile_lower: Seq<char>) -> Seq<char> {
    if crate::text::contains_seq(profile_lower, "nd8"@) {
        if crate::text::contains_seq(profile_lower, "nd400"@) {
            "ND8_ND400"@
        } else {
            "ND8"@
        }
    } else if crate::text::contains_seq(profile_lower, "nd400"@) {
        "ND400"@
    } else {
        Seq::empty()
    }
}

/// The ND filters named by the folder's profile, as the merge scene expects them.
pub fn get_filter_from_profile(folder: &FolderEntry) -> (r: String)
    ensures
        r@ == filter_for(crate::text::lowercase(folder.profile@)),
        crate::text::is_ascii_text(folder.profile@) ==> r@ == filter_for(
            folder.profile@.map_values(|c: char| crate::text::ascii_lower(c)),
        ),
{
    let lower = crate::text::to_lowercase(folder.profile.as_str());
    if crate::text::contains_str(lower.as_str(), "nd8") {
        if crate::text::contains_str(lower.as_str(), "nd400") {
            owned("ND8_ND400")
        } else {
            owned("ND8")
        }
    } else if crate::text::contains_str(lower.as_str(), "nd400") {
        owned("ND400")
    } else {
        String::new()
    }
}

/// `WxH` from the EXIF image width and height, `0x0` when either is missing.
pub open spec fn resolution_text(fields: Option<crate::scan_folder::ExifFieldsView>) -> Seq<char> {
    match fields {
        Some((_, _, _, Some(w), Some(h))) => crate::text::decimal(w as nat) + "x"@
            + crate::text::decimal(h as nat),
        _ => "0x0"@,
    }
}

/// The resolution of an image whose contents are `data` (`None` when the file
/// could not be read), as its EXIF data gives it.
pub fn get_resolution_from_file(data: &Option<Vec<u8>>) -> (r: String)
    ensures
        r@ == resolution_text(
            match *data {
                Some(d) => crate::scan_folder::exif_fields(d@),
                None => None,
            },
        ),
{
    let fields = match data {
        Some(d) => crate::scan_folder::read_exif_fields(d.as_slice()),
        None => None,
    };
    match fields {
        Some(f) => match (f.width, f.height) {
            (Some(w), Some(h)) => {
                let mut m = String::new();
                push_decimal(&mut m, w as u64);
                push_str(&mut m, "x");
                push_decimal(&mut m, h as u64);
                m
            },
            _ => owned("0x0"),
        },
        None => owned("0x0"),
    }
}

/// Blender can merge only when there are files and its program is configured.
pub fn check_blender_inputs(n_files: usize, blender_exe: &String) -> (r: Result<(), String>)
    ensures
        n_files == 0 ==> (r matches Err(m) && m@ == "No files to merge"@),
        n_files > 0 && blender_exe@.len() == 0 ==> (r matches Err(m) && m@
            == "Blender executable not configured in setup"@),
        n_files > 0 && blender_exe@.len() > 0 ==> r is Ok,
{
    if n_files == 0 {
        Err(owned("No files to merge"))
    } else if blender_exe.as_str().unicode_len() == 0 {
        Err(owned("Blender executable not configured in setup"))
    } else {
        Ok(())
    }
}

/// Sets can only be formed when brackets were detected.
pub fn check_brackets(brackets: u32) -> (r: Result<(), String>)
    ensures
        brackets == 0 ==> (r matches Err(m) && m@ == "No brackets detected"@),
        brackets > 0 ==> r is Ok,
{
    if brackets == 0 {
        Err(owned("No brackets detected"))
    } else {
        Ok(())
    }
}

/// `merged_NNN.exr`: the HDR image of set `set_idx`.
pub open spec fn merged_exr_name_text(set_idx: nat) -> Seq<char> {
    "merged_"@ + crate::text::padded3(set_idx) + ".exr"@
}

/// The file name of the HDR image merged from set `set_idx`.
pub fn merged_exr_name(set_idx: usize) -> (r: String)
    ensures
        r@ == merged_exr_name_text(set_idx as nat),
{
    let mut m = String::new();
    push_str(&mut m, "merged_");
    push_padded3(&mut m, set_idx as u64);
    push_str(&mut m, ".exr");
    m
}

/// `PATH___EV`: a bracket file with its exposure value, as the merge script reads it.
pub fn blender_file_arg(path: &str, ev_text: &str) -> (r: String)
    ensures
        r@ == path@ + "___"@ + ev_text@,
{
    let mut m = String::new();
    push_str(&mut m, path);
    push_str(&mut m, "___");
    push_str(&mut m, ev_text);
    m
}

/// Blender's arguments: run the merge scene in the background with the merge
/// script, then, for the script, the resolution, the output file, the filter, the
/// set number and the bracket files with their exposure values.
pub fn blender_args(
    blend_file: &String,
    merge_script: &String,
    resolution: &String,
    exr_path: &String,
    filter: &String,
    set_idx: usize,
    file_args: &[String],
) -> (r: Vec<String>)
    ensures
        crate::text::texts(r@) == seq![
            "--background"@,
            blend_file@,
            "--factory-startup"@,
            "--python"@,
            merge_script@,
            "--"@,
            resolution@,
            exr_path@,
            filter@,
            crate::text::decimal(set_idx as nat),
        ] + crate::text::texts(file_args@),
{
    let mut r: Vec<String> = Vec::new();
    push_text(&mut r, "--background");
    push_copy(&mut r, blend_file);
    push_text(&mut r, "--factory-startup");
    push_text(&mut r, "--python");
    push_copy(&mut r, merge_script);
    push_text(&mut r, "--");
    push_copy(&mut r, resolution);
    push_copy(&mut r, exr_path);
    push_copy(&mut r, filter);
    let n = crate::text::decimal_string(set_idx as u64);
    push_copy(&mut r, &n);
    push_all(&mut r, file_args);
    r
}

/// The first error among the results of the sets, in set order.
pub open spec fn first_error(results: Seq<Result<(), String>>) -> Option<Seq<char>>
    decreases results.len(),
{
    if results.len() == 0 {
        None
    } else {
        match results[0] {
            Err(e) => Some(e@),
            Ok(()) => first_error(results.drop_first()),
        }
    }
}

/// Combines the results of sets merged in parallel: the first failure, if any.
pub fn combine_results(results: Vec<Result<(), String>>) -> (r: Result<(), String>)
    ensures
        match first_error(results@) {
            Some(e) => (r matches Err(m) && m@ == e),
            None => r is Ok,
        },
{
    let mut i: usize = 0;
    assert(results@.skip(0) =~= results@);
    while i < results.len()
        invariant
            i <= results@.len(),
            first_error(results@) == first_error(results@.skip(i as int)),
        decreases results@.len() - i,
    {
        assert(results@.skip(i as int)[0] == results@[i as int]);
        match &results[i] {
            Err(e) => {
                return Err(e.clone());
            },
            Ok(()) => {},
        }
        assert(results@.skip(i as int).drop_first() =~= results@.skip(i + 1));
        i = i + 1;
    }
    Ok(())
}

} // verus!
