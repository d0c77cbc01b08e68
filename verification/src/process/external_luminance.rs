//! Tone mapping with the Luminance HDR command line tool: its checks, its
//! arguments and the names of what it writes.

use vstd::prelude::*;

use crate::process::processor::DirFile;
use crate::text::{owned, push_copy, push_str, push_text};

verus! {

/// The Luminance HDR program must be configured; `in_setup` selects the message
/// that points to the setup dialog, used when a whole folder is tone mapped.
pub fn check_luminance_exe(luminance_exe: &String, in_setup: bool) -> (r: Result<(), String>)
    ensures
        luminance_exe@.len() > 0 ==> r is Ok,
        luminance_exe@.len() == 0 && in_setup ==> (r matches Err(m) && m@
            == "Luminance CLI not configured in setup"@),
        luminance_exe@.len() == 0 && !in_setup ==> (r matches Err(m) && m@
            == "Luminance CLI not configured"@),
{
    if luminance_exe.as_str().unicode_len() > 0 {
        Ok(())
    } else if in_setup {
        Err(owned("Luminance CLI not configured in setup"))
    } else {
        Err(owned("Luminance CLI not configured"))
    }
}

/// Luminance HDR's arguments: load `input`, tone map with Reinhard '02, JPEG
/// quality 98, write `output`.
pub fn luminance_args(input: &String, output: &String) -> (r: Vec<String>)
    ensures
        crate::text::texts(r@) == seq![
            "-l"@,
            input@,
            "--tmo"@,
            "reinhard02"@,
            "-q"@,
            "98"@,
            "-o"@,
            output@,
        ],
{
    let mut r: Vec<String> = Vec::new();
    push_text(&mut r, "-l");
    push_copy(&mut r, input);
    push_text(&mut r, "--tmo");
    push_text(&mut r, "reinhard02");
    push_text(&mut r, "-q");
    push_text(&mut r, "98");
    push_text(&mut r, "-o");
    push_copy(&mut r, output);
    r
}

/// The extension is `exr`, in any case.
pub open spec fn is_exr_ext(ext: Option<String>) -> bool {
    match ext {
        Some(e) => crate::text::lowercase(e@) == "exr"@,
        None => false,
    }
}

/// The HDR images of the EXR folder, ordered by path.
pub fn select_exr_files(entries: &[DirFile]) -> (r: Vec<String>)
    ensures
        crate::text::sorted_texts(r@),
        r@.to_multiset() == crate::process::processor::kept_paths(
            entries@,
            |f: DirFile| is_exr_ext(f.extension),
        ).to_multiset(),
{
    let ghost keep = |f: DirFile| is_exr_ext(f.extension);
    let mut r: Vec<String> = Vec::new();
    let mut i: usize = 0;
    while i < entries.len()
        invariant
            i <= entries@.len(),
            keep == (|f: DirFile| is_exr_ext(f.extension)),
            r@ == crate::process::processor::kept_paths(entries@.take(i as int), keep),
        decreases entries@.len() - i,
    {
        let f = &entries[i];
        assert(entries@.take(i + 1).drop_last() =~= entries@.take(i as int));
        assert(entries@.take(i + 1).last() == entries@[i as int]);
        let is_exr = match &f.extension {
            Some(e) => {
                let l = crate::text::to_lowercase(e.as_str());
                crate::text::equals_text(&l, "exr")
            },
            None => false,
        };
        if is_exr {
            r.push(f.path.clone());
        }
        i = i + 1;
    }
    assert(entries@.take(entries@.len() as int) =~= entries@);
    crate::text::sort_texts(&mut r);
    r
}

/// There must be HDR images to tone map.
pub fn check_exr_files(exr_files: &[String]) -> (r: Result<(), String>)
    ensures
        exr_files@.len() == 0 ==> (r matches Err(m) && m@ == "No EXR files found for tone mapping"@),
        exr_files@.len() > 0 ==> r is Ok,
{
    if exr_files.len() == 0 {
        Err(owned("No EXR files found for tone mapping"))
    } else {
        Ok(())
    }
}

/// `STEM.jpg`: the JPEG made from the HDR image whose file stem is `stem`.
pub fn tonemapped_jpg_name(stem: &str) -> (r: String)
    ensures
        r@ == stem@ + ".jpg"@,
{
    let mut m = String::new();
    push_str(&mut m, stem);
    push_str(&mut m, ".jpg");
    m
}

/// `tonemap_STEM.log`: the log of tone mapping the HDR image whose file stem is `stem`.
pub fn tonemap_log_name(stem: &str) -> (r: String)
    ensures
        r@ == "tonemap_"@ + stem@ + ".log"@,
{
    let mut m = String::new();
    push_str(&mut m, "tonemap_");
    push_str(&mut m, stem);
    push_str(&mut m, ".log");
    m
}

} // verus!
