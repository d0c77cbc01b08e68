//! Headless batch mode: the folders a command line asks for, the profile each
//! one uses, and the batch entries built from their scans.

use vstd::prelude::*;

use crate::config::{FolderEntry, ProcessSettings};
use crate::scan_folder::ScanResult;
use crate::text::{equals_text, to_lowercase};

verus! {

/// Subcommands of the command line.
#[derive(Debug, Clone)]
pub enum Commands {
    /// Process the given folders directly.
    Process { folders: Vec<String> },
}

/// One folder of a batch file.
#[derive(Debug, Clone)]
pub struct BatchEntry {
    /// Folder path to process.
    pub path: String,
    /// Profile name to use; the command line's or the configured one when absent.
    pub profile: Option<String>,
    /// Whether to align; the configured default when absent.
    pub align: Option<bool>,
    /// Extension filter.
    pub extension: Option<String>,
}

/// The root of a batch file.
#[derive(Debug, Clone)]
pub struct BatchFile {
    pub folders: Vec<BatchEntry>,
}

/// A folder to process, with the profile and the alignment named for it, if any.
#[derive(Debug, Clone)]
pub struct FolderRequest {
    pub path: String,
    pub profile: Option<String>,
    pub align: Option<bool>,
}

/// A folder request as values: the path, the profile name and the alignment, if given.
pub type RequestView = (Seq<char>, Option<Seq<char>>, Option<bool>);

impl FolderRequest {
    pub open spec fn view_request(self) -> RequestView {
        (self.path@, crate::text::opt_string_text(self.profile), self.align)
    }
}

/// The requests views of `v`.
pub open spec fn request_views(v: Seq<FolderRequest>) -> Seq<RequestView> {
    v.map_values(|r: FolderRequest| r.view_request())
}

/// The requests of a batch file: each entry's path with its own profile and alignment.
pub open spec fn batch_requests(entries: Seq<BatchEntry>) -> Seq<RequestView> {
    entries.map_values(
        |e: BatchEntry| (e.path@, crate::text::opt_string_text(e.profile), e.align),
    )
}

/// Folders given on the command line, each with the command line's profile and no
/// alignment of its own.
pub open spec fn paths_with_profile(paths: Seq<String>, profile: Option<Seq<char>>) -> Seq<
    RequestView,
> {
    paths.map_values(|p: String| (p@, profile, None::<bool>))
}

/// The folders of the `process` subcommand, if it was given.
pub open spec fn command_folders(command: Option<Commands>) -> Seq<String> {
    match command {
        Some(Commands::Process { folders }) => folders@,
        None => Seq::empty(),
    }
}

/// The folders a command line asks for, in order: those of the batch file,
/// then those of `--folder` (the folder itself, or the image folders found under
/// it when scanning recursively), then those of the `process` subcommand.
pub open spec fn requested_folders(
    batch: Option<BatchFile>,
    folder_paths: Seq<String>,
    command: Option<Commands>,
    profile: Option<Seq<char>>,
) -> Seq<RequestView> {
    let from_batch = match batch {
        Some(b) => batch_requests(b.folders@),
        None => Seq::empty(),
    };
    from_batch + paths_with_profile(folder_paths, profile) + paths_with_profile(
        command_folders(command),
        profile,
    )
}

fn push_with_profile(out: &mut Vec<FolderRequest>, paths: &Vec<String>, profile: &Option<String>)
    ensures
        request_views(final(out)@) == request_views(old(out)@) + paths_with_profile(
            paths@,
            crate::text::opt_string_text(*profile),
        ),
{
    let mut i: usize = 0;
    let ghost start = request_views(out@);
    while i < paths.len()
        invariant
            i <= paths@.len(),
            request_views(out@) == start + paths_with_profile(
                paths@.take(i as int),
                crate::text::opt_string_text(*profile),
            ),
        decreases paths@.len() - i,
    {
        let ghost before = out@;
        let r = FolderRequest {
            path: paths[i].clone(),
            profile: crate::text::clone_opt(profile),
            align: None,
        };
        out.push(r);
        assert(request_views(out@) =~= request_views(before).push(r.view_request()));
        assert(paths@.take(i + 1) =~= paths@.take(i as int).push(paths@[i as int]));
        assert(paths_with_profile(paths@.take(i + 1), crate::text::opt_string_text(*profile))
            =~= paths_with_profile(paths@.take(i as int), crate::text::opt_string_text(*profile)).push(
            (paths@[i as int]@, crate::text::opt_string_text(*profile), None::<bool>),
        ));
        i = i + 1;
    }
    assert(paths@.take(paths@.len() as int) =~= paths@);
}

/// Collects the folders a command line asks for; `folder_paths` are the folders
/// that `--folder` stands for.
pub fn collect_folder_requests(
    batch: &Option<BatchFile>,
    folder_paths: &Vec<String>,
    command: &Option<Commands>,
    profile: &Option<String>,
) -> (r: Vec<FolderRequest>)
    ensures
        request_views(r@) == requested_folders(
            *batch,
            folder_paths@,
            *command,
            crate::text::opt_string_text(*profile),
        ),
{
    let mut out: Vec<FolderRequest> = Vec::new();
    match batch {
        Some(b) => {
            let mut i: usize = 0;
            while i < b.folders.len()
                invariant
                    i <= b.folders@.len(),
                    request_views(out@) == batch_requests(b.folders@.take(i as int)),
                decreases b.folders@.len() - i,
            {
                let ghost before = out@;
                let e = &b.folders[i];
                let r = FolderRequest {
                    path: e.path.clone(),
                    profile: crate::text::clone_opt(&e.profile),
                    align: e.align,
                };
                out.push(r);
                assert(request_views(out@) =~= request_views(before).push(r.view_request()));
                assert(b.folders@.take(i + 1) =~= b.folders@.take(i as int).push(
                    b.folders@[i as int],
                ));
                assert(batch_requests(b.folders@.take(i + 1)) =~= batch_requests(
                    b.folders@.take(i as int),
                ).push(r.view_request()));
                i = i + 1;
            }
            assert(b.folders@.take(b.folders@.len() as int) =~= b.folders@);
        },
        None => {
            assert(request_views(out@) =~= Seq::<RequestView>::empty());
        },
    }
    push_with_profile(&mut out, folder_paths, profile);
    match command {
        Some(Commands::Process { folders }) => {
            push_with_profile(&mut out, folders, profile);
        },
        None => {
            assert(paths_with_profile(Seq::<String>::empty(), crate::text::opt_string_text(*profile))
                =~= Seq::<RequestView>::empty());
            assert(request_views(out@) =~= request_views(out@) + Seq::<RequestView>::empty());
        },
    }
    out
}

/// The profile used for a folder: the one named for it, else the command
/// line's, else the configured one.
pub fn resolve_profile(
    requested: &Option<String>,
    cli_profile: &Option<String>,
    configured: &String,
) -> (r: String)
    ensures
        r@ == match (crate::text::opt_string_text(*requested), crate::text::opt_string_text(*cli_profile)) {
            (Some(p), _) => p,
            (None, Some(p)) => p,
            (None, None) => configured@,
        },
{
    match requested {
        Some(p) => p.clone(),
        None => match cli_profile {
            Some(p) => p.clone(),
            None => configured.clone(),
        },
    }
}

/// Whether a folder is aligned: as its batch entry says, else as configured.
pub fn resolve_align(requested: Option<bool>, configured: bool) -> (r: bool)
    ensures
        r == match requested {
            Some(a) => a,
            None => configured,
        },
{
    match requested {
        Some(a) => a,
        None => configured,
    }
}

/// The batch entry for a folder scanned in headless mode, or `None` when the
/// scan found no files. Its extension is left empty and its set count is the
/// number of files divided by the number of brackets.
pub fn cli_folder_entry(path: String, profile: String, align: bool, scan: ScanResult) -> (r: Option<
    FolderEntry,
>)
    requires
        scan.brackets >= 1,
        scan.files@.len() <= u32::MAX,
    ensures
        scan.files@.len() == 0 <==> r is None,
        r matches Some(e) ==> {
            &&& e.path == path
            &&& e.profile == profile
            &&& e.extension@ == Seq::<char>::empty()
            &&& e.is_raw == scan.is_raw
            &&& e.align == align
            &&& e.brackets == scan.brackets
            &&& e.sets == scan.files@.len() / (scan.brackets as nat)
            &&& e.files@ == scan.files@
        },
{
    if scan.files.len() == 0 {
        return None;
    }
    let n = scan.files.len() as u32;
    let sets = n / scan.brackets;
    Some(
        FolderEntry {
            path,
            profile,
            extension: String::new(),
            is_raw: scan.is_raw,
            align,
            brackets: scan.brackets,
            sets,
            files: scan.files,
        },
    )
}

/// Applies the command line's processing options to the configured settings.
/// The thread count is stored in a byte, so only its low eight bits are kept.
pub fn apply_cli_options(
    settings: &mut ProcessSettings,
    threads: u32,
    cleanup: bool,
    align: bool,
    use_opencv_align: bool,
    use_opencv_merge: bool,
    use_opencv_tonemap: bool,
    tonemap_operator: String,
)
    ensures
        final(settings).threads == threads % 256,
        final(settings).do_cleanup == cleanup,
        final(settings).do_align == align,
        final(settings).use_opencv_align == use_opencv_align,
        final(settings).use_opencv_merge == use_opencv_merge,
        final(settings).use_opencv_tonemap == use_opencv_tonemap,
        final(settings).tonemap_operator == tonemap_operator,
        final(settings).do_recursive == old(settings).do_recursive,
        final(settings).use_opencv_merge_robertson == old(settings).use_opencv_merge_robertson,
        final(settings).use_rust_merge == old(settings).use_rust_merge,
        final(settings).rust_merge_debug_export == old(settings).rust_merge_debug_export,
{
    settings.threads = threads % 256;
    settings.do_cleanup = cleanup;
    settings.do_align = align;
    settings.use_opencv_align = use_opencv_align;
    settings.use_opencv_merge = use_opencv_merge;
    settings.use_opencv_tonemap = use_opencv_tonemap;
    settings.tonemap_operator = tonemap_operator;
}

/// The file extensions, in lowercase, that mark a folder as holding images.
pub open spec fn is_image_extension_text(e: Seq<char>) -> bool {
    ||| e == "tif"@
    ||| e == "tiff"@
    ||| e == "jpg"@
    ||| e == "jpeg"@
    ||| e == "png"@
    ||| e == "dng"@
    ||| e == "cr2"@
    ||| e == "cr3"@
    ||| e == "nef"@
    ||| e == "arw"@
    ||| e == "raf"@
    ||| e == "orf"@
    ||| e == "rw2"@
    ||| e == "pef"@
}

/// Whether a file with extension `ext` (without the dot, in any case) is an image
/// that makes its folder worth processing.
pub fn is_image_extension(ext: &str) -> (r: bool)
    ensures
        r == is_image_extension_text(crate::text::lowercase(ext@)),
{
    let e = to_lowercase(ext);
    equals_text(&e, "tif") || equals_text(&e, "tiff") || equals_text(&e, "jpg") || equals_text(
        &e,
        "jpeg",
    ) || equals_text(&e, "png") || equals_text(&e, "dng") || equals_text(&e, "cr2")
        || equals_text(&e, "cr3") || equals_text(&e, "nef") || equals_text(&e, "arw")
        || equals_text(&e, "raf") || equals_text(&e, "orf") || equals_text(&e, "rw2")
        || equals_text(&e, "pef")
}

/// The exit status of a headless run over `total` requested folders of which
/// `failed` could not be processed: 1 when nothing was requested or anything
/// failed, 0 otherwise.
pub open spec fn cli_exit_status(total: nat, failed: nat) -> int {
    if total == 0 || failed > 0 {
        1
    } else {
        0
    }
}

/// The account of a headless run: how many of the requested folders were
/// processed and how many failed (no bracket sets found, or processing failed).
pub struct CliTally {
    pub total: usize,
    pub succeeded: usize,
    pub failed: usize,
}

impl CliTally {
    /// Every folder counted has exactly one outcome.
    pub open spec fn wf(&self) -> bool {
        self.succeeded + self.failed <= self.total
    }

    /// A tally of `total` requested folders, none handled yet.
    pub fn new(total: usize) -> (r: Self)
        ensures
            r.wf(),
            r.total == total,
            r.succeeded == 0,
            r.failed == 0,
    {
        CliTally { total, succeeded: 0, failed: 0 }
    }

    /// Counts a folder whose scan gave no bracket sets: it fails.
    pub fn record_no_sets(&mut self)
        requires
            old(self).wf(),
            old(self).succeeded + old(self).failed < old(self).total,
        ensures
            final(self).wf(),
            final(self).total == old(self).total,
            final(self).succeeded == old(self).succeeded,
            final(self).failed == old(self).failed + 1,
    {
        self.failed = self.failed + 1;
    }

    /// Counts the outcome of processing a folder.
    pub fn record_outcome(&mut self, outcome: &Result<String, String>)
        requires
            old(self).wf(),
            old(self).succeeded + old(self).failed < old(self).total,
        ensures
            final(self).wf(),
            final(self).total == old(self).total,
            outcome is Ok ==> final(self).succeeded == old(self).succeeded + 1 && final(self).failed
                == old(self).failed,
            outcome is Err ==> final(self).succeeded == old(self).succeeded && final(self).failed
                == old(self).failed + 1,
    {
        match outcome {
            Ok(_) => {
                self.succeeded = self.succeeded + 1;
            },
            Err(_) => {
                self.failed = self.failed + 1;
            },
        }
    }

    /// The process exit status of the run.
    pub fn exit_status(&self) -> (r: i32)
        ensures
            r == cli_exit_status(self.total as nat, self.failed as nat),
    {
        if self.total == 0 || self.failed > 0 {
            1
        } else {
            0
        }
    }
}

/// A headless run whose requested folders all have an outcome exits with
/// status 0 exactly when at least one folder was requested and every one of
/// them was processed.
pub proof fn lemma_cli_run_succeeds_iff_all_processed(tally: CliTally)
    requires
        tally.succeeded + tally.failed == tally.total,
    ensures
        cli_exit_status(tally.total as nat, tally.failed as nat) == 0 <==> (tally.total > 0
            && tally.succeeded == tally.total),
{
}

} // verus!
