//! Processing of a folder, set by set: the checks made before work starts, the
//! partition of the files into bracket sets and the account of finished sets.

use vstd::prelude::*;

use crate::config::{FolderEntry, ProcessSettings, Profile};
use crate::text::{
    equals_text, owned, push_all, push_copy, push_decimal, push_padded3, push_str, push_text,
    to_lowercase,
};

verus! {

/// A disk operation handed to the I/O thread.
#[derive(Debug, Clone)]
pub enum IoMessage {
    /// Write the encoded JPEG `jpg_data` to `output_path`.
    SaveJpg { jpg_data: Vec<u8>, output_path: String, set_idx: usize },
    /// Stop the I/O thread.
    Shutdown,
}

#[verifier::external_type_specification]
#[verifier::external_body]
#[verifier::reject_recursive_types(T)]
pub struct ExSender<T>(std::sync::mpsc::Sender<T>);

/// `Sender::send` on the worker's channel: queues `msg` for the receiving thread.
/// It fails only when the receiving end is gone; the error then hands `msg` back,
/// unsent, with the text of the channel's error (what that text says is left
/// unsaid). The worker's log of queued operations grows by `msg` exactly when the
/// send succeeds.
#[verifier::external_body]
fn send_message(worker: &mut IoWorker, msg: IoMessage) -> (r: Result<(), (IoMessage, String)>)
    ensures
        final(worker).sender == old(worker).sender,
        r is Ok ==> final(worker).queued@ == old(worker).queued@.push(msg),
        r matches Err((unsent, _)) ==> unsent == msg && final(worker).queued@ == old(
            worker,
        ).queued@,
{
    match worker.sender.send(msg) {
        Ok(()) => Ok(()),
        Err(e) => {
            let text = e.to_string();
            Err((e.0, text))
        },
    }
}

/// The operation that writes `jpg_data` to `output_path` for bracket set `set_idx`.
pub fn save_jpg_message(jpg_data: Vec<u8>, output_path: String, set_idx: usize) -> (m: IoMessage)
    ensures
        m == (IoMessage::SaveJpg { jpg_data, output_path, set_idx }),
{
    IoMessage::SaveJpg { jpg_data, output_path, set_idx }
}

/// The operation that stops the I/O thread.
pub fn shutdown_message() -> (m: IoMessage)
    ensures
        m == IoMessage::Shutdown,
{
    IoMessage::Shutdown
}

/// The sending end of the I/O thread: finished JPEG files are written there
/// while the next bracket set is processed.
pub struct IoWorker {
    pub sender: std::sync::mpsc::Sender<IoMessage>,
    /// The operations this worker has handed to the I/O thread, in order.
    pub queued: Ghost<Seq<IoMessage>>,
}

/// The error reported when a disk operation could not be queued.
pub open spec fn queue_failure(detail: Seq<char>) -> Seq<char> {
    "Failed to queue I/O operation: "@ + detail
}

impl IoWorker {
    /// A worker that sends its operations through `sender`, having queued none yet.
    pub fn from_sender(sender: std::sync::mpsc::Sender<IoMessage>) -> (r: IoWorker)
        ensures
            r.sender == sender,
            r.queued@ == Seq::<IoMessage>::empty(),
    {
        IoWorker { sender, queued: Ghost(Seq::empty()) }
    }

    /// Queues writing `jpg_data` to `output_path` (the operation `save_jpg_message`
    /// builds); fails, queueing nothing, when the I/O thread is gone.
    pub fn save_jpg(&mut self, jpg_data: Vec<u8>, output_path: String, set_idx: usize) -> (r: Result<
        (),
        String,
    >)
        ensures
            final(self).sender == old(self).sender,
            r is Ok ==> final(self).queued@ == old(self).queued@.push(
                IoMessage::SaveJpg { jpg_data, output_path, set_idx },
            ),
            r is Err ==> final(self).queued@ == old(self).queued@,
            r matches Err(m) ==> exists|d: Seq<char>| m@ == queue_failure(d),
    {
        let msg = save_jpg_message(jpg_data, output_path, set_idx);
        match send_message(self, msg) {
            Ok(()) => Ok(()),
            Err((_, e)) => {
                let mut m = String::new();
                push_str(&mut m, "Failed to queue I/O operation: ");
                push_str(&mut m, e.as_str());
                assert(m@ == queue_failure(e@));
                Err(m)
            },
        }
    }

    /// Queues `shutdown_message`, asking the I/O thread to stop once the queued
    /// operations are done, and gives the worker's final log: the shutdown is its
    /// last entry, unless the I/O thread was already gone and nothing was queued.
    pub fn shutdown(self) -> (queued: Ghost<Seq<IoMessage>>)
        ensures
            queued@ == self.queued@.push(IoMessage::Shutdown) || queued@ == self.queued@,
    {
        let mut worker = self;
        let _ = send_message(&mut worker, shutdown_message());
        Ghost(worker.queued@)
    }
}

/// The error for a folder path that does not exist.
pub open spec fn missing_folder_message(path: Seq<char>) -> Seq<char> {
    "Folder does not exist: "@ + path
}

/// The error for a folder entry without files.
pub open spec fn no_files_message(path: Seq<char>) -> Seq<char> {
    "No files to process in: "@ + path
}

/// Checks a folder before processing starts: it must exist (`exists` says whether
/// it does) and its entry must hold files.
pub fn check_folder(folder: &FolderEntry, exists: bool) -> (r: Result<(), String>)
    ensures
        !exists ==> (r matches Err(m) && m@ == missing_folder_message(folder.path@)),
        exists && folder.files@.len() == 0 ==> (r matches Err(m) && m@ == no_files_message(
            folder.path@,
        )),
        exists && folder.files@.len() > 0 ==> r is Ok,
{
    if !exists {
        let mut m = String::new();
        push_str(&mut m, "Folder does not exist: ");
        push_str(&mut m, folder.path.as_str());
        return Err(m);
    }
    if folder.files.len() == 0 {
        let mut m = String::new();
        push_str(&mut m, "No files to process in: ");
        push_str(&mut m, folder.path.as_str());
        return Err(m);
    }
    Ok(())
}

/// The file path of the first profile named `name`, if any.
pub open spec fn profile_path_for(profiles: Seq<Profile>, name: Seq<char>) -> Option<Seq<char>>
    decreases profiles.len(),
{
    if profiles.len() == 0 {
        None
    } else if profiles[0].name@ == name {
        Some(profiles[0].file_path@)
    } else {
        profile_path_for(profiles.drop_first(), name)
    }
}

/// Looks up the PP3 file of the profile named `name`.
pub fn find_profile_path(profiles: &[Profile], name: &String) -> (r: Option<String>)
    ensures
        crate::text::opt_string_text(r) == profile_path_for(profiles@, name@),
{
    let mut i: usize = 0;
    assert(profiles@.skip(0) =~= profiles@);
    while i < profiles.len()
        invariant
            i <= profiles@.len(),
            profile_path_for(profiles@, name@) == profile_path_for(profiles@.skip(i as int), name@),
        decreases profiles@.len() - i,
    {
        assert(profiles@.skip(i as int)[0] == profiles@[i as int]);
        if profiles[i].name.eq(name) {
            return Some(profiles[i].file_path.clone());
        }
        assert(profiles@.skip(i as int).drop_first() =~= profiles@.skip(i + 1));
        i = i + 1;
    }
    None
}

/// The files of set `set_idx`: `brackets` files from `set_idx * brackets` on,
/// cut short at the end of the `n` files.
pub open spec fn set_bounds(set_idx: nat, brackets: nat, n: nat) -> (int, int) {
    let start = set_idx * brackets;
    let end: int = if start + brackets <= n { (start + brackets) as int } else { n as int };
    (start as int, end)
}

/// The range of the files of set `set_idx` among `n` files, when the set holds
/// all of its `brackets` files; `None` when the files run out before it is full.
pub fn set_range(set_idx: usize, brackets: usize, n: usize) -> (r: Option<(usize, usize)>)
    requires
        set_idx * brackets <= n,
    ensures
        match r {
            Some((s, e)) => {
                &&& set_bounds(set_idx as nat, brackets as nat, n as nat) == (s as int, e as int)
                &&& e - s == brackets
            },
            None => {
                let (s, e) = set_bounds(set_idx as nat, brackets as nat, n as nat);
                e - s != brackets
            },
        },
{
    let start = set_idx * brackets;
    if brackets <= n - start {
        Some((start, start + brackets))
    } else {
        None
    }
}

/// The error recorded for a set that lacks files.
pub open spec fn short_set_message(set_number: nat) -> Seq<char> {
    "Set "@ + crate::text::decimal(set_number) + " has incorrect number of files"@
}

/// The error recorded for a set whose processing failed with `e`.
pub open spec fn failed_set_message(set_number: nat, e: Seq<char>) -> Seq<char> {
    "Set "@ + crate::text::decimal(set_number) + ": "@ + e
}

/// What happens next in a folder run.
pub enum NextSet {
    /// Every set has been handled.
    Done,
    /// The set lacked files; its error is recorded.
    Skipped { set_idx: usize },
    /// Process the files `start..end` as set `set_idx`, then report the outcome.
    Process { set_idx: usize, start: usize, end: usize },
}

/// The account of a folder run: which set comes next, how many sets were
/// completed and the errors of the others.
pub struct FolderRun {
    pub total_sets: usize,
    pub next_set: usize,
    pub completed: usize,
    pub errors: Vec<String>,
    pub pending: bool,
}

impl FolderRun {
    /// Every handled set is either completed or has one error; a set being
    /// processed is not handled yet.
    pub open spec fn wf(&self) -> bool {
        &&& self.next_set <= self.total_sets
        &&& self.completed + self.errors@.len() == self.next_set
        &&& self.pending ==> self.next_set < self.total_sets
    }

    /// A run over `total_sets` sets, none handled yet.
    pub fn new(total_sets: usize) -> (r: FolderRun)
        ensures
            r.wf(),
            r.total_sets == total_sets,
            r.next_set == 0,
            r.completed == 0,
            r.errors@.len() == 0,
            !r.pending,
    {
        FolderRun { total_sets, next_set: 0, completed: 0, errors: Vec::new(), pending: false }
    }

    /// Moves to the next set of a folder with `n` files in sets of `brackets`.
    /// A set that lacks files is skipped with its error recorded.
    pub fn next(&mut self, brackets: usize, n: usize) -> (r: NextSet)
        requires
            old(self).wf(),
            !old(self).pending,
            old(self).next_set < old(self).total_sets ==> old(self).next_set * brackets <= n,
        ensures
            final(self).wf(),
            final(self).total_sets == old(self).total_sets,
            final(self).completed == old(self).completed,
            match r {
                NextSet::Done => {
                    &&& old(self).next_set == old(self).total_sets
                    &&& *final(self) == *old(self)
                },
                NextSet::Skipped { set_idx } => {
                    let (s, e) = set_bounds(set_idx as nat, brackets as nat, n as nat);
                    &&& set_idx == old(self).next_set
                    &&& e - s != brackets
                    &&& final(self).next_set == set_idx + 1
                    &&& !final(self).pending
                    &&& crate::text::texts(final(self).errors@) == crate::text::texts(
                        old(self).errors@,
                    ).push(short_set_message((set_idx + 1) as nat))
                },
                NextSet::Process { set_idx, start, end } => {
                    &&& set_idx == old(self).next_set
                    &&& set_bounds(set_idx as nat, brackets as nat, n as nat) == (
                        start as int,
                        end as int,
                    )
                    &&& end - start == brackets
                    &&& final(self).next_set == old(self).next_set
                    &&& final(self).pending
                    &&& final(self).errors@ == old(self).errors@
                },
            },
    {
        if self.next_set >= self.total_sets {
            return NextSet::Done;
        }
        let set_idx = self.next_set;
        match set_range(set_idx, brackets, n) {
            Some((start, end)) => {
                self.pending = true;
                NextSet::Process { set_idx, start, end }
            },
            None => {
                let mut m = String::new();
                push_str(&mut m, "Set ");
                push_decimal(&mut m, (set_idx + 1) as u64);
                push_str(&mut m, " has incorrect number of files");
                let ghost before = self.errors@;
                self.errors.push(m);
                assert(crate::text::texts(self.errors@) =~= crate::text::texts(before).push(m@));
                self.next_set = set_idx + 1;
                NextSet::Skipped { set_idx }
            },
        }
    }

    /// Records the outcome of the set being processed.
    pub fn finish(&mut self, outcome: Result<(), String>)
        requires
            old(self).wf(),
            old(self).pending,
        ensures
            final(self).wf(),
            !final(self).pending,
            final(self).total_sets == old(self).total_sets,
            final(self).next_set == old(self).next_set + 1,
            match outcome {
                Ok(()) => {
                    &&& final(self).completed == old(self).completed + 1
                    &&& final(self).errors@ == old(self).errors@
                },
                Err(e) => {
                    &&& final(self).completed == old(self).completed
                    &&& crate::text::texts(final(self).errors@) == crate::text::texts(
                        old(self).errors@,
                    ).push(failed_set_message((old(self).next_set + 1) as nat, e@))
                },
            },
    {
        match outcome {
            Ok(()) => {
                self.completed = self.completed + 1;
            },
            Err(e) => {
                let mut m = String::new();
                push_str(&mut m, "Set ");
                push_decimal(&mut m, (self.next_set + 1) as u64);
                push_str(&mut m, ": ");
                push_str(&mut m, e.as_str());
                let ghost before = self.errors@;
                self.errors.push(m);
                assert(crate::text::texts(self.errors@) =~= crate::text::texts(before).push(m@));
            },
        }
        self.next_set = self.next_set + 1;
        self.pending = false;
    }
}

/// The message of a folder run once every set has been handled: success when no
/// set failed, otherwise how many sets completed and the errors, joined by `; `.
pub open spec fn run_message(
    completed: nat,
    total: nat,
    errors: Seq<Seq<char>>,
    elapsed: Seq<char>,
) -> Result<Seq<char>, Seq<char>> {
    if errors.len() == 0 {
        Ok("Successfully processed "@ + crate::text::decimal(completed) + " sets in "@ + elapsed
            + "s"@)
    } else {
        Err("Completed "@ + crate::text::decimal(completed) + "/"@ + crate::text::decimal(total)
            + " sets with "@ + crate::text::decimal(errors.len()) + " errors: "@
            + crate::text::joined(errors, "; "@))
    }
}

/// The text of a result of strings.
pub open spec fn result_text(r: Result<String, String>) -> Result<Seq<char>, Seq<char>> {
    match r {
        Ok(m) => Ok(m@),
        Err(m) => Err(m@),
    }
}

impl FolderRun {
    /// The message that ends the run; `elapsed` is the time taken, as text.
    pub fn outcome(&self, elapsed: &str) -> (r: Result<String, String>)
        requires
            self.wf(),
        ensures
            result_text(r) == run_message(
                self.completed as nat,
                self.total_sets as nat,
                crate::text::texts(self.errors@),
                elapsed@,
            ),
    {
        let mut m = String::new();
        if self.errors.len() == 0 {
            push_str(&mut m, "Successfully processed ");
            push_decimal(&mut m, self.completed as u64);
            push_str(&mut m, " sets in ");
            push_str(&mut m, elapsed);
            push_str(&mut m, "s");
            Ok(m)
        } else {
            push_str(&mut m, "Completed ");
            push_decimal(&mut m, self.completed as u64);
            push_str(&mut m, "/");
            push_decimal(&mut m, self.total_sets as u64);
            push_str(&mut m, " sets with ");
            push_decimal(&mut m, self.errors.len() as u64);
            push_str(&mut m, " errors: ");
            let j = crate::text::join_strings(self.errors.as_slice(), "; ");
            push_str(&mut m, j.as_str());
            Err(m)
        }
    }
}

/// Once every set of a run has been handled, the run succeeded exactly when all
/// of its sets were completed.
pub proof fn lemma_run_succeeds_iff_all_completed(run: FolderRun, elapsed: Seq<char>)
    requires
        run.wf(),
        run.next_set == run.total_sets,
    ensures
        run_message(
            run.completed as nat,
            run.total_sets as nat,
            crate::text::texts(run.errors@),
            elapsed,
        ) is Ok <==> run.completed == run.total_sets,
{
}

/// The tool that merges the brackets of a set into an HDR image.
#[derive(Debug, Clone, Copy, PartialEq, Eq, Structural)]
pub enum MergeTool {
    Blender,
    OpenCvDebevec,
    OpenCvRobertson,
    Rust,
}

/// The tool that tone maps the merged image to a JPEG.
#[derive(Debug, Clone, Copy, PartialEq, Eq, Structural)]
pub enum TonemapTool {
    Luminance,
    OpenCv,
}

/// The tool that aligns the brackets of a set.
#[derive(Debug, Clone, Copy, PartialEq, Eq, Structural)]
pub enum AlignTool {
    AlignImageStack,
    OpenCv,
}

/// The switches a headless run processes a batch folder with: the given ones, with
/// alignment as the folder's entry asks (its own `align`, or the configured one).
pub fn settings_for_folder(settings: &ProcessSettings, folder: &FolderEntry) -> (r: ProcessSettings)
    ensures
        r.do_align == folder.align,
        r.threads == settings.threads,
        r.do_recursive == settings.do_recursive,
        r.do_cleanup == settings.do_cleanup,
        r.use_opencv_align == settings.use_opencv_align,
        r.use_opencv_merge == settings.use_opencv_merge,
        r.use_opencv_merge_robertson == settings.use_opencv_merge_robertson,
        r.use_rust_merge == settings.use_rust_merge,
        r.rust_merge_debug_export == settings.rust_merge_debug_export,
        r.use_opencv_tonemap == settings.use_opencv_tonemap,
        r.tonemap_operator@ == settings.tonemap_operator@,
{
    ProcessSettings {
        threads: settings.threads,
        do_recursive: settings.do_recursive,
        do_cleanup: settings.do_cleanup,
        do_align: folder.align,
        use_opencv_align: settings.use_opencv_align,
        use_opencv_merge: settings.use_opencv_merge,
        use_opencv_merge_robertson: settings.use_opencv_merge_robertson,
        use_rust_merge: settings.use_rust_merge,
        rust_merge_debug_export: settings.rust_merge_debug_export,
        use_opencv_tonemap: settings.use_opencv_tonemap,
        tonemap_operator: settings.tonemap_operator.clone(),
    }
}

/// The merge the switches choose: OpenCV's Debevec merge when chosen, else
/// Robertson's when that is chosen, else the Rust merge when that is chosen, else
/// Blender's.
pub open spec fn merge_tool_spec(settings: ProcessSettings) -> MergeTool {
    if settings.use_opencv_merge {
        MergeTool::OpenCvDebevec
    } else if settings.use_opencv_merge_robertson {
        MergeTool::OpenCvRobertson
    } else if settings.use_rust_merge {
        MergeTool::Rust
    } else {
        MergeTool::Blender
    }
}

/// The tool that merges the sets under `settings`.
pub fn merge_tool(settings: &ProcessSettings) -> (r: MergeTool)
    ensures
        r == merge_tool_spec(*settings),
{
    if settings.use_opencv_merge {
        MergeTool::OpenCvDebevec
    } else if settings.use_opencv_merge_robertson {
        MergeTool::OpenCvRobertson
    } else if settings.use_rust_merge {
        MergeTool::Rust
    } else {
        MergeTool::Blender
    }
}

/// OpenCV tone mapping when chosen, else Luminance HDR.
pub fn tonemap_tool(settings: &ProcessSettings) -> (r: TonemapTool)
    ensures
        r == (if settings.use_opencv_tonemap {
            TonemapTool::OpenCv
        } else {
            TonemapTool::Luminance
        }),
{
    if settings.use_opencv_tonemap {
        TonemapTool::OpenCv
    } else {
        TonemapTool::Luminance
    }
}

/// No alignment unless it is switched on; then OpenCV's when chosen, else
/// align_image_stack.
pub fn align_tool(settings: &ProcessSettings) -> (r: Option<AlignTool>)
    ensures
        !settings.do_align ==> r is None,
        settings.do_align && settings.use_opencv_align ==> r == Some(AlignTool::OpenCv),
        settings.do_align && !settings.use_opencv_align ==> r == Some(AlignTool::AlignImageStack),
{
    if !settings.do_align {
        None
    } else if settings.use_opencv_align {
        Some(AlignTool::OpenCv)
    } else {
        Some(AlignTool::AlignImageStack)
    }
}

/// The extensions, in lowercase, of raw camera files.
pub open spec fn is_raw_extension_text(e: Seq<char>) -> bool {
    ||| e == "dng"@
    ||| e == "cr2"@
    ||| e == "cr3"@
    ||| e == "nef"@
    ||| e == "arw"@
    ||| e == "raf"@
    ||| e == "orf"@
    ||| e == "rw2"@
    ||| e == "pef"@
}

/// The raw camera formats: DNG, Canon CR2 and CR3, Nikon NEF, Sony ARW, Fujifilm
/// RAF, Olympus ORF, Panasonic RW2 and Pentax PEF files are all raw, and the
/// common processed image formats are not.
pub proof fn lemma_raw_extensions_recognised()
    ensures
        is_raw_extension_text("dng"@),
        is_raw_extension_text("cr2"@),
        is_raw_extension_text("cr3"@),
        is_raw_extension_text("nef"@),
        is_raw_extension_text("arw"@),
        is_raw_extension_text("raf"@),
        is_raw_extension_text("orf"@),
        is_raw_extension_text("rw2"@),
        is_raw_extension_text("pef"@),
        !is_raw_extension_text("jpg"@),
        !is_raw_extension_text("jpeg"@),
        !is_raw_extension_text("tif"@),
        !is_raw_extension_text("tiff"@),
        !is_raw_extension_text("png"@),
        !is_raw_extension_text("exr"@),
{
    reveal_strlit("dng");
    reveal_strlit("cr2");
    reveal_strlit("cr3");
    reveal_strlit("nef");
    reveal_strlit("arw");
    reveal_strlit("raf");
    reveal_strlit("orf");
    reveal_strlit("rw2");
    reveal_strlit("pef");
    reveal_strlit("jpg");
    reveal_strlit("jpeg");
    reveal_strlit("tif");
    reveal_strlit("tiff");
    reveal_strlit("png");
    reveal_strlit("exr");
    if is_raw_extension_text("jpg"@) {
        lemma_raw_extension_shape("jpg"@);
    }
    if is_raw_extension_text("jpeg"@) {
        lemma_raw_extension_shape("jpeg"@);
    }
    if is_raw_extension_text("tif"@) {
        lemma_raw_extension_shape("tif"@);
    }
    if is_raw_extension_text("tiff"@) {
        lemma_raw_extension_shape("tiff"@);
    }
    if is_raw_extension_text("png"@) {
        lemma_raw_extension_shape("png"@);
    }
    if is_raw_extension_text("exr"@) {
        lemma_raw_extension_shape("exr"@);
    }
}

/// The ASCII lowercase of an extension name.
pub open spec fn ascii_lowercase(e: Seq<char>) -> Seq<char> {
    e.map_values(|c: char| crate::text::ascii_lower(c))
}

/// Raw files named in upper case, as cameras name them (`IMG_0001.CR2`), are raw:
/// with the ASCII clause of `is_raw_extension` this makes `is_raw_extension("CR2")`
/// and `set_is_raw` of a set of `.CR2` files true.
pub proof fn lemma_upper_case_raw_extensions_recognised()
    ensures
        is_raw_extension_text(ascii_lowercase("DNG"@)),
        is_raw_extension_text(ascii_lowercase("CR2"@)),
        is_raw_extension_text(ascii_lowercase("CR3"@)),
        is_raw_extension_text(ascii_lowercase("NEF"@)),
        is_raw_extension_text(ascii_lowercase("ARW"@)),
        is_raw_extension_text(ascii_lowercase("RAF"@)),
        is_raw_extension_text(ascii_lowercase("ORF"@)),
        is_raw_extension_text(ascii_lowercase("RW2"@)),
        is_raw_extension_text(ascii_lowercase("PEF"@)),
{
    lemma_raw_extensions_recognised();
    reveal_strlit("DNG");
    reveal_strlit("dng");
    reveal_strlit("CR2");
    reveal_strlit("cr2");
    reveal_strlit("CR3");
    reveal_strlit("cr3");
    reveal_strlit("NEF");
    reveal_strlit("nef");
    reveal_strlit("ARW");
    reveal_strlit("arw");
    reveal_strlit("RAF");
    reveal_strlit("raf");
    reveal_strlit("ORF");
    reveal_strlit("orf");
    reveal_strlit("RW2");
    reveal_strlit("rw2");
    reveal_strlit("PEF");
    reveal_strlit("pef");
    lemma_ascii_lower3("DNG"@, "dng"@);
    lemma_ascii_lower3("CR2"@, "cr2"@);
    lemma_ascii_lower3("CR3"@, "cr3"@);
    lemma_ascii_lower3("NEF"@, "nef"@);
    lemma_ascii_lower3("ARW"@, "arw"@);
    lemma_ascii_lower3("RAF"@, "raf"@);
    lemma_ascii_lower3("ORF"@, "orf"@);
    lemma_ascii_lower3("RW2"@, "rw2"@);
    lemma_ascii_lower3("PEF"@, "pef"@);
}

/// A three-character text whose characters lower, one by one, to those of `l`.
proof fn lemma_ascii_lower3(u: Seq<char>, l: Seq<char>)
    requires
        u.len() == 3,
        l.len() == 3,
        crate::text::ascii_lower(u[0]) == l[0],
        crate::text::ascii_lower(u[1]) == l[1],
        crate::text::ascii_lower(u[2]) == l[2],
    ensures
        ascii_lowercase(u) == l,
{
    assert(ascii_lowercase(u) =~= l);
}

/// Every raw extension has three characters, none begins with `j`, `t` or `e`, and
/// the one beginning with `p` continues with `e`.
proof fn lemma_raw_extension_shape(e: Seq<char>)
    requires
        is_raw_extension_text(e),
    ensures
        e.len() == 3,
        e[0] != 'j' && e[0] != 't' && e[0] != 'e',
        e[0] == 'p' ==> e[1] == 'e',
{
    reveal_strlit("dng");
    reveal_strlit("cr2");
    reveal_strlit("cr3");
    reveal_strlit("nef");
    reveal_strlit("arw");
    reveal_strlit("raf");
    reveal_strlit("orf");
    reveal_strlit("rw2");
    reveal_strlit("pef");
}

/// Whether a file with extension `ext` (without the dot, in any case) is a raw file.
/// An ASCII extension is judged by its ASCII lowercase, so `CR2` and `cr2` agree.
pub fn is_raw_extension(ext: &str) -> (r: bool)
    ensures
        r == is_raw_extension_text(crate::text::lowercase(ext@)),
        crate::text::is_ascii_text(ext@) ==> r == is_raw_extension_text(ascii_lowercase(ext@)),
{
    let e = to_lowercase(ext);
    equals_text(&e, "dng") || equals_text(&e, "cr2") || equals_text(&e, "cr3") || equals_text(
        &e,
        "nef",
    ) || equals_text(&e, "arw") || equals_text(&e, "raf") || equals_text(&e, "orf")
        || equals_text(&e, "rw2") || equals_text(&e, "pef")
}

/// Some file of the set, whose extensions are `exts` (`None` for a file without
/// one), is a raw file.
pub open spec fn any_raw(exts: Seq<Option<String>>) -> bool {
    exists|i: int| 0 <= i < exts.len() && ext_is_raw(#[trigger] exts[i])
}

/// The extension is present and marks a raw file.
pub open spec fn ext_is_raw(ext: Option<String>) -> bool {
    match ext {
        Some(e) => is_raw_extension_text(crate::text::lowercase(e@)),
        None => false,
    }
}

/// Whether a set whose files have the extensions `exts` holds raw files that must
/// be converted first.
pub fn set_is_raw(exts: &[Option<String>]) -> (r: bool)
    ensures
        r == any_raw(exts@),
        all_ascii_exts(exts@) ==> r == exists|i: int|
            0 <= i < exts@.len() && ascii_ext_is_raw(#[trigger] exts@[i]),
{
    let mut i: usize = 0;
    while i < exts.len()
        invariant
            i <= exts@.len(),
            forall|j: int| 0 <= j < i ==> !ext_is_raw(#[trigger] exts@[j]),
            all_ascii_exts(exts@) ==> forall|j: int| 0 <= j < i ==> !ascii_ext_is_raw(
                #[trigger] exts@[j],
            ),
        decreases exts@.len() - i,
    {
        match &exts[i] {
            Some(e) => {
                if is_raw_extension(e.as_str()) {
                    assert(ext_is_raw(exts@[i as int]));
                    return true;
                }
            },
            None => {},
        }
        i = i + 1;
    }
    false
}

/// Every present extension of the set is ASCII text.
pub open spec fn all_ascii_exts(exts: Seq<Option<String>>) -> bool {
    forall|i: int| 0 <= i < exts.len() ==> match #[trigger] exts[i] {
        Some(e) => crate::text::is_ascii_text(e@),
        None => true,
    }
}

/// The extension is present and its ASCII lowercase marks a raw file.
pub open spec fn ascii_ext_is_raw(ext: Option<String>) -> bool {
    match ext {
        Some(e) => is_raw_extension_text(ascii_lowercase(e@)),
        None => false,
    }
}

/// What raw conversion needs: the PP3 file of the folder's profile and a configured
/// RawTherapee program. Gives the PP3 file.
pub fn raw_conversion_profile(profile_path: &Option<String>, rawtherapee_exe: &String) -> (r: Result<
    String,
    String,
>)
    ensures
        match *profile_path {
            None => (r matches Err(m) && m@ == "No PP3 profile selected for RAW processing"@),
            Some(p) => if rawtherapee_exe@.len() == 0 {
                (r matches Err(m) && m@ == "RawTherapee CLI not configured"@)
            } else {
                (r matches Ok(q) && q@ == p@)
            },
        },
{
    match profile_path {
        None => Err(owned("No PP3 profile selected for RAW processing")),
        Some(p) => {
            if rawtherapee_exe.as_str().unicode_len() == 0 {
                Err(owned("RawTherapee CLI not configured"))
            } else {
                Ok(p.clone())
            }
        },
    }
}

/// align_image_stack must be configured before it can align a set.
pub fn check_align_tool(tool: AlignTool, align_exe: &String) -> (r: Result<(), String>)
    ensures
        tool == AlignTool::AlignImageStack && align_exe@.len() == 0 ==> (r matches Err(m) && m@
            == "align_image_stack not configured"@),
        !(tool == AlignTool::AlignImageStack && align_exe@.len() == 0) ==> r is Ok,
{
    match tool {
        AlignTool::AlignImageStack => {
            if align_exe.as_str().unicode_len() == 0 {
                Err(owned("align_image_stack not configured"))
            } else {
                Ok(())
            }
        },
        AlignTool::OpenCv => Ok(()),
    }
}

/// `HDR_set_NNN.jpg`: the JPEG of set `set_idx`, numbered with three digits.
pub open spec fn hdr_jpg_name_text(set_idx: nat) -> Seq<char> {
    "HDR_set_"@ + crate::text::padded3(set_idx) + ".jpg"@
}

/// The file name of the JPEG made from set `set_idx`.
pub fn hdr_jpg_name(set_idx: usize) -> (r: String)
    ensures
        r@ == hdr_jpg_name_text(set_idx as nat),
{
    let mut m = String::new();
    push_str(&mut m, "HDR_set_");
    push_padded3(&mut m, set_idx as u64);
    push_str(&mut m, ".jpg");
    m
}

/// `TOOL_set_NNN.log`: the log of `tool` for set `set_idx`.
pub open spec fn set_log_name_text(tool: Seq<char>, set_idx: nat) -> Seq<char> {
    tool + "_set_"@ + crate::text::padded3(set_idx) + ".log"@
}

/// The file name of the log that `tool` writes for set `set_idx`.
pub fn set_log_name(tool: &str, set_idx: usize) -> (r: String)
    ensures
        r@ == set_log_name_text(tool@, set_idx as nat),
{
    let mut m = String::new();
    push_str(&mut m, tool);
    push_str(&mut m, "_set_");
    push_padded3(&mut m, set_idx as u64);
    push_str(&mut m, ".log");
    m
}

/// `align_set_N_`: the prefix of the files that align_image_stack writes for set `set_idx`.
pub open spec fn align_prefix_text(set_idx: nat) -> Seq<char> {
    "align_set_"@ + crate::text::decimal(set_idx) + "_"@
}

/// The prefix of the aligned files of set `set_idx`.
pub fn align_prefix(set_idx: usize) -> (r: String)
    ensures
        r@ == align_prefix_text(set_idx as nat),
{
    let mut m = String::new();
    push_str(&mut m, "align_set_");
    push_decimal(&mut m, set_idx as u64);
    push_str(&mut m, "_");
    m
}

/// The log of a tool run: a title line naming the set, the command, then what
/// the tool printed on standard output and on standard error.
pub open spec fn tool_log_text(
    title: Seq<char>,
    set_idx: nat,
    command: Seq<char>,
    stdout: Seq<char>,
    stderr: Seq<char>,
) -> Seq<char> {
    "=== "@ + title + " - Set "@ + crate::text::decimal(set_idx) + " ===\n\n"@ + "Command: "@
        + command + "\n\n"@ + "STDOUT:\n"@ + stdout + "\nSTDERR:\n"@ + stderr
}

/// Writes the log of a tool run for set `set_idx`.
pub fn tool_log(title: &str, set_idx: usize, command: &str, stdout: &str, stderr: &str) -> (r:
    String)
    ensures
        r@ == tool_log_text(title@, set_idx as nat, command@, stdout@, stderr@),
{
    let mut m = String::new();
    push_str(&mut m, "=== ");
    push_str(&mut m, title);
    push_str(&mut m, " - Set ");
    push_decimal(&mut m, set_idx as u64);
    push_str(&mut m, " ===\n\n");
    push_str(&mut m, "Command: ");
    push_str(&mut m, command);
    push_str(&mut m, "\n\n");
    push_str(&mut m, "STDOUT:\n");
    push_str(&mut m, stdout);
    push_str(&mut m, "\nSTDERR:\n");
    push_str(&mut m, stderr);
    m
}

/// RawTherapee's arguments: the profile (`-p`), the output folder (`-o`), TIFF
/// output (`-t`), then `-c` and the raw files.
pub fn rawtherapee_args(pp3: &String, tif_folder: &String, files: &[String]) -> (r: Vec<String>)
    ensures
        crate::text::texts(r@) == seq!["-p"@, pp3@, "-o"@, tif_folder@, "-t"@, "-c"@] + crate::text::texts(files@),
{
    let mut r: Vec<String> = Vec::new();
    push_text(&mut r, "-p");
    push_copy(&mut r, pp3);
    push_text(&mut r, "-o");
    push_copy(&mut r, tif_folder);
    push_text(&mut r, "-t");
    push_text(&mut r, "-c");
    push_all(&mut r, files);
    r
}

/// align_image_stack's arguments: verbose, auto crop, linear output, the output
/// prefix (`-a`), GPU use, then the files of the set.
pub fn align_image_stack_args(prefix_path: &String, files: &[String]) -> (r: Vec<String>)
    ensures
        crate::text::texts(r@) == seq!["-v"@, "-i"@, "-l"@, "-a"@, prefix_path@, "--gpu"@] + crate::text::texts(files@),
{
    let mut r: Vec<String> = Vec::new();
    push_text(&mut r, "-v");
    push_text(&mut r, "-i");
    push_text(&mut r, "-l");
    push_text(&mut r, "-a");
    push_copy(&mut r, prefix_path);
    push_text(&mut r, "--gpu");
    push_all(&mut r, files);
    r
}

/// A regular file of an output folder, with the parts of its path the
/// selection looks at.
#[derive(Debug, Clone)]
pub struct DirFile {
    pub path: String,
    pub name: String,
    pub stem: String,
    pub extension: Option<String>,
}

/// The extension is `tif` or `tiff`, in any case.
pub open spec fn is_tif_ext(ext: Option<String>) -> bool {
    match ext {
        Some(e) => crate::text::lowercase(e@) == "tif"@ || crate::text::lowercase(e@) == "tiff"@,
        None => false,
    }
}

fn tif_extension(ext: &Option<String>) -> (r: bool)
    ensures
        r == is_tif_ext(*ext),
{
    match ext {
        Some(e) => {
            let l = to_lowercase(e.as_str());
            equals_text(&l, "tif") || equals_text(&l, "tiff")
        },
        None => false,
    }
}

/// The paths of the files of `entries` that `keep` selects, in order.
pub open spec fn kept_paths(entries: Seq<DirFile>, keep: spec_fn(DirFile) -> bool) -> Seq<String>
    decreases entries.len(),
{
    if entries.len() == 0 {
        Seq::empty()
    } else {
        let rest = kept_paths(entries.drop_last(), keep);
        if keep(entries.last()) {
            rest.push(entries.last().path)
        } else {
            rest
        }
    }
}

/// A TIFF file that RawTherapee wrote for one of the raw files whose stems are `raw_stems`.
pub open spec fn is_converted_tif(f: DirFile, raw_stems: Seq<String>) -> bool {
    is_tif_ext(f.extension) && exists|k: int|
        0 <= k < raw_stems.len() && #[trigger] raw_stems[k]@ == f.stem@
}

fn stem_listed(stem: &String, raw_stems: &[String]) -> (r: bool)
    ensures
        r == exists|k: int| 0 <= k < raw_stems@.len() && #[trigger] raw_stems@[k]@ == stem@,
{
    let mut k: usize = 0;
    while k < raw_stems.len()
        invariant
            k <= raw_stems@.len(),
            forall|j: int| 0 <= j < k ==> #[trigger] raw_stems@[j]@ != stem@,
        decreases raw_stems@.len() - k,
    {
        if raw_stems[k].eq(stem) {
            return true;
        }
        k = k + 1;
    }
    false
}

/// The TIFF files of the conversion folder that belong to the raw files of the
/// set, whose stems are `raw_stems`, ordered by path.
pub fn select_converted_tifs(entries: &[DirFile], raw_stems: &[String]) -> (r: Vec<String>)
    ensures
        crate::text::sorted_texts(r@),
        r@.to_multiset() == kept_paths(entries@, |f: DirFile| is_converted_tif(f, raw_stems@)).to_multiset(),
{
    let ghost keep = |f: DirFile| is_converted_tif(f, raw_stems@);
    let mut r: Vec<String> = Vec::new();
    let mut i: usize = 0;
    while i < entries.len()
        invariant
            i <= entries@.len(),
            keep == (|f: DirFile| is_converted_tif(f, raw_stems@)),
            r@ == kept_paths(entries@.take(i as int), keep),
        decreases entries@.len() - i,
    {
        let f = &entries[i];
        assert(entries@.take(i + 1).drop_last() =~= entries@.take(i as int));
        assert(entries@.take(i + 1).last() == entries@[i as int]);
        if tif_extension(&f.extension) && stem_listed(&f.stem, raw_stems) {
            r.push(f.path.clone());
        }
        i = i + 1;
    }
    assert(entries@.take(entries@.len() as int) =~= entries@);
    crate::text::sort_texts(&mut r);
    r
}

/// A TIFF file that align_image_stack wrote for the set whose prefix is `prefix`.
pub open spec fn is_aligned_output(f: DirFile, prefix: Seq<char>) -> bool {
    crate::text::starts_with_seq(f.name@, prefix) && is_tif_ext(f.extension)
}

/// The aligned TIFF files of set `set_idx` in the alignment folder, ordered by path.
pub fn select_aligned_files(entries: &[DirFile], set_idx: usize) -> (r: Vec<String>)
    ensures
        crate::text::sorted_texts(r@),
        r@.to_multiset() == kept_paths(
            entries@,
            |f: DirFile| is_aligned_output(f, align_prefix_text(set_idx as nat)),
        ).to_multiset(),
{
    let prefix = align_prefix(set_idx);
    let ghost keep = |f: DirFile| is_aligned_output(f, align_prefix_text(set_idx as nat));
    let mut r: Vec<String> = Vec::new();
    let mut i: usize = 0;
    while i < entries.len()
        invariant
            i <= entries@.len(),
            prefix@ == align_prefix_text(set_idx as nat),
            keep == (|f: DirFile| is_aligned_output(f, align_prefix_text(set_idx as nat))),
            r@ == kept_paths(entries@.take(i as int), keep),
        decreases entries@.len() - i,
    {
        let f = &entries[i];
        assert(entries@.take(i + 1).drop_last() =~= entries@.take(i as int));
        assert(entries@.take(i + 1).last() == entries@[i as int]);
        if crate::text::starts_with_str(f.name.as_str(), prefix.as_str()) && tif_extension(
            &f.extension,
        ) {
            r.push(f.path.clone());
        }
        i = i + 1;
    }
    assert(entries@.take(entries@.len() as int) =~= entries@);
    crate::text::sort_texts(&mut r);
    r
}

/// Whether the alignment folder is removed after the run: when clean-up is on and
/// alignment was done.
pub fn removes_aligned_folder(settings: &ProcessSettings) -> (r: bool)
    ensures
        r == (settings.do_cleanup && settings.do_align),
{
    settings.do_cleanup && settings.do_align
}

/// The index of the first file of set `s` when sets hold `bc` files.
pub open spec fn set_start(s: nat, bc: nat) -> nat {
    s * bc
}

/// A bracket set to merge on its own thread: its index, the range of its files, and
/// the range of the scanned files whose EXIF data gives its exposure values.
#[derive(Debug, Clone, Copy, PartialEq, Eq, Structural)]
pub struct MergeJob {
    pub set_idx: usize,
    pub start: usize,
    pub end: usize,
    pub ev_start: usize,
    pub ev_end: usize,
}

/// A merge job as numbers: set, file range, EXIF range.
pub type JobView = (nat, nat, nat, nat, nat);

/// The numbers of a merge job.
pub open spec fn job_view(j: MergeJob) -> JobView {
    (j.set_idx as nat, j.start as nat, j.end as nat, j.ev_start as nat, j.ev_end as nat)
}

/// The merge jobs of the first `k` sets of `n` files in sets of `bc`, with `n_ev`
/// scanned files: a set that lacks files is left out; the EXIF range starts with
/// the set and is cut short at the end of the scanned files.
pub open spec fn merge_jobs_upto(k: nat, bc: nat, n: nat, n_ev: nat) -> Seq<JobView>
    decreases k,
{
    if k == 0 {
        Seq::empty()
    } else {
        let rest = merge_jobs_upto((k - 1) as nat, bc, n, n_ev);
        let s = (k - 1) as nat;
        let start = set_start(s, bc);
        if start + bc <= n {
            let ev_end = if start + bc <= n_ev {
                start + bc
            } else {
                n_ev
            };
            rest.push((s, start, start + bc, start, ev_end))
        } else {
            rest
        }
    }
}

/// The jobs of a parallel merge of `sets` sets of `brackets` files among `n_files`
/// files, whose exposure values come from `n_ev` scanned files.
pub fn merge_jobs(sets: usize, brackets: usize, n_files: usize, n_ev: usize) -> (r: Vec<MergeJob>)
    requires
        brackets > 0,
        forall|s: nat| s < sets ==> #[trigger] set_start(s, brackets as nat) <= n_files,
        forall|s: nat|
            s < sets && set_start(s, brackets as nat) + brackets <= n_files ==> #[trigger] set_start(
                s,
                brackets as nat,
            ) <= n_ev,
    ensures
        r@.map_values(|j: MergeJob| job_view(j)) == merge_jobs_upto(
            sets as nat,
            brackets as nat,
            n_files as nat,
            n_ev as nat,
        ),
{
    let mut r: Vec<MergeJob> = Vec::new();
    let mut i: usize = 0;
    while i < sets
        invariant
            i <= sets,
            brackets > 0,
            forall|s: nat| s < sets ==> #[trigger] set_start(s, brackets as nat) <= n_files,
            forall|s: nat|
                s < sets && set_start(s, brackets as nat) + brackets <= n_files
                    ==> #[trigger] set_start(s, brackets as nat) <= n_ev,
            r@.map_values(|j: MergeJob| job_view(j)) == merge_jobs_upto(
                i as nat,
                brackets as nat,
                n_files as nat,
                n_ev as nat,
            ),
        decreases sets - i,
    {
        assert(set_start(i as nat, brackets as nat) <= n_files);
        let start = i * brackets;
        if brackets <= n_files - start {
            assert(set_start(i as nat, brackets as nat) <= n_ev);
            let ev_end = if brackets <= n_ev - start {
                start + brackets
            } else {
                n_ev
            };
            let job = MergeJob { set_idx: i, start, end: start + brackets, ev_start: start, ev_end };
            let ghost before = r@;
            r.push(job);
            assert(r@.map_values(|j: MergeJob| job_view(j)) =~= before.map_values(
                |j: MergeJob| job_view(j),
            ).push(job_view(job)));
        }
        i = i + 1;
    }
    r
}

/// The sets of a folder entry made from a scan, `n / b` sets of `b` files among `n`,
/// are all full: none of them is skipped for lacking files.
pub proof fn lemma_scanned_sets_are_full(n: nat, b: nat, set_idx: nat)
    requires
        b >= 1,
        set_idx < n / b,
    ensures
        set_idx * b <= n,
        ({
            let (s, e) = set_bounds(set_idx, b, n);
            e - s == b
        }),
{
    vstd::arithmetic::div_mod::lemma_fundamental_div_mod(n as int, b as int);
    assert(set_idx * b + b <= n) by (nonlinear_arith)
        requires
            set_idx < n / b,
            n == b * (n / b) + n % b,
            n % b >= 0,
            b >= 1,
    ;
}

proof fn lemma_jobs_upto_full(k: nat, b: nat, n: nat)
    requires
        b >= 1,
        k <= n / b,
    ensures
        merge_jobs_upto(k, b, n, n).len() == k,
        forall|i: int|
            0 <= i < k ==> #[trigger] merge_jobs_upto(k, b, n, n)[i] == (
                i as nat,
                (i * b) as nat,
                (i * b + b) as nat,
                (i * b) as nat,
                (i * b + b) as nat,
            ),
    decreases k,
{
    if k > 0 {
        lemma_jobs_upto_full((k - 1) as nat, b, n);
        lemma_scanned_sets_are_full(n, b, (k - 1) as nat);
    }
}

/// A parallel merge of a folder entry made from a scan, whose exposure values
/// come from the same files, has one job per set, and each job reads the EXIF
/// data of exactly the files it merges.
pub proof fn lemma_jobs_of_scanned_folder(n: nat, b: nat)
    requires
        b >= 1,
    ensures
        merge_jobs_upto(n / b, b, n, n).len() == n / b,
        forall|i: int|
            0 <= i < n / b ==> {
                let j = #[trigger] merge_jobs_upto(n / b, b, n, n)[i];
                &&& j.0 == i
                &&& j.2 - j.1 == b
                &&& j.1 == j.3 && j.2 == j.4
            },
{
    lemma_jobs_upto_full(n / b, b, n);
}

/// The error for a set whose files run past the end of the files.
pub open spec fn bad_range_message(set_idx: nat, start: nat, end: nat) -> Seq<char> {
    "Invalid bracket range for set "@ + crate::text::decimal(set_idx) + ": "@
        + crate::text::decimal(start) + "-"@ + crate::text::decimal(end)
}

/// The files of set `set_idx` among `n` files in sets of `brackets`, or an error
/// naming the range when the set runs past the last file.
pub fn checked_set_range(set_idx: usize, brackets: usize, n: usize) -> (r: Result<
    (usize, usize),
    String,
>)
    requires
        set_idx * brackets + brackets <= usize::MAX,
    ensures
        set_idx * brackets + brackets <= n ==> r == Ok::<(usize, usize), String>(
            ((set_idx * brackets) as usize, (set_idx * brackets + brackets) as usize),
        ),
        set_idx * brackets + brackets > n ==> (r matches Err(m) && m@ == bad_range_message(
            set_idx as nat,
            (set_idx * brackets) as nat,
            (set_idx * brackets + brackets) as nat,
        )),
{
    let start = set_idx * brackets;
    let end = start + brackets;
    if end > n {
        let mut m = String::new();
        push_str(&mut m, "Invalid bracket range for set ");
        push_decimal(&mut m, set_idx as u64);
        push_str(&mut m, ": ");
        push_decimal(&mut m, start as u64);
        push_str(&mut m, "-");
        push_decimal(&mut m, end as u64);
        Err(m)
    } else {
        Ok((start, end))
    }
}

} // verus!
