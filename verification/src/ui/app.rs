//! The batch window's state: the queued folders, the selection, the profiles
//! and the processing switches, and how each action of the window changes them.

use vstd::prelude::*;

use crate::config::{FolderEntry, ProcessSettings, Profile};
use crate::scan_folder::{ScanResult, ScannedFile};
use crate::text::{owned, push_decimal, push_str};

verus! {

/// What the batch window holds besides its look: the folders queued, the selected
/// row, the profile names offered, the configured PP3 profiles, the processing
/// switches and the status line.
pub struct BatchState {
    pub batch_folders: Vec<FolderEntry>,
    pub selected_index: Option<usize>,
    pub profiles: Vec<String>,
    pub pp3_profiles: Vec<Profile>,
    pub settings: ProcessSettings,
    pub status_message: String,
}

/// Some queued folder has the path `path`.
pub open spec fn has_path(folders: Seq<FolderEntry>, path: Seq<char>) -> bool {
    exists|i: int| 0 <= i < folders.len() && #[trigger] folders[i].path@ == path
}

/// The extension shown for a newly queued folder: that of its first file, with a
/// dot and in lowercase; else the first processed extension; else `.tiff`.
pub open spec fn folder_extension(
    first_extension: Option<Seq<char>>,
    processed_extensions: Seq<String>,
) -> Seq<char> {
    match first_extension {
        Some(e) => seq!['.'] + crate::text::lowercase(e),
        None => if processed_extensions.len() > 0 {
            processed_extensions[0]@
        } else {
            ".tiff"@
        },
    }
}

/// The profile a newly queued folder gets: the first offered, else `Default`.
pub open spec fn initial_profile(profiles: Seq<String>) -> Seq<char> {
    if profiles.len() > 0 {
        profiles[0]@
    } else {
        "Default"@
    }
}

/// A newly queued folder gets the first offered profile name when there is one,
/// and `Default` only when no name is offered; so, when profiles are configured,
/// the first configured profile (whose names `BatchState::new` offers).
pub proof fn lemma_new_folder_gets_first_profile(pp3: Seq<Profile>, offered: Seq<String>)
    requires
        crate::text::texts(offered) == crate::config::shown_profile_names(pp3),
    ensures
        offered.len() > 0 ==> initial_profile(offered) == offered[0]@,
        offered.len() == 0 ==> initial_profile(offered) == "Default"@,
        pp3.len() > 0 ==> initial_profile(offered) == pp3[0].name@,
{
    if pp3.len() > 0 {
        assert(crate::text::texts(offered).len() == offered.len());
        assert(crate::config::names_of(pp3).len() == pp3.len());
        assert(crate::text::texts(offered)[0] == offered[0]@);
        assert(crate::config::names_of(pp3)[0] == pp3[0].name@);
    }
}

/// The folder entry `f` with the profile `p`.
pub open spec fn with_profile(f: FolderEntry, p: String) -> FolderEntry {
    FolderEntry { profile: p, ..f }
}

/// The folder entry `f` with alignment switched to `v`.
pub open spec fn with_align(f: FolderEntry, v: bool) -> FolderEntry {
    FolderEntry { align: v, ..f }
}

/// The name, file and tag shown when profile `index` is edited: those of the
/// configured profile, else its offered name with an empty file and tag.
pub open spec fn edit_values(pp3: Seq<Profile>, names: Seq<String>, index: int) -> (
    Seq<char>,
    Seq<char>,
    Seq<char>,
) {
    if 0 <= index < pp3.len() {
        (pp3[index].name@, pp3[index].file_path@, pp3[index].tag@)
    } else if 0 <= index < names.len() {
        (names[index]@, Seq::empty(), Seq::empty())
    } else {
        (Seq::empty(), Seq::empty(), Seq::empty())
    }
}

/// `s` without its element `i`, when it has one.
pub open spec fn removed_at<T>(s: Seq<T>, i: int) -> Seq<T> {
    if 0 <= i < s.len() {
        s.remove(i)
    } else {
        s
    }
}

/// The names offered are exactly the names of the configured profiles.
pub open spec fn names_match(pp3: Seq<Profile>, names: Seq<String>) -> bool {
    crate::text::texts(names) == crate::config::names_of(pp3)
}

/// The switches `a` and `b` agree on everything but the thread count.
pub open spec fn settings_but_threads_same(a: ProcessSettings, b: ProcessSettings) -> bool {
    &&& a.do_recursive == b.do_recursive
    &&& a.do_cleanup == b.do_cleanup
    &&& a.do_align == b.do_align
    &&& a.use_opencv_align == b.use_opencv_align
    &&& a.use_opencv_merge == b.use_opencv_merge
    &&& a.use_opencv_merge_robertson == b.use_opencv_merge_robertson
    &&& a.use_rust_merge == b.use_rust_merge
    &&& a.rust_merge_debug_export == b.rust_merge_debug_export
    &&& a.use_opencv_tonemap == b.use_opencv_tonemap
    &&& a.tonemap_operator == b.tonemap_operator
}

impl BatchState {
    /// A window with no folders, the profile names of `pp3_profiles` and the given switches.
    pub fn new(pp3_profiles: Vec<Profile>, settings: ProcessSettings) -> (r: Self)
        ensures
            r.batch_folders@.len() == 0,
            r.selected_index is None,
            crate::text::texts(r.profiles@) == crate::config::shown_profile_names(pp3_profiles@),
            r.pp3_profiles@ == pp3_profiles@,
            r.settings == settings,
            r.status_message@.len() == 0,
    {
        let profiles = crate::config::profile_names(pp3_profiles.as_slice());
        BatchState {
            batch_folders: Vec::new(),
            selected_index: None,
            profiles,
            pp3_profiles,
            settings,
            status_message: String::new(),
        }
    }

    /// Whether a folder with path `path` is queued already.
    pub fn has_folder(&self, path: &String) -> (r: bool)
        ensures
            r == has_path(self.batch_folders@, path@),
    {
        let mut i: usize = 0;
        while i < self.batch_folders.len()
            invariant
                i <= self.batch_folders@.len(),
                forall|j: int| 0 <= j < i ==> #[trigger] self.batch_folders@[j].path@ != path@,
            decreases self.batch_folders@.len() - i,
        {
            if self.batch_folders[i].path.eq(path) {
                return true;
            }
            i = i + 1;
        }
        false
    }

    /// Queues the folder at `path` with the result of its scan, unless it is queued
    /// already; `first_extension` is the extension of its first file, if any.
    /// Gives whether the folder was added.
    pub fn add_scanned_folder(
        &mut self,
        path: String,
        scan: ScanResult,
        first_extension: Option<String>,
        processed_extensions: &[String],
    ) -> (added: bool)
        ensures
            added == !has_path(old(self).batch_folders@, path@),
            !added ==> *final(self) == *old(self),
            added ==> {
                let e = final(self).batch_folders@.last();
                &&& final(self).batch_folders@.len() == old(self).batch_folders@.len() + 1
                &&& final(self).batch_folders@.drop_last() == old(self).batch_folders@
                &&& e.path == path
                &&& e.profile@ == initial_profile(old(self).profiles@)
                &&& e.extension@ == folder_extension(
                    crate::text::opt_string_text(first_extension),
                    processed_extensions@,
                )
                &&& e.is_raw == scan.is_raw
                &&& e.align == old(self).settings.do_align
                &&& e.brackets == scan.brackets
                &&& e.sets == scan.sets
                &&& e.files == scan.files
                &&& final(self).selected_index == old(self).selected_index
                &&& final(self).profiles == old(self).profiles
                &&& final(self).pp3_profiles == old(self).pp3_profiles
                &&& final(self).settings == old(self).settings
                &&& final(self).status_message == old(self).status_message
            },
            added && old(self).profiles@.len() > 0
                ==> final(self).batch_folders@.last().profile@ == old(self).profiles@[0]@,
            added && old(self).profiles@.len() == 0
                ==> final(self).batch_folders@.last().profile@ == "Default"@,
    {
        if self.has_folder(&path) {
            return false;
        }
        let extension = match first_extension {
            Some(e) => {
                let lower = crate::text::to_lowercase(e.as_str());
                let mut dotted = String::new();
                dotted.push('.');
                push_str(&mut dotted, lower.as_str());
                assert(dotted@ =~= seq!['.'] + crate::text::lowercase(e@));
                dotted
            },
            None => if processed_extensions.len() > 0 {
                processed_extensions[0].clone()
            } else {
                owned(".tiff")
            },
        };
        let profile = if self.profiles.len() > 0 {
            self.profiles[0].clone()
        } else {
            owned("Default")
        };
        let entry = FolderEntry {
            path,
            profile,
            extension,
            is_raw: scan.is_raw,
            align: self.settings.do_align,
            brackets: scan.brackets,
            sets: scan.sets,
            files: scan.files,
        };
        let ghost before = self.batch_folders@;
        self.batch_folders.push(entry);
        assert(self.batch_folders@.drop_last() =~= before);
        true
    }

    /// Removes the selected folder, if a folder is selected, and clears the selection.
    pub fn remove_selected(&mut self)
        ensures
            match old(self).selected_index {
                Some(i) if i < old(self).batch_folders@.len() => {
                    &&& final(self).batch_folders@ == old(self).batch_folders@.remove(i as int)
                    &&& final(self).selected_index is None
                },
                _ => final(self).batch_folders@ == old(self).batch_folders@
                    && final(self).selected_index == old(self).selected_index,
            },
            final(self).profiles == old(self).profiles,
            final(self).pp3_profiles == old(self).pp3_profiles,
            final(self).settings == old(self).settings,
            final(self).status_message == old(self).status_message,
    {
        match self.selected_index {
            Some(index) => {
                if index < self.batch_folders.len() {
                    self.batch_folders.remove(index);
                    self.selected_index = None;
                }
            },
            None => {},
        }
    }

    /// Removes every queued folder and clears the selection.
    pub fn clear_all(&mut self)
        ensures
            final(self).batch_folders@.len() == 0,
            final(self).selected_index is None,
            final(self).profiles == old(self).profiles,
            final(self).pp3_profiles == old(self).pp3_profiles,
            final(self).settings == old(self).settings,
            final(self).status_message == old(self).status_message,
    {
        self.batch_folders.clear();
        self.selected_index = None;
    }

    /// Selects the folder in row `index`.
    pub fn select_folder(&mut self, index: usize)
        ensures
            final(self).selected_index == Some(index),
            final(self).batch_folders == old(self).batch_folders,
            final(self).profiles == old(self).profiles,
            final(self).pp3_profiles == old(self).pp3_profiles,
            final(self).settings == old(self).settings,
            final(self).status_message == old(self).status_message,
    {
        self.selected_index = Some(index);
    }

    /// Gives the selected folder, if any, the profile `profile`.
    pub fn select_profile(&mut self, profile: String)
        ensures
            match old(self).selected_index {
                Some(i) if i < old(self).batch_folders@.len() => final(self).batch_folders@
                    == old(self).batch_folders@.update(
                    i as int,
                    with_profile(old(self).batch_folders@[i as int], profile),
                ),
                _ => final(self).batch_folders@ == old(self).batch_folders@,
            },
            final(self).selected_index == old(self).selected_index,
            final(self).profiles == old(self).profiles,
            final(self).pp3_profiles == old(self).pp3_profiles,
            final(self).settings == old(self).settings,
            final(self).status_message == old(self).status_message,
    {
        match self.selected_index {
            Some(index) => {
                self.set_folder_profile(index, profile);
            },
            None => {},
        }
    }

    /// Gives the folder in row `index`, if there is one, the profile `profile`.
    pub fn set_folder_profile(&mut self, index: usize, profile: String)
        ensures
            index < old(self).batch_folders@.len() ==> final(self).batch_folders@ == old(self).batch_folders@.update(
                index as int,
                with_profile(old(self).batch_folders@[index as int], profile),
            ),
            index >= old(self).batch_folders@.len() ==> final(self).batch_folders@ == old(self).batch_folders@,
            final(self).selected_index == old(self).selected_index,
            final(self).profiles == old(self).profiles,
            final(self).pp3_profiles == old(self).pp3_profiles,
            final(self).settings == old(self).settings,
            final(self).status_message == old(self).status_message,
    {
        if index < self.batch_folders.len() {
            let mut f = self.batch_folders.remove(index);
            f.profile = profile;
            self.batch_folders.insert(index, f);
            assert(self.batch_folders@ =~= old(self).batch_folders@.update(
                index as int,
                with_profile(old(self).batch_folders@[index as int], profile),
            ));
        }
    }

    /// Switches alignment of the folder in row `index`, if there is one.
    pub fn toggle_folder_align(&mut self, index: usize, value: bool)
        ensures
            index < old(self).batch_folders@.len() ==> final(self).batch_folders@ == old(self).batch_folders@.update(
                index as int,
                with_align(old(self).batch_folders@[index as int], value),
            ),
            index >= old(self).batch_folders@.len() ==> final(self).batch_folders@ == old(self).batch_folders@,
            final(self).selected_index == old(self).selected_index,
            final(self).profiles == old(self).profiles,
            final(self).pp3_profiles == old(self).pp3_profiles,
            final(self).settings == old(self).settings,
            final(self).status_message == old(self).status_message,
    {
        if index < self.batch_folders.len() {
            let mut f = self.batch_folders.remove(index);
            f.align = value;
            self.batch_folders.insert(index, f);
            assert(self.batch_folders@ =~= old(self).batch_folders@.update(
                index as int,
                with_align(old(self).batch_folders@[index as int], value),
            ));
        }
    }

    /// Sets the number of threads from typed text; text that is no number gives 1.
    pub fn threads_changed(&mut self, value: &str)
        ensures
            final(self).settings.threads as nat == crate::ui::setup_dialog::or_default(
                crate::text::parse_unsigned(value@, u32::MAX as nat),
                1,
            ),
            final(self).batch_folders == old(self).batch_folders,
            final(self).selected_index == old(self).selected_index,
            final(self).profiles == old(self).profiles,
            final(self).pp3_profiles == old(self).pp3_profiles,
            final(self).status_message == old(self).status_message,
            settings_but_threads_same(old(self).settings, final(self).settings),
    {
        self.settings.threads = match crate::text::parse_unsigned_str(value, 0xffff_ffff) {
            Some(v) => v as u32,
            None => 1,
        };
    }

    /// Deletes profile `index` from the configured profiles and from the offered names,
    /// from each where it exists.
    pub fn delete_profile(&mut self, index: usize)
        ensures
            final(self).pp3_profiles@ == removed_at(old(self).pp3_profiles@, index as int),
            final(self).profiles@ == removed_at(old(self).profiles@, index as int),
            final(self).batch_folders == old(self).batch_folders,
            final(self).selected_index == old(self).selected_index,
            final(self).settings == old(self).settings,
            final(self).status_message == old(self).status_message,
    {
        if index < self.pp3_profiles.len() {
            self.pp3_profiles.remove(index);
        }
        if index < self.profiles.len() {
            self.profiles.remove(index);
        }
    }

    /// The values to edit for profile `index`.
    pub fn profile_for_edit(&self, index: usize) -> (r: (String, String, String))
        ensures
            (r.0@, r.1@, r.2@) == edit_values(self.pp3_profiles@, self.profiles@, index as int),
    {
        if index < self.pp3_profiles.len() {
            let p = &self.pp3_profiles[index];
            (p.name.clone(), p.file_path.clone(), p.tag.clone())
        } else if index < self.profiles.len() {
            (self.profiles[index].clone(), String::new(), String::new())
        } else {
            (String::new(), String::new(), String::new())
        }
    }

    /// Adds the PP3 file at `path` as a profile named after the file's stem, or
    /// `New Profile` when it has none, with an empty tag.
    pub fn add_profile_file(&mut self, path: String, stem: Option<String>)
        ensures
            final(self).pp3_profiles@.len() == old(self).pp3_profiles@.len() + 1,
            final(self).pp3_profiles@.drop_last() == old(self).pp3_profiles@,
            final(self).pp3_profiles@.last().file_path == path,
            final(self).pp3_profiles@.last().name@ == match stem {
                Some(s) => s@,
                None => "New Profile"@,
            },
            final(self).pp3_profiles@.last().tag@.len() == 0,
            crate::text::texts(final(self).profiles@) == crate::text::texts(
                old(self).profiles@,
            ).push(final(self).pp3_profiles@.last().name@),
            final(self).batch_folders == old(self).batch_folders,
            final(self).selected_index == old(self).selected_index,
            final(self).settings == old(self).settings,
            final(self).status_message == old(self).status_message,
    {
        let name = match stem {
            Some(s) => s,
            None => owned("New Profile"),
        };
        let ghost before_pp3 = self.pp3_profiles@;
        let ghost before_names = self.profiles@;
        let shown = name.clone();
        self.pp3_profiles.push(Profile { name, file_path: path, tag: String::new() });
        self.profiles.push(shown);
        assert(self.pp3_profiles@.drop_last() =~= before_pp3);
        assert(crate::text::texts(self.profiles@) =~= crate::text::texts(before_names).push(
            shown@,
        ));
    }

    /// Stores the values edited for profile `index`: in the configured profile and
    /// in the offered name, where each exists.
    pub fn apply_profile_edit(&mut self, index: usize, name: String, file_path: String, tag: String)
        ensures
            index < old(self).pp3_profiles@.len() ==> {
                &&& final(self).pp3_profiles@.len() == old(self).pp3_profiles@.len()
                &&& final(self).pp3_profiles@[index as int].name@ == name@
                &&& final(self).pp3_profiles@[index as int].file_path@ == file_path@
                &&& final(self).pp3_profiles@[index as int].tag@ == tag@
                &&& forall|j: int|
                    0 <= j < old(self).pp3_profiles@.len() && j != index ==> final(self).pp3_profiles@[j] == old(self).pp3_profiles@[j]
            },
            index >= old(self).pp3_profiles@.len() ==> final(self).pp3_profiles@ == old(self).pp3_profiles@,
            index < old(self).profiles@.len() ==> crate::text::texts(final(self).profiles@)
                == crate::text::texts(old(self).profiles@).update(index as int, name@),
            index >= old(self).profiles@.len() ==> final(self).profiles@ == old(self).profiles@,
            final(self).batch_folders == old(self).batch_folders,
            final(self).selected_index == old(self).selected_index,
            final(self).settings == old(self).settings,
            final(self).status_message == old(self).status_message,
    {
        let shown = name.clone();
        if index < self.pp3_profiles.len() {
            let mut p = self.pp3_profiles.remove(index);
            p.name = name;
            p.file_path = file_path;
            p.tag = tag;
            self.pp3_profiles.insert(index, p);
        }
        if index < self.profiles.len() {
            let ghost before = self.profiles@;
            self.profiles.remove(index);
            self.profiles.insert(index, shown);
            assert(crate::text::texts(self.profiles@) =~= crate::text::texts(before).update(
                index as int,
                name@,
            ));
        }
    }

    /// Deletes every configured profile and offers the default names again.
    pub fn clear_profiles(&mut self)
        ensures
            final(self).pp3_profiles@.len() == 0,
            crate::text::texts(final(self).profiles@) == crate::config::default_profile_names(),
            final(self).batch_folders == old(self).batch_folders,
            final(self).selected_index == old(self).selected_index,
            final(self).settings == old(self).settings,
            final(self).status_message == old(self).status_message,
    {
        self.pp3_profiles.clear();
        self.profiles = crate::config::default_profile_list();
    }

    /// Takes the configured profiles saved by the setup dialog and offers their names.
    pub fn reload_profiles(&mut self, pp3_profiles: Vec<Profile>)
        ensures
            final(self).pp3_profiles@ == pp3_profiles@,
            crate::text::texts(final(self).profiles@) == crate::config::shown_profile_names(
                pp3_profiles@,
            ),
            final(self).batch_folders == old(self).batch_folders,
            final(self).selected_index == old(self).selected_index,
            final(self).settings == old(self).settings,
            final(self).status_message == old(self).status_message,
    {
        self.profiles = crate::config::profile_names(pp3_profiles.as_slice());
        self.pp3_profiles = pp3_profiles;
    }

    /// Queues the folders of an imported batch after those already queued.
    pub fn import_folders(&mut self, folders: Vec<FolderEntry>)
        ensures
            final(self).batch_folders@ == old(self).batch_folders@ + folders@,
            final(self).status_message@ == "Import successful"@,
            final(self).selected_index == old(self).selected_index,
            final(self).profiles == old(self).profiles,
            final(self).pp3_profiles == old(self).pp3_profiles,
            final(self).settings == old(self).settings,
    {
        let mut more = folders;
        self.batch_folders.append(&mut more);
        self.status_message = owned("Import successful");
    }

    /// Takes the switches stored by the setup dialog that the window follows: the
    /// thread count, recursion, clean-up, alignment and its method, and OpenCV
    /// merging. The other switches keep their values.
    pub fn take_saved_settings(&mut self, saved: &ProcessSettings)
        ensures
            final(self).settings.threads == saved.threads,
            final(self).settings.do_recursive == saved.do_recursive,
            final(self).settings.do_cleanup == saved.do_cleanup,
            final(self).settings.do_align == saved.do_align,
            final(self).settings.use_opencv_align == saved.use_opencv_align,
            final(self).settings.use_opencv_merge == saved.use_opencv_merge,
            final(self).settings.use_opencv_merge_robertson == old(self).settings.use_opencv_merge_robertson,
            final(self).settings.use_opencv_tonemap == old(self).settings.use_opencv_tonemap,
            final(self).settings.tonemap_operator == old(self).settings.tonemap_operator,
            final(self).batch_folders == old(self).batch_folders,
            final(self).selected_index == old(self).selected_index,
            final(self).profiles == old(self).profiles,
            final(self).pp3_profiles == old(self).pp3_profiles,
            final(self).status_message == old(self).status_message,
            final(self).settings.use_rust_merge == old(self).settings.use_rust_merge,
            final(self).settings.rust_merge_debug_export == old(self).settings.rust_merge_debug_export,
    {
        self.settings.threads = saved.threads;
        self.settings.do_recursive = saved.do_recursive;
        self.settings.do_cleanup = saved.do_cleanup;
        self.settings.do_align = saved.do_align;
        self.settings.use_opencv_align = saved.use_opencv_align;
        self.settings.use_opencv_merge = saved.use_opencv_merge;
    }

    /// Whether there is something to execute; when the batch is empty the status
    /// line asks for folders.
    pub fn ready_to_execute(&mut self) -> (r: bool)
        ensures
            r == (old(self).batch_folders@.len() > 0),
            !r ==> final(self).status_message@ == "Please add folders first"@,
            r ==> final(self).status_message == old(self).status_message,
            final(self).batch_folders == old(self).batch_folders,
            final(self).selected_index == old(self).selected_index,
            final(self).profiles == old(self).profiles,
            final(self).pp3_profiles == old(self).pp3_profiles,
            final(self).settings == old(self).settings,
    {
        if self.batch_folders.len() == 0 {
            self.status_message = owned("Please add folders first");
            false
        } else {
            true
        }
    }
}

/// The tally of a batch execution: how many folders were processed and the
/// error of each folder that failed, prefixed by its path.
pub struct ExecutionSummary {
    pub total: usize,
    pub processed: usize,
    pub errors: Vec<String>,
}

/// The status line at the end of a batch execution.
pub open spec fn execution_message(total: nat, processed: nat, errors: Seq<Seq<char>>) -> Seq<
    char,
> {
    if errors.len() == 0 {
        "Successfully processed "@ + crate::text::decimal(processed) + " folders"@
    } else {
        "Completed with errors: "@ + crate::text::decimal(processed) + " of "@
            + crate::text::decimal(total) + " folders processed. Errors: "@
            + crate::text::joined(errors, "; "@)
    }
}

impl ExecutionSummary {
    /// Every folder counted is either processed or has one error.
    pub open spec fn wf(&self) -> bool {
        self.processed + self.errors@.len() <= self.total
    }

    /// A tally of `total` folders, none done.
    pub fn new(total: usize) -> (r: Self)
        ensures
            r.wf(),
            r.total == total,
            r.processed == 0,
            r.errors@.len() == 0,
    {
        ExecutionSummary { total, processed: 0, errors: Vec::new() }
    }

    /// Counts the outcome of processing the folder at `path`.
    pub fn record(&mut self, path: &String, outcome: &Result<String, String>)
        requires
            old(self).wf(),
            old(self).processed + old(self).errors@.len() < old(self).total,
        ensures
            final(self).wf(),
            final(self).total == old(self).total,
            match *outcome {
                Ok(_) => final(self).processed == old(self).processed + 1 && final(self).errors@
                    == old(self).errors@,
                Err(e) => final(self).processed == old(self).processed && crate::text::texts(
                    final(self).errors@,
                ) == crate::text::texts(old(self).errors@).push(path@ + ": "@ + e@),
            },
    {
        match outcome {
            Ok(_) => {
                self.processed = self.processed + 1;
            },
            Err(e) => {
                let mut m = String::new();
                push_str(&mut m, path.as_str());
                push_str(&mut m, ": ");
                push_str(&mut m, e.as_str());
                let ghost before = self.errors@;
                self.errors.push(m);
                assert(crate::text::texts(self.errors@) =~= crate::text::texts(before).push(m@));
            },
        }
    }

    /// The status line that ends the execution.
    pub fn message(&self) -> (r: String)
        ensures
            r@ == execution_message(
                self.total as nat,
                self.processed as nat,
                crate::text::texts(self.errors@),
            ),
    {
        let mut m = String::new();
        if self.errors.len() == 0 {
            push_str(&mut m, "Successfully processed ");
            push_decimal(&mut m, self.processed as u64);
            push_str(&mut m, " folders");
        } else {
            push_str(&mut m, "Completed with errors: ");
            push_decimal(&mut m, self.processed as u64);
            push_str(&mut m, " of ");
            push_decimal(&mut m, self.total as u64);
            push_str(&mut m, " folders processed. Errors: ");
            let j = crate::text::join_strings(self.errors.as_slice(), "; ");
            push_str(&mut m, j.as_str());
        }
        m
    }
}

/// The EXIF summary of a file: exposure, f-number and ISO, those present, joined
/// by ` | `.
pub open spec fn exif_info_parts(f: ScannedFile) -> Seq<Seq<char>> {
    let a: Seq<Seq<char>> = match f.exposure_time {
        Some(e) => seq!["Exposure: "@ + e@],
        None => Seq::empty(),
    };
    let b: Seq<Seq<char>> = match f.f_number {
        Some(n) => seq!["FNumber: "@ + n@],
        None => Seq::empty(),
    };
    let c: Seq<Seq<char>> = match f.iso {
        Some(i) => seq!["ISO: "@ + i@],
        None => Seq::empty(),
    };
    a + b + c
}

/// The EXIF summary shown next to a file; empty when the file has no EXIF values.
pub fn format_exif_info(file: &ScannedFile) -> (r: String)
    ensures
        r@ == crate::text::joined(exif_info_parts(*file), " | "@),
{
    let mut parts: Vec<String> = Vec::new();
    match &file.exposure_time {
        Some(e) => {
            let mut m = owned("Exposure: ");
            push_str(&mut m, e.as_str());
            parts.push(m);
        },
        None => {},
    }
    match &file.f_number {
        Some(n) => {
            let mut m = owned("FNumber: ");
            push_str(&mut m, n.as_str());
            parts.push(m);
        },
        None => {},
    }
    match &file.iso {
        Some(i) => {
            let mut m = owned("ISO: ");
            push_str(&mut m, i.as_str());
            parts.push(m);
        },
        None => {},
    }
    assert(crate::text::texts(parts@) =~= exif_info_parts(*file));
    crate::text::join_strings(parts.as_slice(), " | ")
}

/// The theme after the current one, the first when none is chosen.
pub open spec fn next_theme(current: Option<nat>, count: nat) -> nat {
    match current {
        Some(c) => (c + 1) % count,
        None => 0,
    }
}

/// The theme before the current one; the last one before the first, and also
/// when none is chosen.
pub open spec fn previous_theme(current: Option<nat>, count: nat) -> nat {
    match current {
        Some(c) => if c == 0 {
            (count - 1) as nat
        } else {
            (c - 1) as nat
        },
        None => (count - 1) as nat,
    }
}

/// The index of the theme after `current` among `count` themes.
pub fn next_theme_index(current: Option<usize>, count: usize) -> (r: usize)
    requires
        count > 0,
        current matches Some(c) ==> c < count,
    ensures
        r == next_theme(
            match current {
                Some(c) => Some(c as nat),
                None => None,
            },
            count as nat,
        ),
        r < count,
{
    match current {
        Some(c) => (c + 1) % count,
        None => 0,
    }
}

/// The index of the theme before `current` among `count` themes.
pub fn previous_theme_index(current: Option<usize>, count: usize) -> (r: usize)
    requires
        count > 0,
        current matches Some(c) ==> c < count,
    ensures
        r == previous_theme(
            match current {
                Some(c) => Some(c as nat),
                None => None,
            },
            count as nat,
        ),
        r < count,
{
    let c = match current {
        Some(c) => c,
        None => 0,
    };
    if c == 0 {
        count - 1
    } else {
        c - 1
    }
}

/// The index of the theme before `current` as the setup dialog steps back: the
/// first theme when none is chosen.
pub fn dialog_previous_theme_index(current: Option<usize>, count: usize) -> (r: usize)
    requires
        count > 0,
        current matches Some(c) ==> c < count,
    ensures
        current is None ==> r == 0,
        current matches Some(c) ==> r == previous_theme(Some(c as nat), count as nat),
        r < count,
{
    match current {
        Some(c) => if c == 0 {
            count - 1
        } else {
            c - 1
        },
        None => 0,
    }
}

/// Stepping to the next theme and back again returns to the theme one started
/// from, and so does stepping back and then forward.
pub proof fn lemma_theme_steps_undo(c: nat, count: nat)
    requires
        c < count,
    ensures
        previous_theme(Some(next_theme(Some(c), count)), count) == c,
        next_theme(Some(previous_theme(Some(c), count)), count) == c,
{
    if c + 1 < count {
        assert((c + 1) % count == c + 1) by {
            vstd::arithmetic::div_mod::lemma_small_mod((c + 1) as nat, count);
        }
    } else {
        assert((c + 1) % count == 0) by {
            vstd::arithmetic::div_mod::lemma_mod_self_0(count as int);
        }
    }
    if c == 0 {
        assert(count % count == 0) by {
            vstd::arithmetic::div_mod::lemma_mod_self_0(count as int);
        }
    } else {
        assert(c % count == c) by {
            vstd::arithmetic::div_mod::lemma_small_mod(c, count);
        }
    }
}

/// A change of the interface scale asked for from the keyboard.
#[derive(Debug, Clone, Copy, PartialEq, Eq, Structural)]
pub enum ScaleKey {
    Increase,
    Decrease,
}

/// The scale change a key press asks for: `=` and `+` enlarge, `-` shrinks,
/// other keys ask for none.
pub fn scale_key(key: &str) -> (r: Option<ScaleKey>)
    ensures
        (key@ == "="@ || key@ == "+"@) ==> r == Some(ScaleKey::Increase),
        key@ == "-"@ ==> r == Some(ScaleKey::Decrease),
        !(key@ == "="@ || key@ == "+"@ || key@ == "-"@) ==> r is None,
{
    let k = owned(key);
    proof {
        reveal_strlit("=");
        reveal_strlit("+");
        reveal_strlit("-");
        assert("-"@[0] != "="@[0] && "-"@[0] != "+"@[0]);
    }
    if crate::text::equals_text(&k, "=") || crate::text::equals_text(&k, "+") {
        Some(ScaleKey::Increase)
    } else if crate::text::equals_text(&k, "-") {
        Some(ScaleKey::Decrease)
    } else {
        None
    }
}

/// Once every folder of a batch has been counted, the execution reports success
/// exactly when every folder was processed.
pub proof fn lemma_execution_succeeds_iff_all_processed(summary: ExecutionSummary)
    requires
        summary.processed + summary.errors@.len() == summary.total,
    ensures
        (summary.errors@.len() == 0) <==> (summary.processed == summary.total),
        summary.processed == summary.total ==> execution_message(
            summary.total as nat,
            summary.processed as nat,
            crate::text::texts(summary.errors@),
        ) == "Successfully processed "@ + crate::text::decimal(summary.processed as nat)
            + " folders"@,
{
}

/// Deleting a profile keeps the offered names equal to the names of the configured
/// profiles, when they were equal before.
pub proof fn lemma_delete_keeps_names(pp3: Seq<Profile>, names: Seq<String>, i: int)
    requires
        names_match(pp3, names),
    ensures
        names_match(removed_at(pp3, i), removed_at(names, i)),
{
    assert(crate::text::texts(names).len() == names.len());
    assert(crate::config::names_of(pp3).len() == pp3.len());
    if 0 <= i < pp3.len() {
        assert(crate::text::texts(names.remove(i)) =~= crate::text::texts(names).remove(i));
        assert(crate::config::names_of(pp3.remove(i)) =~= crate::config::names_of(pp3).remove(i));
    }
}

/// Adding a profile keeps the offered names equal to the names of the configured
/// profiles, when they were equal before.
pub proof fn lemma_add_keeps_names(
    pp3: Seq<Profile>,
    names: Seq<String>,
    added: Profile,
    new_names: Seq<String>,
)
    requires
        names_match(pp3, names),
        crate::text::texts(new_names) == crate::text::texts(names).push(added.name@),
    ensures
        names_match(pp3.push(added), new_names),
{
    assert(crate::config::names_of(pp3.push(added)) =~= crate::config::names_of(pp3).push(
        added.name@,
    ));
}

/// Editing a configured profile keeps the offered names equal to the names of the
/// configured profiles, when they were equal before.
pub proof fn lemma_edit_keeps_names(
    pp3: Seq<Profile>,
    names: Seq<String>,
    i: int,
    new_pp3: Seq<Profile>,
    new_names: Seq<String>,
    name: Seq<char>,
)
    requires
        names_match(pp3, names),
        0 <= i < pp3.len(),
        new_pp3.len() == pp3.len(),
        new_pp3[i].name@ == name,
        forall|j: int| 0 <= j < pp3.len() && j != i ==> new_pp3[j] == pp3[j],
        crate::text::texts(new_names) == crate::text::texts(names).update(i, name),
    ensures
        names_match(new_pp3, new_names),
{
    assert(crate::text::texts(names).len() == names.len());
    assert(crate::config::names_of(new_pp3) =~= crate::config::names_of(pp3).update(i, name));
}

/// No two queued folders have the same path.
pub open spec fn paths_distinct(folders: Seq<FolderEntry>) -> bool {
    forall|i: int, j: int|
        0 <= i < folders.len() && 0 <= j < folders.len() && i != j ==> folders[i].path@
            != folders[j].path@
}

/// Queuing a scanned folder keeps the paths of the queued folders pairwise distinct:
/// a folder is added only when its path is new.
pub proof fn lemma_add_keeps_paths_distinct(
    before: Seq<FolderEntry>,
    after: Seq<FolderEntry>,
    path: String,
    added: bool,
)
    requires
        paths_distinct(before),
        added == !has_path(before, path@),
        !added ==> after == before,
        added ==> after.len() == before.len() + 1 && after.drop_last() == before
            && after.last().path == path,
    ensures
        paths_distinct(after),
{
    if added {
        assert forall|i: int, j: int|
            0 <= i < after.len() && 0 <= j < after.len() && i != j implies after[i].path@
            != after[j].path@ by {
            if i < before.len() && j < before.len() {
                assert(after[i] == before[i] && after[j] == before[j]);
            } else if i < before.len() {
                assert(after[i] == before[i]);
                assert(after[j] == after.last());
            } else {
                assert(after[j] == before[j]);
                assert(after[i] == after.last());
            }
        }
    }
}

} // verus!
