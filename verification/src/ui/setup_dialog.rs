//! The setup dialog's form: the settings as editable text, how each edit
//! changes the form or the processing switches, and the values a save stores.

use vstd::prelude::*;

use crate::config::{ExePaths, ProcessSettings};
use crate::text::{join_strings, owned, push_decimal};

verus! {

/// Alignment method choice.
#[derive(Debug, Clone, Copy, PartialEq, Eq, Structural)]
pub enum AlignMethod {
    AlignImageStack,
    OpenCvAlign,
}

/// HDR merge method choice.
#[derive(Debug, Clone, Copy, PartialEq, Eq, Structural)]
pub enum MergeMethod {
    Blender,
    OpenCvDebevec,
    OpenCvRobertson,
    Rust,
}

/// Tone mapping method choice.
#[derive(Debug, Clone, Copy, PartialEq, Eq, Structural)]
pub enum TonemapMethod {
    Luminance,
    OpenCv,
}

/// The tone mapping operators offered.
#[derive(Debug, Clone, Copy, PartialEq, Eq, Structural)]
pub enum ToneMapChoice {
    Reinhard,
    Drago,
    Durand,
    Mantiuk,
}

impl ToneMapChoice {
    /// The operator named `op`; Reinhard for any name not offered.
    pub fn from_operator(op: &str) -> (r: Self)
        ensures
            r == (if op@ == "Drago"@ {
                ToneMapChoice::Drago
            } else if op@ == "Durand"@ {
                ToneMapChoice::Durand
            } else if op@ == "Mantiuk"@ {
                ToneMapChoice::Mantiuk
            } else {
                ToneMapChoice::Reinhard
            }),
    {
        let s = owned(op);
        if crate::text::equals_text(&s, "Drago") {
            ToneMapChoice::Drago
        } else if crate::text::equals_text(&s, "Durand") {
            ToneMapChoice::Durand
        } else if crate::text::equals_text(&s, "Mantiuk") {
            ToneMapChoice::Mantiuk
        } else {
            ToneMapChoice::Reinhard
        }
    }
}

/// The edits of the setup form that stay within the library: typed text, switches,
/// method choices and page changes.
#[derive(Debug, Clone)]
pub enum SetupMessage {
    ThreadsChanged(String),
    ToggleRecursive(bool),
    ToggleCleanup(bool),
    ToggleAlign(bool),
    AlignMethodSelected(AlignMethod),
    MergeMethodSelected(MergeMethod),
    TonemapMethodSelected(TonemapMethod),
    ToggleRustMergeDebug(bool),
    RecursiveMaxDepthChanged(String),
    TonemapOperatorChanged(String),
    TonemapIntensityChanged(String),
    TonemapContrastChanged(String),
    TonemapSaturationChanged(String),
    ProcessedExtensionsChanged(String),
    RawExtensionsChanged(String),
    RecursiveIgnoreFoldersChanged(String),
    AlignImageStackPathChanged(String),
    BlenderPathChanged(String),
    LuminancePathChanged(String),
    RawtherapeePathChanged(String),
    ProcessPage,
    FolderPage,
    GuiPage,
    ExePage,
    TonemapOperatorSelected(String),
}

/// The setup form: every setting as the text being edited.
pub struct SetupForm {
    pub show: bool,
    pub threads_str: String,
    pub processed_exts_str: String,
    pub raw_exts_str: String,
    pub ignore_folders_str: String,
    pub tonemap_operator: String,
    pub tonemap_intensity_str: String,
    pub tonemap_contrast_str: String,
    pub tonemap_saturation_str: String,
    pub recursive_max_depth_str: String,
    pub align_image_stack_exe: String,
    pub blender_exe: String,
    pub luminance_cli_exe: String,
    pub rawtherapee_cli_exe: String,
    pub setup_page: String,
}

/// The settings a save stores, apart from the tone mapping numbers, which are
/// read from `tonemap_intensity_str` and its siblings by the caller.
pub struct SetupValues {
    pub threads: u8,
    pub processed_extensions: Vec<String>,
    pub raw_extensions: Vec<String>,
    pub recursive_ignore_folders: Vec<String>,
    pub tonemap_operator: String,
    pub recursive_max_depth: u32,
    pub exe_paths: ExePaths,
}

/// `value` when the parse gave one, else `default`.
pub open spec fn or_default(parsed: Option<nat>, default: nat) -> nat {
    match parsed {
        Some(v) => v,
        None => default,
    }
}

impl SetupForm {
    /// A hidden form on the process page.
    pub fn new() -> (r: Self)
        ensures
            !r.show,
            r.tonemap_operator@ == "Reinhard"@,
            r.setup_page@ == "process_page"@,
            r.threads_str@.len() == 0,
            r.processed_exts_str@.len() == 0,
            r.raw_exts_str@.len() == 0,
            r.ignore_folders_str@.len() == 0,
            r.tonemap_intensity_str@.len() == 0,
            r.tonemap_contrast_str@.len() == 0,
            r.tonemap_saturation_str@.len() == 0,
            r.recursive_max_depth_str@.len() == 0,
            r.align_image_stack_exe@.len() == 0,
            r.blender_exe@.len() == 0,
            r.luminance_cli_exe@.len() == 0,
            r.rawtherapee_cli_exe@.len() == 0,
    {
        SetupForm {
            show: false,
            threads_str: String::new(),
            processed_exts_str: String::new(),
            raw_exts_str: String::new(),
            ignore_folders_str: String::new(),
            tonemap_operator: owned("Reinhard"),
            tonemap_intensity_str: String::new(),
            tonemap_contrast_str: String::new(),
            tonemap_saturation_str: String::new(),
            recursive_max_depth_str: String::new(),
            align_image_stack_exe: String::new(),
            blender_exe: String::new(),
            luminance_cli_exe: String::new(),
            rawtherapee_cli_exe: String::new(),
            setup_page: owned("process_page"),
        }
    }

    /// Fills the form from the stored settings and shows it. The tone mapping
    /// numbers come already written as text.
    pub fn open(
        &mut self,
        threads: u8,
        processed_extensions: &[String],
        raw_extensions: &[String],
        ignore_folders: &[String],
        tonemap_operator: &String,
        intensity_text: String,
        contrast_text: String,
        saturation_text: String,
        recursive_max_depth: u32,
        exe_paths: &ExePaths,
    )
        ensures
            final(self).show,
            final(self).threads_str@ == crate::text::decimal(threads as nat),
            final(self).processed_exts_str@ == crate::text::joined(
                crate::text::texts(processed_extensions@),
                ","@,
            ),
            final(self).raw_exts_str@ == crate::text::joined(
                crate::text::texts(raw_extensions@),
                ","@,
            ),
            final(self).ignore_folders_str@ == crate::text::joined(
                crate::text::texts(ignore_folders@),
                ","@,
            ),
            final(self).tonemap_operator@ == tonemap_operator@,
            final(self).tonemap_intensity_str == intensity_text,
            final(self).tonemap_contrast_str == contrast_text,
            final(self).tonemap_saturation_str == saturation_text,
            final(self).recursive_max_depth_str@ == crate::text::decimal(
                recursive_max_depth as nat,
            ),
            final(self).align_image_stack_exe@ == exe_paths.align_image_stack_exe@,
            final(self).blender_exe@ == exe_paths.blender_exe@,
            final(self).luminance_cli_exe@ == exe_paths.luminance_cli_exe@,
            final(self).rawtherapee_cli_exe@ == exe_paths.rawtherapee_cli_exe@,
            final(self).setup_page == old(self).setup_page,
    {
        self.threads_str = crate::text::decimal_string(threads as u64);
        self.processed_exts_str = join_strings(processed_extensions, ",");
        self.raw_exts_str = join_strings(raw_extensions, ",");
        self.ignore_folders_str = join_strings(ignore_folders, ",");
        self.tonemap_operator = tonemap_operator.clone();
        self.tonemap_intensity_str = intensity_text;
        self.tonemap_contrast_str = contrast_text;
        self.tonemap_saturation_str = saturation_text;
        let mut depth = String::new();
        push_decimal(&mut depth, recursive_max_depth as u64);
        self.recursive_max_depth_str = depth;
        self.align_image_stack_exe = exe_paths.align_image_stack_exe.clone();
        self.blender_exe = exe_paths.blender_exe.clone();
        self.luminance_cli_exe = exe_paths.luminance_cli_exe.clone();
        self.rawtherapee_cli_exe = exe_paths.rawtherapee_cli_exe.clone();
        self.show = true;
    }

    /// The settings the form stores on save: numbers that do not parse fall back
    /// to 6 threads and a depth of 1; lists are split at commas, trimmed, and
    /// empty items dropped.
    pub fn save(&self) -> (r: SetupValues)
        ensures
            r.threads as nat == or_default(
                crate::text::parse_unsigned(self.threads_str@, 255),
                6,
            ),
            crate::text::texts(r.processed_extensions@) == crate::text::settings_list(
                self.processed_exts_str@,
            ),
            crate::text::texts(r.raw_extensions@) == crate::text::settings_list(
                self.raw_exts_str@,
            ),
            crate::text::texts(r.recursive_ignore_folders@) == crate::text::settings_list(
                self.ignore_folders_str@,
            ),
            r.tonemap_operator@ == self.tonemap_operator@,
            r.recursive_max_depth as nat == or_default(
                crate::text::parse_unsigned(self.recursive_max_depth_str@, u32::MAX as nat),
                1,
            ),
            r.exe_paths.align_image_stack_exe@ == self.align_image_stack_exe@,
            r.exe_paths.blender_exe@ == self.blender_exe@,
            r.exe_paths.luminance_cli_exe@ == self.luminance_cli_exe@,
            r.exe_paths.rawtherapee_cli_exe@ == self.rawtherapee_cli_exe@,
    {
        let threads: u8 = match crate::text::parse_unsigned_str(self.threads_str.as_str(), 255) {
            Some(v) => v as u8,
            None => 6,
        };
        let depth: u32 = match crate::text::parse_unsigned_str(
            self.recursive_max_depth_str.as_str(),
            0xffff_ffff,
        ) {
            Some(v) => v as u32,
            None => 1,
        };
        SetupValues {
            threads,
            processed_extensions: crate::text::split_settings_list(
                self.processed_exts_str.as_str(),
            ),
            raw_extensions: crate::text::split_settings_list(self.raw_exts_str.as_str()),
            recursive_ignore_folders: crate::text::split_settings_list(
                self.ignore_folders_str.as_str(),
            ),
            tonemap_operator: self.tonemap_operator.clone(),
            recursive_max_depth: depth,
            exe_paths: ExePaths {
                align_image_stack_exe: self.align_image_stack_exe.clone(),
                blender_exe: self.blender_exe.clone(),
                luminance_cli_exe: self.luminance_cli_exe.clone(),
                rawtherapee_cli_exe: self.rawtherapee_cli_exe.clone(),
            },
        }
    }

    /// Hides the form.
    pub fn cancel(&mut self)
        ensures
            !final(self).show,
    {
        self.show = false;
    }
}

/// The text fields of the form, in order: threads, processed extensions, raw
/// extensions, ignored folders, tone mapping operator, intensity, contrast,
/// saturation, recursion depth, the four program paths, and the page shown.
pub open spec fn form_text(f: SetupForm) -> Seq<Seq<char>> {
    seq![
        f.threads_str@,
        f.processed_exts_str@,
        f.raw_exts_str@,
        f.ignore_folders_str@,
        f.tonemap_operator@,
        f.tonemap_intensity_str@,
        f.tonemap_contrast_str@,
        f.tonemap_saturation_str@,
        f.recursive_max_depth_str@,
        f.align_image_stack_exe@,
        f.blender_exe@,
        f.luminance_cli_exe@,
        f.rawtherapee_cli_exe@,
        f.setup_page@,
    ]
}

/// The text field a message edits (its position in `form_text`) and its new text.
pub open spec fn text_edit(m: SetupMessage) -> Option<(int, Seq<char>)> {
    match m {
        SetupMessage::ThreadsChanged(v) => Some((0, v@)),
        SetupMessage::ProcessedExtensionsChanged(v) => Some((1, v@)),
        SetupMessage::RawExtensionsChanged(v) => Some((2, v@)),
        SetupMessage::RecursiveIgnoreFoldersChanged(v) => Some((3, v@)),
        SetupMessage::TonemapOperatorChanged(v) => Some((4, v@)),
        SetupMessage::TonemapOperatorSelected(v) => Some((4, v@)),
        SetupMessage::TonemapIntensityChanged(v) => Some((5, v@)),
        SetupMessage::TonemapContrastChanged(v) => Some((6, v@)),
        SetupMessage::TonemapSaturationChanged(v) => Some((7, v@)),
        SetupMessage::RecursiveMaxDepthChanged(v) => Some((8, v@)),
        SetupMessage::AlignImageStackPathChanged(v) => Some((9, v@)),
        SetupMessage::BlenderPathChanged(v) => Some((10, v@)),
        SetupMessage::LuminancePathChanged(v) => Some((11, v@)),
        SetupMessage::RawtherapeePathChanged(v) => Some((12, v@)),
        SetupMessage::ProcessPage => Some((13, "process_page"@)),
        SetupMessage::FolderPage => Some((13, "folder_page"@)),
        SetupMessage::GuiPage => Some((13, "gui_page"@)),
        SetupMessage::ExePage => Some((13, "exe_page"@)),
        _ => None,
    }
}

/// Each text edit sets its own field of the form to the new text, the page
/// choices set the page, and every other text field keeps its value: editing the
/// processed extensions, say, changes them and leaves the raw extensions alone.
pub proof fn lemma_text_edit_sets_own_field(before: SetupForm, after: SetupForm, m: SetupMessage)
    requires
        match text_edit(m) {
            Some((k, v)) => form_text(after) == form_text(before).update(k, v),
            None => form_text(after) == form_text(before),
        },
    ensures
        after.threads_str@ == match m {
            SetupMessage::ThreadsChanged(t) => t@,
            _ => before.threads_str@,
        },
        after.processed_exts_str@ == match m {
            SetupMessage::ProcessedExtensionsChanged(t) => t@,
            _ => before.processed_exts_str@,
        },
        after.raw_exts_str@ == match m {
            SetupMessage::RawExtensionsChanged(t) => t@,
            _ => before.raw_exts_str@,
        },
        after.ignore_folders_str@ == match m {
            SetupMessage::RecursiveIgnoreFoldersChanged(t) => t@,
            _ => before.ignore_folders_str@,
        },
        after.tonemap_operator@ == match m {
            SetupMessage::TonemapOperatorChanged(t) => t@,
            SetupMessage::TonemapOperatorSelected(t) => t@,
            _ => before.tonemap_operator@,
        },
        after.tonemap_intensity_str@ == match m {
            SetupMessage::TonemapIntensityChanged(t) => t@,
            _ => before.tonemap_intensity_str@,
        },
        after.tonemap_contrast_str@ == match m {
            SetupMessage::TonemapContrastChanged(t) => t@,
            _ => before.tonemap_contrast_str@,
        },
        after.tonemap_saturation_str@ == match m {
            SetupMessage::TonemapSaturationChanged(t) => t@,
            _ => before.tonemap_saturation_str@,
        },
        after.recursive_max_depth_str@ == match m {
            SetupMessage::RecursiveMaxDepthChanged(t) => t@,
            _ => before.recursive_max_depth_str@,
        },
        after.align_image_stack_exe@ == match m {
            SetupMessage::AlignImageStackPathChanged(t) => t@,
            _ => before.align_image_stack_exe@,
        },
        after.blender_exe@ == match m {
            SetupMessage::BlenderPathChanged(t) => t@,
            _ => before.blender_exe@,
        },
        after.luminance_cli_exe@ == match m {
            SetupMessage::LuminancePathChanged(t) => t@,
            _ => before.luminance_cli_exe@,
        },
        after.rawtherapee_cli_exe@ == match m {
            SetupMessage::RawtherapeePathChanged(t) => t@,
            _ => before.rawtherapee_cli_exe@,
        },
        after.setup_page@ == match m {
            SetupMessage::ProcessPage => "process_page"@,
            SetupMessage::FolderPage => "folder_page"@,
            SetupMessage::GuiPage => "gui_page"@,
            SetupMessage::ExePage => "exe_page"@,
            _ => before.setup_page@,
        },
{
    reveal_strlit("process_page");
    reveal_strlit("folder_page");
    reveal_strlit("gui_page");
    reveal_strlit("exe_page");
    let t = form_text(after);
    assert(t[0] == after.threads_str@);
    assert(t[1] == after.processed_exts_str@);
    assert(t[2] == after.raw_exts_str@);
    assert(t[3] == after.ignore_folders_str@);
    assert(t[4] == after.tonemap_operator@);
    assert(t[5] == after.tonemap_intensity_str@);
    assert(t[6] == after.tonemap_contrast_str@);
    assert(t[7] == after.tonemap_saturation_str@);
    assert(t[8] == after.recursive_max_depth_str@);
    assert(t[9] == after.align_image_stack_exe@);
    assert(t[10] == after.blender_exe@);
    assert(t[11] == after.luminance_cli_exe@);
    assert(t[12] == after.rawtherapee_cli_exe@);
    assert(t[13] == after.setup_page@);
}

/// How an edit changes the processing switches: toggles set their switch, a
/// method choice sets the switches of that method (exactly one merge switch for a
/// merge method other than Blender's, none for Blender's), and nothing else changes.
pub open spec fn switch_update(before: ProcessSettings, after: ProcessSettings, m: SetupMessage) -> bool {
    &&& after.threads == before.threads
    &&& after.tonemap_operator == before.tonemap_operator
    &&& after.do_recursive == match m {
        SetupMessage::ToggleRecursive(v) => v,
        _ => before.do_recursive,
    }
    &&& after.do_cleanup == match m {
        SetupMessage::ToggleCleanup(v) => v,
        _ => before.do_cleanup,
    }
    &&& after.do_align == match m {
        SetupMessage::ToggleAlign(v) => v,
        _ => before.do_align,
    }
    &&& after.use_opencv_align == match m {
        SetupMessage::AlignMethodSelected(a) => a == AlignMethod::OpenCvAlign,
        _ => before.use_opencv_align,
    }
    &&& after.use_opencv_merge == match m {
        SetupMessage::MergeMethodSelected(a) => a == MergeMethod::OpenCvDebevec,
        _ => before.use_opencv_merge,
    }
    &&& after.use_opencv_merge_robertson == match m {
        SetupMessage::MergeMethodSelected(a) => a == MergeMethod::OpenCvRobertson,
        _ => before.use_opencv_merge_robertson,
    }
    &&& after.use_rust_merge == match m {
        SetupMessage::MergeMethodSelected(a) => a == MergeMethod::Rust,
        _ => before.use_rust_merge,
    }
    &&& after.rust_merge_debug_export == match m {
        SetupMessage::ToggleRustMergeDebug(v) => v,
        _ => before.rust_merge_debug_export,
    }
    &&& after.use_opencv_tonemap == match m {
        SetupMessage::TonemapMethodSelected(a) => a == TonemapMethod::OpenCv,
        _ => before.use_opencv_tonemap,
    }
}

/// Applies an edit to the processing switches.
fn apply_switch(message: &SetupMessage, switches: &mut ProcessSettings)
    ensures
        switch_update(*old(switches), *final(switches), *message),
{
    match message {
        SetupMessage::ToggleRecursive(value) => {
            switches.do_recursive = *value;
        },
        SetupMessage::ToggleCleanup(value) => {
            switches.do_cleanup = *value;
        },
        SetupMessage::ToggleAlign(value) => {
            switches.do_align = *value;
        },
        SetupMessage::AlignMethodSelected(method) => {
            switches.use_opencv_align = match *method {
                AlignMethod::AlignImageStack => false,
                AlignMethod::OpenCvAlign => true,
            };
        },
        SetupMessage::MergeMethodSelected(method) => {
            match *method {
                MergeMethod::OpenCvDebevec => {
                    switches.use_opencv_merge = true;
                    switches.use_opencv_merge_robertson = false;
                    switches.use_rust_merge = false;
                },
                MergeMethod::OpenCvRobertson => {
                    switches.use_opencv_merge = false;
                    switches.use_opencv_merge_robertson = true;
                    switches.use_rust_merge = false;
                },
                MergeMethod::Rust => {
                    switches.use_opencv_merge = false;
                    switches.use_opencv_merge_robertson = false;
                    switches.use_rust_merge = true;
                },
                MergeMethod::Blender => {
                    switches.use_opencv_merge = false;
                    switches.use_opencv_merge_robertson = false;
                    switches.use_rust_merge = false;
                },
            }
        },
        SetupMessage::ToggleRustMergeDebug(value) => {
            switches.rust_merge_debug_export = *value;
        },
        SetupMessage::TonemapMethodSelected(method) => {
            switches.use_opencv_tonemap = match *method {
                TonemapMethod::Luminance => false,
                TonemapMethod::OpenCv => true,
            };
        },
        _ => {},
    }
}

impl SetupForm {
    /// Takes an edit: text edits change their field of the form; switches and
    /// method choices change the processing switches at once.
    pub fn update(&mut self, message: SetupMessage, switches: &mut ProcessSettings)
        ensures
            final(self).show == old(self).show,
            match text_edit(message) {
                Some((k, v)) => form_text(*final(self)) == form_text(*old(self)).update(k, v),
                None => form_text(*final(self)) == form_text(*old(self)),
            },
            switch_update(*old(switches), *final(switches), message),
            final(self).threads_str@ == match message {
                SetupMessage::ThreadsChanged(t) => t@,
                _ => old(self).threads_str@,
            },
            final(self).processed_exts_str@ == match message {
                SetupMessage::ProcessedExtensionsChanged(t) => t@,
                _ => old(self).processed_exts_str@,
            },
            final(self).raw_exts_str@ == match message {
                SetupMessage::RawExtensionsChanged(t) => t@,
                _ => old(self).raw_exts_str@,
            },
            final(self).ignore_folders_str@ == match message {
                SetupMessage::RecursiveIgnoreFoldersChanged(t) => t@,
                _ => old(self).ignore_folders_str@,
            },
            final(self).tonemap_operator@ == match message {
                SetupMessage::TonemapOperatorChanged(t) => t@,
                SetupMessage::TonemapOperatorSelected(t) => t@,
                _ => old(self).tonemap_operator@,
            },
            final(self).tonemap_intensity_str@ == match message {
                SetupMessage::TonemapIntensityChanged(t) => t@,
                _ => old(self).tonemap_intensity_str@,
            },
            final(self).tonemap_contrast_str@ == match message {
                SetupMessage::TonemapContrastChanged(t) => t@,
                _ => old(self).tonemap_contrast_str@,
            },
            final(self).tonemap_saturation_str@ == match message {
                SetupMessage::TonemapSaturationChanged(t) => t@,
                _ => old(self).tonemap_saturation_str@,
            },
            final(self).recursive_max_depth_str@ == match message {
                SetupMessage::RecursiveMaxDepthChanged(t) => t@,
                _ => old(self).recursive_max_depth_str@,
            },
            final(self).align_image_stack_exe@ == match message {
                SetupMessage::AlignImageStackPathChanged(t) => t@,
                _ => old(self).align_image_stack_exe@,
            },
            final(self).blender_exe@ == match message {
                SetupMessage::BlenderPathChanged(t) => t@,
                _ => old(self).blender_exe@,
            },
            final(self).luminance_cli_exe@ == match message {
                SetupMessage::LuminancePathChanged(t) => t@,
                _ => old(self).luminance_cli_exe@,
            },
            final(self).rawtherapee_cli_exe@ == match message {
                SetupMessage::RawtherapeePathChanged(t) => t@,
                _ => old(self).rawtherapee_cli_exe@,
            },
            final(self).setup_page@ == match message {
                SetupMessage::ProcessPage => "process_page"@,
                SetupMessage::FolderPage => "folder_page"@,
                SetupMessage::GuiPage => "gui_page"@,
                SetupMessage::ExePage => "exe_page"@,
                _ => old(self).setup_page@,
            },
    {
        apply_switch(&message, switches);
        let ghost before = form_text(*self);
        match message {
            SetupMessage::ThreadsChanged(value) => {
                self.threads_str = value;
            },
            SetupMessage::RecursiveMaxDepthChanged(value) => {
                self.recursive_max_depth_str = value;
            },
            SetupMessage::TonemapOperatorChanged(value) => {
                self.tonemap_operator = value;
            },
            SetupMessage::TonemapIntensityChanged(value) => {
                self.tonemap_intensity_str = value;
            },
            SetupMessage::TonemapContrastChanged(value) => {
                self.tonemap_contrast_str = value;
            },
            SetupMessage::TonemapSaturationChanged(value) => {
                self.tonemap_saturation_str = value;
            },
            SetupMessage::ProcessedExtensionsChanged(value) => {
                self.processed_exts_str = value;
            },
            SetupMessage::RawExtensionsChanged(value) => {
                self.raw_exts_str = value;
            },
            SetupMessage::RecursiveIgnoreFoldersChanged(value) => {
                self.ignore_folders_str = value;
            },
            SetupMessage::AlignImageStackPathChanged(value) => {
                self.align_image_stack_exe = value;
            },
            SetupMessage::BlenderPathChanged(value) => {
                self.blender_exe = value;
            },
            SetupMessage::LuminancePathChanged(value) => {
                self.luminance_cli_exe = value;
            },
            SetupMessage::RawtherapeePathChanged(value) => {
                self.rawtherapee_cli_exe = value;
            },
            SetupMessage::ProcessPage => {
                self.setup_page = owned("process_page");
            },
            SetupMessage::FolderPage => {
                self.setup_page = owned("folder_page");
            },
            SetupMessage::GuiPage => {
                self.setup_page = owned("gui_page");
            },
            SetupMessage::ExePage => {
                self.setup_page = owned("exe_page");
            },
            SetupMessage::TonemapOperatorSelected(operator) => {
                self.tonemap_operator = operator;
            },
            _ => {},
        }
        proof {
            match text_edit(message) {
                Some((k, v)) => {
                    assert(form_text(*self) =~= before.update(k, v));
                },
                None => {
                    assert(form_text(*self) =~= before);
                },
            }
        }
    }
}

/// Opening the setup dialog on stored settings and saving it unchanged stores the
/// same thread count, lists and recursion depth, as long as every list item is
/// non-empty, trimmed and free of commas.
pub proof fn lemma_open_save_roundtrip(
    form: SetupForm,
    threads: u8,
    processed: Seq<Seq<char>>,
    raw: Seq<Seq<char>>,
    ignored: Seq<Seq<char>>,
    depth: u32,
)
    requires
        form.threads_str@ == crate::text::decimal(threads as nat),
        form.processed_exts_str@ == crate::text::joined(processed, ","@),
        form.raw_exts_str@ == crate::text::joined(raw, ","@),
        form.ignore_folders_str@ == crate::text::joined(ignored, ","@),
        form.recursive_max_depth_str@ == crate::text::decimal(depth as nat),
        forall|k: int| 0 <= k < processed.len() ==> crate::text::is_list_item(#[trigger] processed[k]),
        forall|k: int| 0 <= k < raw.len() ==> crate::text::is_list_item(#[trigger] raw[k]),
        forall|k: int| 0 <= k < ignored.len() ==> crate::text::is_list_item(#[trigger] ignored[k]),
    ensures
        or_default(crate::text::parse_unsigned(form.threads_str@, 255), 6) == threads,
        crate::text::settings_list(form.processed_exts_str@) == processed,
        crate::text::settings_list(form.raw_exts_str@) == raw,
        crate::text::settings_list(form.ignore_folders_str@) == ignored,
        or_default(crate::text::parse_unsigned(form.recursive_max_depth_str@, u32::MAX as nat), 1)
            == depth,
{
    crate::text::lemma_parse_decimal_roundtrip(threads as nat, 255);
    crate::text::lemma_parse_decimal_roundtrip(depth as nat, u32::MAX as nat);
    reveal_strlit(",");
    assert(","@ =~= seq![',']);
    crate::text::lemma_settings_list_roundtrip(processed);
    crate::text::lemma_settings_list_roundtrip(raw);
    crate::text::lemma_settings_list_roundtrip(ignored);
}

/// The alignment method the switches stand for.
pub open spec fn align_method_spec(s: ProcessSettings) -> AlignMethod {
    if s.use_opencv_align {
        AlignMethod::OpenCvAlign
    } else {
        AlignMethod::AlignImageStack
    }
}

/// The merge method the switches stand for: OpenCV's Debevec merge, else
/// Robertson's, else the Rust merge, whichever is chosen first, else Blender.
pub open spec fn merge_method_spec(s: ProcessSettings) -> MergeMethod {
    if s.use_opencv_merge {
        MergeMethod::OpenCvDebevec
    } else if s.use_opencv_merge_robertson {
        MergeMethod::OpenCvRobertson
    } else if s.use_rust_merge {
        MergeMethod::Rust
    } else {
        MergeMethod::Blender
    }
}

/// The tone mapping method the switches stand for.
pub open spec fn tonemap_method_spec(s: ProcessSettings) -> TonemapMethod {
    if s.use_opencv_tonemap {
        TonemapMethod::OpenCv
    } else {
        TonemapMethod::Luminance
    }
}

/// The alignment method the setup dialog shows as chosen.
pub fn align_method_of(switches: &ProcessSettings) -> (r: AlignMethod)
    ensures
        r == align_method_spec(*switches),
{
    if switches.use_opencv_align {
        AlignMethod::OpenCvAlign
    } else {
        AlignMethod::AlignImageStack
    }
}

/// The merge method the setup dialog shows as chosen.
pub fn merge_method_of(switches: &ProcessSettings) -> (r: MergeMethod)
    ensures
        r == merge_method_spec(*switches),
{
    if switches.use_opencv_merge {
        MergeMethod::OpenCvDebevec
    } else if switches.use_opencv_merge_robertson {
        MergeMethod::OpenCvRobertson
    } else if switches.use_rust_merge {
        MergeMethod::Rust
    } else {
        MergeMethod::Blender
    }
}

/// The tone mapping method the setup dialog shows as chosen.
pub fn tonemap_method_of(switches: &ProcessSettings) -> (r: TonemapMethod)
    ensures
        r == tonemap_method_spec(*switches),
{
    if switches.use_opencv_tonemap {
        TonemapMethod::OpenCv
    } else {
        TonemapMethod::Luminance
    }
}

/// The merge tool that processing uses for a merge method.
pub open spec fn tool_of_method(m: MergeMethod) -> crate::process::processor::MergeTool {
    match m {
        MergeMethod::Blender => crate::process::processor::MergeTool::Blender,
        MergeMethod::OpenCvDebevec => crate::process::processor::MergeTool::OpenCvDebevec,
        MergeMethod::OpenCvRobertson => crate::process::processor::MergeTool::OpenCvRobertson,
        MergeMethod::Rust => crate::process::processor::MergeTool::Rust,
    }
}

/// Choosing a method in the setup dialog makes it the method the dialog shows,
/// and a chosen merge method is the merge that processing uses.
pub proof fn lemma_chosen_method_is_shown(
    before: ProcessSettings,
    after: ProcessSettings,
    message: SetupMessage,
)
    requires
        switch_update(before, after, message),
    ensures
        message matches SetupMessage::AlignMethodSelected(m) ==> align_method_spec(after) == m,
        message matches SetupMessage::MergeMethodSelected(m) ==> merge_method_spec(after) == m,
        message matches SetupMessage::MergeMethodSelected(m)
            ==> crate::process::processor::merge_tool_spec(after) == tool_of_method(m),
        message matches SetupMessage::TonemapMethodSelected(m) ==> tonemap_method_spec(after) == m,
{
}

/// The merge method the dialog shows is the merge that processing uses.
pub proof fn lemma_shown_method_is_used(s: ProcessSettings)
    ensures
        crate::process::processor::merge_tool_spec(s) == tool_of_method(merge_method_spec(s)),
{
}

} // verus!
