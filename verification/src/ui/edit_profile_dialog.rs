//! Editing the name, file and tag of one profile.

use vstd::prelude::*;

use crate::text::owned;

verus! {

/// The edits and buttons of the profile editor.
#[derive(Debug, Clone)]
pub enum EditProfileMessage {
    NameChanged(String),
    FilePathChanged(String),
    TagChanged(String),
    Browse,
    Save,
    Cancel,
}

/// The profile editor: which profile is edited and the values typed so far.
pub struct EditProfileDialog {
    pub show: bool,
    pub editing_index: Option<usize>,
    pub name: String,
    pub file_path: String,
    pub tag: String,
}

/// The values the editor hands back: index, name, file path, tag.
pub type EditResultView = (Option<usize>, Seq<char>, Seq<char>, Seq<char>);

/// How an edit changes the profile editor: a changed field takes the new value,
/// the buttons change nothing, and every other part stays.
pub open spec fn edit_step(
    before: EditProfileDialog,
    after: EditProfileDialog,
    message: EditProfileMessage,
) -> bool {
    &&& after.show == before.show
    &&& after.editing_index == before.editing_index
    &&& match message {
        EditProfileMessage::NameChanged(v) => after.name == v && after.file_path
            == before.file_path && after.tag == before.tag,
        EditProfileMessage::FilePathChanged(v) => after.file_path == v && after.name
            == before.name && after.tag == before.tag,
        EditProfileMessage::TagChanged(v) => after.tag == v && after.name == before.name
            && after.file_path == before.file_path,
        _ => after.name == before.name && after.file_path == before.file_path && after.tag
            == before.tag,
    }
}

/// The message is one of the editor's buttons.
pub open spec fn is_button(message: EditProfileMessage) -> bool {
    message is Browse || message is Save || message is Cancel
}

impl EditProfileDialog {
    /// What `get_result` gives for this state.
    pub open spec fn result_view(&self) -> EditResultView {
        (self.editing_index, self.name@, self.file_path@, self.tag@)
    }

    /// A hidden editor with empty fields.
    pub fn new() -> (r: Self)
        ensures
            !r.show,
            r.editing_index is None,
            r.name@ == Seq::<char>::empty(),
            r.file_path@ == Seq::<char>::empty(),
            r.tag@ == Seq::<char>::empty(),
    {
        EditProfileDialog {
            show: false,
            editing_index: None,
            name: String::new(),
            file_path: String::new(),
            tag: String::new(),
        }
    }

    /// Opens the editor on profile `index` with its current values.
    pub fn open(&mut self, index: usize, name: &str, file_path: &str, tag: &str)
        ensures
            final(self).show,
            final(self).editing_index == Some(index),
            final(self).name@ == name@,
            final(self).file_path@ == file_path@,
            final(self).tag@ == tag@,
    {
        self.editing_index = Some(index);
        self.name = owned(name);
        self.file_path = owned(file_path);
        self.tag = owned(tag);
        self.show = true;
    }

    /// Closes the editor; no profile is edited any more. The typed values stay.
    pub fn close(&mut self)
        ensures
            !final(self).show,
            final(self).editing_index is None,
            final(self).name == old(self).name,
            final(self).file_path == old(self).file_path,
            final(self).tag == old(self).tag,
    {
        self.editing_index = None;
        self.show = false;
    }

    /// The edited profile's index and the values typed for it.
    pub fn get_result(&self) -> (r: (Option<usize>, String, String, String))
        ensures
            (r.0, r.1@, r.2@, r.3@) == self.result_view(),
    {
        (self.editing_index, self.name.clone(), self.file_path.clone(), self.tag.clone())
    }

    /// Takes an edit: a changed field gets the new value; the buttons change nothing here.
    pub fn update(&mut self, message: EditProfileMessage)
        ensures
            edit_step(*old(self), *final(self), message),
    {
        match message {
            EditProfileMessage::NameChanged(value) => {
                self.name = value;
            },
            EditProfileMessage::FilePathChanged(value) => {
                self.file_path = value;
            },
            EditProfileMessage::TagChanged(value) => {
                self.tag = value;
            },
            EditProfileMessage::Browse | EditProfileMessage::Save | EditProfileMessage::Cancel => {},
        }
    }
}

/// Opening the editor on a profile and saving at once hands back that profile's
/// index and values unchanged.
pub proof fn lemma_open_then_result(
    after: EditProfileDialog,
    index: usize,
    name: Seq<char>,
    file_path: Seq<char>,
    tag: Seq<char>,
)
    requires
        after.editing_index == Some(index),
        after.name@ == name,
        after.file_path@ == file_path,
        after.tag@ == tag,
    ensures
        after.result_view() == (Some(index), name, file_path, tag),
{
}

/// After the editor is opened on a profile, pressing its buttons any number of
/// times leaves the result what was opened.
pub proof fn lemma_buttons_keep_result(
    states: Seq<EditProfileDialog>,
    messages: Seq<EditProfileMessage>,
    index: usize,
    name: Seq<char>,
    file_path: Seq<char>,
    tag: Seq<char>,
)
    requires
        states.len() == messages.len() + 1,
        states[0].result_view() == (Some(index), name, file_path, tag),
        forall|k: int|
            0 <= k < messages.len() ==> edit_step(states[k], states[k + 1], #[trigger] messages[k])
                && is_button(messages[k]),
    ensures
        states.last().result_view() == (Some(index), name, file_path, tag),
    decreases messages.len(),
{
    if messages.len() > 0 {
        let n = messages.len() as int;
        assert(edit_step(states[n - 1], states[n], messages[n - 1]) && is_button(messages[n - 1]));
        lemma_buttons_keep_result(
            states.drop_last(),
            messages.drop_last(),
            index,
            name,
            file_path,
            tag,
        );
        assert(states.drop_last().last() == states[n - 1]);
    }
}

} // verus!
