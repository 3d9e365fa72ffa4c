//! The application's state and the single entry point that handles each
//! message: it updates the state and says which background task to run next.
//!
//! Loading chains itself: each finished stage comes back as
//! `UpdateLoadedData`, which picks the next stage from the data's tag, until
//! the session is parsed and its groups are listed.
use vstd::prelude::*;
use crate::file_data::{FileData, FileInfo, PipelineError};
use crate::format::{FormatInfo, OutputOptions};
use crate::groups::AllTabGroups;
use crate::selection::{GenerateOptions, SelectionView};
use crate::wizard;

verus! {

/// A stage of loading or exporting.
#[derive(Debug, Clone, Copy, PartialEq, Eq, Structural)]
pub enum Step {
    Read,
    Decompress,
    Parse,
    ListGroups,
    Preview,
    Save,
}

/// What the user is told; only the latest status is kept.
#[derive(Debug, Clone, PartialEq, Eq)]
pub enum Status {
    Idle,
    ReadingInput,
    Decompressing,
    Parsing,
    GeneratingPreview,
    Loaded,
    Saving,
    Saved,
    Failed(Step, PipelineError),
}

/// Background work requested by the dispatcher. Each stage works on a copy
/// of the loaded file and the current selection, and reports back with a
/// message.
#[derive(Debug, Clone, Copy, PartialEq, Eq, Structural)]
pub enum Task {
    /// Nothing to run.
    Nothing,
    /// Read the file; report `UpdateLoadedData` or `Failed(Read, _)`.
    Read,
    /// Decompress; report `UpdateLoadedData` or `Failed(Decompress, _)`.
    Decompress,
    /// Parse; report `UpdateLoadedData` or `Failed(Parse, _)`.
    Parse,
    /// List the groups, sorted; report `ParsedTabGroups` or `Failed(ListGroups, _)`.
    ListGroups,
    /// Render the preview; report `SetPreview` or `Failed(Preview, _)`.
    RenderPreview,
    /// Save the links; report `Saved` or `Failed(Save, _)`.
    SaveLinks,
}

/// Events handled by [`SessionDataUtility::update`].
pub enum Message<S> {
    SetInputPath(String),
    LoadInputData,
    UpdateLoadedData(FileInfo<S>),
    ParsedTabGroups(AllTabGroups),
    ChangeTabGroupSelection { open: bool, index: u32, select: bool },
    SetPreview(String),
    Failed(Step, PipelineError),
    SetSavePath(String),
    SetOverwrite(bool),
    SetCreateFolder(bool),
    SetOutputFormat(FormatInfo),
    SaveLinksToFile,
    Saved,
    FirefoxProfileWizard(wizard::Message),
    Nothing,
}

/// The whole state the dispatcher owns.
pub struct SessionDataUtility<S> {
    pub input_path: String,
    pub loaded_data: Option<FileInfo<S>>,
    pub selected_tab_groups: GenerateOptions,
    pub save_path: String,
    pub output_options: OutputOptions,
    pub tab_groups: AllTabGroups,
    pub status: Status,
    pub preview: String,
    pub firefox_profile_wizard: wizard::State,
}

/// The task that regenerates the preview, and the status that goes with it:
/// nothing when no file is loaded.
pub open spec fn preview_task<S>(s: SessionDataUtility<S>) -> (Task, Status) {
    if s.loaded_data is None {
        (Task::Nothing, s.status)
    } else {
        (Task::RenderPreview, Status::GeneratingPreview)
    }
}

/// The task that continues loading from the data's tag.
pub open spec fn next_stage<S>(d: FileData<S>, status: Status) -> (Task, Status) {
    match d {
        FileData::Compressed(_) => (Task::Decompress, Status::Decompressing),
        FileData::Uncompressed(_) => (Task::Parse, Status::Parsing),
        FileData::Parsed(_) => (Task::ListGroups, status),
    }
}

impl<S> SessionDataUtility<S> {
    /// The selection is normalized (see `SelectionView::normalized`).
    pub open spec fn inv(&self) -> bool {
        self.selected_tab_groups@.normalized()
    }

    /// Nothing loaded, default selection and options.
    pub fn new(save_path: String, profiles: Vec<crate::profile::FirefoxProfileInfo>) -> (r: Self)
        ensures
            r.inv(),
            r.loaded_data is None,
            r.selected_tab_groups@.is_default_selection(),
            r.save_path == save_path,
            r.status == Status::Idle,
    {
        SessionDataUtility {
            input_path: String::new(),
            loaded_data: None,
            selected_tab_groups: GenerateOptions::default(),
            save_path,
            output_options: OutputOptions::default(),
            tab_groups: AllTabGroups::default(),
            status: Status::Idle,
            preview: String::new(),
            firefox_profile_wizard: wizard::State::new(profiles),
        }
    }

    fn regenerate_preview_task(&mut self) -> (t: Task)
        ensures
            (t, final(self).status) == preview_task(*old(self)),
            final(self).loaded_data == old(self).loaded_data,
            final(self).selected_tab_groups == old(self).selected_tab_groups,
            final(self).input_path == old(self).input_path,
            final(self).tab_groups == old(self).tab_groups,
            final(self).preview == old(self).preview,
            final(self).save_path == old(self).save_path,
            final(self).output_options == old(self).output_options,
            final(self).firefox_profile_wizard == old(self).firefox_profile_wizard,
    {
        if self.loaded_data.is_none() {
            return Task::Nothing;
        }
        self.status = Status::GeneratingPreview;
        Task::RenderPreview
    }

    /// Start loading the file at the input path: prior data and selection are
    /// dropped.
    fn load_input_data(&mut self) -> (t: Task)
        ensures
            t == Task::Read,
            final(self).loaded_data == Some(FileInfo::<S> { file_path: old(self).input_path, data: None }),
            final(self).selected_tab_groups@ == (SelectionView {
                open: None,
                closed: Some(Seq::empty()),
                ..old(self).selected_tab_groups@
            }),
            final(self).status == Status::ReadingInput,
            final(self).input_path == old(self).input_path,
            final(self).tab_groups == old(self).tab_groups,
            final(self).preview == old(self).preview,
            final(self).save_path == old(self).save_path,
            final(self).output_options == old(self).output_options,
            final(self).firefox_profile_wizard == old(self).firefox_profile_wizard,
    {
        self.loaded_data = Some(FileInfo::new(self.input_path.clone()));
        self.selected_tab_groups.open_group_indexes = None;
        self.selected_tab_groups.closed_group_indexes = Some(Vec::new());
        self.status = Status::ReadingInput;
        assert(self.selected_tab_groups@ =~= (SelectionView {
            open: None,
            closed: Some(Seq::empty()),
            ..old(self).selected_tab_groups@
        }));
        Task::Read
    }

    /// Handle one message.
    pub fn update(&mut self, message: Message<S>) -> (t: Task)
        requires
            message matches Message::UpdateLoadedData(info) ==> info.data is Some,
        ensures
            old(self).inv() ==> final(self).inv(),
            !(message is LoadInputData || message is UpdateLoadedData
                || message matches Message::FirefoxProfileWizard(
                wizard::Message::SelectedSessionFile(_),
            )) ==> final(self).loaded_data == old(self).loaded_data,
            match message {
                Message::SetInputPath(v) => {
                    &&& t == Task::Nothing
                    &&& final(self).input_path == v
                    &&& final(self).loaded_data == old(self).loaded_data
                    &&& final(self).status == old(self).status
                },
                Message::LoadInputData => {
                    &&& t == Task::Read
                    &&& final(self).loaded_data == Some(
                        FileInfo::<S> { file_path: old(self).input_path, data: None },
                    )
                    &&& final(self).selected_tab_groups@.open is None
                    &&& final(self).selected_tab_groups@.closed == Some(Seq::<u32>::empty())
                    &&& final(self).status == Status::ReadingInput
                },
                Message::UpdateLoadedData(info) => {
                    &&& final(self).loaded_data == Some(info)
                    &&& (t, final(self).status) == next_stage(info.data->Some_0, old(self).status)
                    &&& final(self).selected_tab_groups == old(self).selected_tab_groups
                },
                Message::ParsedTabGroups(groups) => {
                    &&& final(self).tab_groups == groups
                    &&& (t, final(self).status) == preview_task(*old(self))
                    &&& final(self).loaded_data == old(self).loaded_data
                },
                Message::ChangeTabGroupSelection { open, index, select } => {
                    &&& final(self).selected_tab_groups@ == old(self).selected_tab_groups@.toggled(open, index, select)
                    &&& final(self).loaded_data == old(self).loaded_data
                    &&& if old(self).selected_tab_groups@.toggle_changes(open, index, select) {
                        (t, final(self).status) == preview_task(*old(self))
                    } else {
                        t == Task::Nothing && final(self).status == old(self).status
                    }
                },
                Message::SetPreview(p) => {
                    &&& t == Task::Nothing
                    &&& final(self).preview == p
                    &&& final(self).status == Status::Loaded
                    &&& final(self).loaded_data == old(self).loaded_data
                },
                Message::Failed(step, e) => {
                    &&& t == Task::Nothing
                    &&& final(self).status == Status::Failed(step, e)
                    &&& final(self).loaded_data == old(self).loaded_data
                    &&& final(self).tab_groups == old(self).tab_groups
                    &&& final(self).preview == old(self).preview
                    &&& final(self).selected_tab_groups == old(self).selected_tab_groups
                },
                Message::SetSavePath(v) => t == Task::Nothing && final(self).save_path == v,
                Message::SetOverwrite(v) => {
                    &&& t == Task::Nothing
                    &&& final(self).output_options.overwrite == v
                    &&& final(self).output_options.format == old(self).output_options.format
                    &&& final(self).output_options.create_folder == old(self).output_options.create_folder
                },
                Message::SetCreateFolder(v) => {
                    &&& t == Task::Nothing
                    &&& final(self).output_options.create_folder == v
                    &&& final(self).output_options.format == old(self).output_options.format
                    &&& final(self).output_options.overwrite == old(self).output_options.overwrite
                },
                Message::SetOutputFormat(f) => {
                    &&& t == Task::Nothing
                    &&& final(self).output_options.format == f
                    &&& final(self).output_options.overwrite == old(self).output_options.overwrite
                    &&& final(self).output_options.create_folder == old(self).output_options.create_folder
                },
                Message::SaveLinksToFile => if old(self).loaded_data is None {
                    t == Task::Nothing && final(self).status == old(self).status
                } else {
                    t == Task::SaveLinks && final(self).status == Status::Saving
                },
                Message::Saved => t == Task::Nothing && final(self).status == Status::Saved,
                Message::FirefoxProfileWizard(wizard::Message::SelectedSessionFile(p)) => {
                    &&& t == Task::Read
                    &&& final(self).input_path == p
                    &&& !final(self).firefox_profile_wizard.spec_active()
                    &&& final(self).loaded_data == Some(FileInfo::<S> { file_path: p, data: None })
                    &&& final(self).status == Status::ReadingInput
                },
                Message::FirefoxProfileWizard(m) => {
                    &&& t == Task::Nothing
                    &&& final(self).firefox_profile_wizard.spec_active() == (m == wizard::Message::Show)
                },
                Message::Nothing => {
                    &&& t == Task::Nothing
                    &&& final(self).loaded_data == old(self).loaded_data
                    &&& final(self).status == old(self).status
                },
            },
    {
        match message {
            Message::SetInputPath(v) => {
                self.input_path = v;
                Task::Nothing
            },
            Message::LoadInputData => self.load_input_data(),
            Message::UpdateLoadedData(info) => {
                let task = match &info.data {
                    Some(FileData::Compressed(_)) => {
                        self.status = Status::Decompressing;
                        Task::Decompress
                    },
                    Some(FileData::Uncompressed(_)) => {
                        self.status = Status::Parsing;
                        Task::Parse
                    },
                    Some(FileData::Parsed(_)) => Task::ListGroups,
                    None => Task::Nothing,
                };
                self.loaded_data = Some(info);
                task
            },
            Message::ParsedTabGroups(groups) => {
                self.tab_groups = groups;
                self.regenerate_preview_task()
            },
            Message::ChangeTabGroupSelection { open, index, select } => {
                let changed = self.selected_tab_groups.toggle(open, index, select);
                proof {
                    if old(self).inv() {
                        crate::selection::lemma_toggle_keeps_normalized(
                        old(self).selected_tab_groups@,
                        open,
                        index,
                        select,
                    );
                    }
                }
                if changed {
                    self.regenerate_preview_task()
                } else {
                    Task::Nothing
                }
            },
            Message::SetPreview(p) => {
                self.status = Status::Loaded;
                self.preview = p;
                Task::Nothing
            },
            Message::Failed(step, e) => {
                self.status = Status::Failed(step, e);
                Task::Nothing
            },
            Message::SetSavePath(v) => {
                self.save_path = v;
                Task::Nothing
            },
            Message::SetOverwrite(v) => {
                self.output_options.overwrite = v;
                Task::Nothing
            },
            Message::SetCreateFolder(v) => {
                self.output_options.create_folder = v;
                Task::Nothing
            },
            Message::SetOutputFormat(f) => {
                self.output_options.format = f;
                Task::Nothing
            },
            Message::SaveLinksToFile => {
                if self.loaded_data.is_none() {
                    return Task::Nothing;
                }
                self.status = Status::Saving;
                Task::SaveLinks
            },
            Message::Saved => {
                self.status = Status::Saved;
                Task::Nothing
            },
            Message::FirefoxProfileWizard(wizard::Message::SelectedSessionFile(p)) => {
                self.firefox_profile_wizard.update(&wizard::Message::Hide);
                self.input_path = p;
                self.load_input_data()
            },
            Message::FirefoxProfileWizard(m) => {
                self.firefox_profile_wizard.update(&m);
                Task::Nothing
            },
            Message::Nothing => Task::Nothing,
        }
    }
}

} // verus!
