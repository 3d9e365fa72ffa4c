use session_utility::wizard::Message as WizardMessage;
use session_utility::{
    AllTabGroups, FileData, FileInfo, FormatInfo, Message, PipelineError, SessionDataUtility, Status,
    Step, TabGroup, Task,
};

type App = SessionDataUtility<u8>;

fn app() -> App {
    SessionDataUtility::new("out".to_string(), vec![])
}

fn info(data: FileData<u8>) -> FileInfo<u8> {
    FileInfo { file_path: "s.jsonlz4".to_string(), data: Some(data) }
}

#[test]
fn load_chains_through_the_stages() {
    let mut a = app();
    assert_eq!(a.update(Message::SetInputPath("s.jsonlz4".to_string())), Task::Nothing);
    assert_eq!(a.update(Message::LoadInputData), Task::Read);
    assert_eq!(a.status, Status::ReadingInput);
    assert_eq!(a.loaded_data.as_ref().unwrap().file_path, "s.jsonlz4");
    assert!(a.loaded_data.as_ref().unwrap().data.is_none());

    assert_eq!(a.update(Message::UpdateLoadedData(info(FileData::Compressed(vec![1])))), Task::Decompress);
    assert_eq!(a.status, Status::Decompressing);
    assert_eq!(a.update(Message::UpdateLoadedData(info(FileData::Uncompressed(vec![1])))), Task::Parse);
    assert_eq!(a.status, Status::Parsing);
    assert_eq!(a.update(Message::UpdateLoadedData(info(FileData::Parsed(7)))), Task::ListGroups);

    let groups = AllTabGroups {
        open: vec![TabGroup { index: 0, name: "W".to_string() }],
        closed: vec![],
    };
    assert_eq!(a.update(Message::ParsedTabGroups(groups.clone())), Task::RenderPreview);
    assert_eq!(a.tab_groups, groups);
    assert_eq!(a.status, Status::GeneratingPreview);
    assert_eq!(a.update(Message::SetPreview("links".to_string())), Task::Nothing);
    assert_eq!(a.preview, "links");
    assert_eq!(a.status, Status::Loaded);
}

#[test]
fn load_resets_selection() {
    let mut a = app();
    a.update(Message::UpdateLoadedData(info(FileData::Parsed(1))));
    a.update(Message::ChangeTabGroupSelection { open: true, index: 1, select: true });
    assert_eq!(a.selected_tab_groups.open_group_indexes, Some(vec![1]));
    a.update(Message::LoadInputData);
    assert_eq!(a.selected_tab_groups.open_group_indexes, None);
    assert_eq!(a.selected_tab_groups.closed_group_indexes, Some(vec![]));
}

#[test]
fn failure_only_sets_status() {
    let mut a = app();
    a.update(Message::UpdateLoadedData(info(FileData::Parsed(3))));
    a.update(Message::SetPreview("old".to_string()));
    let e = PipelineError::Decompress("bad".to_string());
    assert_eq!(a.update(Message::Failed(Step::Decompress, e.clone())), Task::Nothing);
    assert_eq!(a.status, Status::Failed(Step::Decompress, e));
    assert_eq!(a.preview, "old");
    assert!(matches!(a.loaded_data.as_ref().unwrap().data, Some(FileData::Parsed(3))));
}

#[test]
fn selection_changes_regenerate_preview_only_when_effective() {
    let mut a = app();
    assert_eq!(
        a.update(Message::ChangeTabGroupSelection { open: true, index: 5, select: true }),
        Task::Nothing
    );
    assert_eq!(a.selected_tab_groups.open_group_indexes, Some(vec![5]));
    a.update(Message::UpdateLoadedData(info(FileData::Parsed(3))));
    assert_eq!(
        a.update(Message::ChangeTabGroupSelection { open: true, index: 0, select: true }),
        Task::RenderPreview
    );
    assert_eq!(
        a.update(Message::ChangeTabGroupSelection { open: true, index: 0, select: true }),
        Task::Nothing
    );
    assert_eq!(
        a.update(Message::ChangeTabGroupSelection { open: true, index: 0, select: false }),
        Task::RenderPreview
    );
    assert_eq!(a.selected_tab_groups.open_group_indexes, Some(vec![5]));
    assert_eq!(
        a.update(Message::ChangeTabGroupSelection { open: true, index: 5, select: false }),
        Task::RenderPreview
    );
    assert_eq!(a.selected_tab_groups.open_group_indexes, None);
    assert_eq!(a.selected_tab_groups.closed_group_indexes, Some(vec![]));
}

#[test]
fn saving_needs_loaded_data() {
    let mut a = app();
    assert_eq!(a.update(Message::SaveLinksToFile), Task::Nothing);
    a.update(Message::UpdateLoadedData(info(FileData::Parsed(3))));
    assert_eq!(a.update(Message::SaveLinksToFile), Task::SaveLinks);
    assert_eq!(a.status, Status::Saving);
    a.update(Message::Saved);
    assert_eq!(a.status, Status::Saved);
}

#[test]
fn output_settings_messages() {
    let mut a = app();
    a.update(Message::SetOverwrite(true));
    a.update(Message::SetCreateFolder(true));
    a.update(Message::SetOutputFormat(FormatInfo::Html));
    a.update(Message::SetSavePath("dest".to_string()));
    assert!(a.output_options.overwrite && a.output_options.create_folder);
    assert_eq!(a.output_options.format, FormatInfo::Html);
    assert_eq!(a.save_path, "dest");
}

#[test]
fn wizard_selection_starts_loading() {
    let mut a = app();
    a.update(Message::FirefoxProfileWizard(WizardMessage::Show));
    assert!(a.firefox_profile_wizard.is_active());
    let t = a.update(Message::FirefoxProfileWizard(WizardMessage::SelectedSessionFile("p/s.jsonlz4".to_string())));
    assert_eq!(t, Task::Read);
    assert!(!a.firefox_profile_wizard.is_active());
    assert_eq!(a.input_path, "p/s.jsonlz4");
    assert_eq!(a.status, Status::ReadingInput);
}
