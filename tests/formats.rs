use session_utility::{FirefoxProfileInfo, FormatInfo, LinkSettings, OutputOptions, PresentFiles, SessionStoreFile, State};
use session_utility::wizard::Message as WizardMessage;

#[test]
fn format_names_round_trip() {
    for f in FormatInfo::all() {
        assert_eq!(FormatInfo::from_name(f.as_str()), Some(f));
    }
    assert_eq!(FormatInfo::all().len(), 6);
    assert_eq!(FormatInfo::from_name("docx"), None);
    assert_eq!(FormatInfo::Text.as_str(), "text");
    assert_eq!(FormatInfo::Text.file_extension(), "txt");
    assert_eq!(FormatInfo::PDF.file_extension(), "pdf");
    assert_eq!(FormatInfo::Typst.file_extension(), "typ");
}

#[test]
fn output_options_default() {
    let o = OutputOptions::default();
    assert_eq!(o.format, FormatInfo::PDF);
    assert!(!o.overwrite);
    assert!(!o.create_folder);
}

#[test]
fn save_settings_page_breaks() {
    let t = LinkSettings::for_save(FormatInfo::Text, true);
    assert!(!t.page_breaks_after_group && !t.skip_page_break_after_last_group);
    let h = LinkSettings::for_save(FormatInfo::Html, false);
    assert!(h.page_breaks_after_group && h.skip_page_break_after_last_group && !h.table_of_contents);
    let r = LinkSettings::for_save(FormatInfo::Rtf, true);
    assert!(r.page_breaks_after_group && !r.skip_page_break_after_last_group);
}

#[test]
fn profile_name_is_last_path_part() {
    let p = FirefoxProfileInfo::new("/home/u/.mozilla/firefox/02921.default-release".to_string(), None);
    assert_eq!(p.name(), "02921.default-release");
    let w = FirefoxProfileInfo::new("C:\\Profiles\\abc.default".to_string(), Some(5));
    assert_eq!(w.name(), "abc.default");
}

#[test]
fn sessionstore_file_preference() {
    let p = FirefoxProfileInfo::new("p".to_string(), None);
    let none = PresentFiles { session_store: false, recovery: false, recovery_older: false, previous: false };
    assert_eq!(p.find_sessionstore_file(&none), SessionStoreFile::Recovery);
    let all = PresentFiles { session_store: true, recovery: true, recovery_older: true, previous: true };
    assert_eq!(p.find_sessionstore_file(&all), SessionStoreFile::SessionStore);
    let older = PresentFiles { recovery_older: true, previous: true, ..none };
    assert_eq!(p.find_sessionstore_file(&older), SessionStoreFile::RecoveryOlder);
    let prev = PresentFiles { previous: true, ..none };
    assert_eq!(p.find_sessionstore_file(&prev), SessionStoreFile::Previous);
    assert_eq!(SessionStoreFile::Previous.relative_path(), "sessionstore-backups/previous.jsonlz4");
    assert_eq!(SessionStoreFile::candidates().len(), 4);
}

#[test]
fn wizard_shows_and_hides() {
    let profiles = vec![
        FirefoxProfileInfo::new("a/one".to_string(), None),
        FirefoxProfileInfo::new("a/two".to_string(), None),
    ];
    let mut w = State::new(profiles);
    assert!(!w.is_active());
    assert_eq!(w.profile_names(), &vec!["one".to_string(), "two".to_string()]);
    w.update(&WizardMessage::Show);
    assert!(w.is_active());
    w.update(&WizardMessage::SelectedSessionFile("x".to_string()));
    assert!(w.is_active());
    w.update(&WizardMessage::Hide);
    assert!(!w.is_active());
}
