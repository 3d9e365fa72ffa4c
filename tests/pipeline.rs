use session_utility::{
    FileData, FileInfo, FormatInfo, GenerateOptions, LinkSettings, OutputOptions, PipelineError,
};

/// A session in these tests: names of open groups and of closed groups.
type Session = (Vec<&'static str>, Vec<&'static str>);

fn enumerate(s: &Session, open: bool) -> Vec<(String, String)> {
    let side = if open { &s.0 } else { &s.1 };
    side.iter().map(|n| (n.to_string(), format!("link of {n}"))).collect()
}

fn parsed(session: Session) -> FileInfo<Session> {
    FileInfo { file_path: "profile/sessionstore.jsonlz4".to_string(), data: Some(FileData::Parsed(session)) }
}

fn is_compressed(d: &Option<FileData<Session>>) -> bool {
    matches!(d, Some(FileData::Compressed(_)))
}

#[test]
fn load_classifies_by_extension() {
    let mut a: FileInfo<Session> = FileInfo::new("dir/recovery.jsonlz4".to_string());
    assert_eq!(a.load_data(|| Ok(vec![1, 2, 3])), Ok(()));
    assert!(matches!(&a.data, Some(FileData::Compressed(b)) if b == &vec![1, 2, 3]));

    let mut b: FileInfo<Session> = FileInfo::new("dir/sessionstore.js".to_string());
    assert_eq!(b.load_data(|| Ok(vec![7])), Ok(()));
    assert!(matches!(&b.data, Some(FileData::Uncompressed(v)) if v == &vec![7]));
}

#[test]
fn compressed_file_format_by_extension() {
    let f = |p: &str| FileInfo::<Session>::new(p.to_string()).is_compressed_file_format();
    assert!(f("a/b/recovery.baklz4"));
    assert!(f("C:\\profiles\\x.default\\sessionstore.jsonlz4"));
    assert!(f("a.b.lz4"));
    assert!(!f("a/lz4"));
    assert!(!f("a/.lz4"));
    assert!(!f("a.lz4/file"));
    assert!(!f("sessionstore.json"));
    assert!(!f(""));
}

#[test]
fn load_failure_keeps_state() {
    let mut a: FileInfo<Session> = FileInfo::new("missing.jsonlz4".to_string());
    let r = a.load_data(|| Err("no such file".to_string()));
    assert_eq!(r, Err(PipelineError::Io("no such file".to_string())));
    assert!(a.data.is_none());
}

#[test]
fn stages_already_reached_are_no_ops() {
    let mut a: FileInfo<Session> = FileInfo::new("x.jsonlz4".to_string());
    a.data = Some(FileData::Uncompressed(vec![5]));
    assert_eq!(a.load_data(|| panic!("must not read")), Ok(()));
    assert_eq!(a.decompress_data(|_| panic!("must not decompress")), Ok(()));
    assert!(matches!(&a.data, Some(FileData::Uncompressed(v)) if v == &vec![5]));

    let mut p = parsed((vec!["A"], vec![]));
    assert_eq!(p.load_data(|| panic!("must not read")), Ok(()));
    assert_eq!(p.decompress_data(|_| panic!("must not decompress")), Ok(()));
    assert_eq!(p.parse_session_data(|_| panic!("must not parse")), Ok(()));
    assert!(matches!(&p.data, Some(FileData::Parsed(s)) if s.0 == vec!["A"]));
}

#[test]
fn parse_refuses_compressed_data() {
    let mut a: FileInfo<Session> = FileInfo::new("x.jsonlz4".to_string());
    a.data = Some(FileData::Compressed(vec![1]));
    let r = a.parse_session_data(|_| panic!("must not parse"));
    assert_eq!(r, Err(PipelineError::ParseCompressed));
    assert!(is_compressed(&a.data));
}

#[test]
fn stages_before_load_fail() {
    let mut a: FileInfo<Session> = FileInfo::new("x.jsonlz4".to_string());
    assert_eq!(a.decompress_data(|b| Ok(b)), Err(PipelineError::DecompressBeforeLoad));
    assert_eq!(a.parse_session_data(|_| Ok((vec![], vec![]))), Err(PipelineError::ParseBeforeLoad));
    assert_eq!(a.get_groups_from_session(true, enumerate), Err(PipelineError::GroupsBeforeParse));
    let r = a.to_text_links(GenerateOptions::default(), enumerate, |_, _| Ok(String::new()));
    assert_eq!(r, Err(PipelineError::LinksBeforeParse));
}

#[test]
fn full_pipeline_runs_each_stage_once() {
    let mut a: FileInfo<Session> = FileInfo::new("x.jsonlz4".to_string());
    a.load_data(|| Ok(vec![3, 2, 1])).unwrap();
    a.decompress_data(|b| Ok(b.into_iter().rev().collect())).unwrap();
    assert!(matches!(&a.data, Some(FileData::Uncompressed(v)) if v == &vec![1, 2, 3]));
    a.parse_session_data(|b| {
        assert_eq!(b, vec![1, 2, 3]);
        Ok((vec!["W"], vec![]))
    })
    .unwrap();
    assert!(matches!(&a.data, Some(FileData::Parsed(_))));
}

#[test]
fn decompress_and_parse_errors() {
    let mut a: FileInfo<Session> = FileInfo::new("x.jsonlz4".to_string());
    a.data = Some(FileData::Compressed(vec![9]));
    let r = a.decompress_data(|_| Err("bad frame".to_string()));
    assert_eq!(r, Err(PipelineError::Decompress("bad frame".to_string())));
    assert!(is_compressed(&a.data));

    a.data = Some(FileData::Uncompressed(vec![9]));
    let r = a.parse_session_data(|_| Err("bad json".to_string()));
    assert_eq!(r, Err(PipelineError::Parse("bad json".to_string())));
    assert!(matches!(&a.data, Some(FileData::Uncompressed(_))));
}

#[test]
fn groups_sorted_and_unsorted() {
    let info = parsed((vec!["B", "A"], vec!["Z"]));
    let sorted = info.get_groups_from_session(true, enumerate).unwrap();
    let names: Vec<(u32, &str)> = sorted.open.iter().map(|g| (g.index, g.name.as_str())).collect();
    assert_eq!(names, vec![(0, "A"), (1, "B")]);
    let closed: Vec<(u32, &str)> = sorted.closed.iter().map(|g| (g.index, g.name.as_str())).collect();
    assert_eq!(closed, vec![(0, "Z")]);

    let unsorted = info.get_groups_from_session(false, enumerate).unwrap();
    let names: Vec<(u32, &str)> = unsorted.open.iter().map(|g| (g.index, g.name.as_str())).collect();
    assert_eq!(names, vec![(0, "B"), (1, "A")]);
}

#[test]
fn sort_is_stable_for_equal_names() {
    let s: Session = (vec!["b", "a", "b", "A"], vec![]);
    let enumerate_tagged = |s: &Session, open: bool| -> Vec<(String, String)> {
        let side = if open { &s.0 } else { &s.1 };
        side.iter().enumerate().map(|(i, n)| (n.to_string(), format!("{n}{i}"))).collect()
    };
    let info = parsed(s);
    let mut options = GenerateOptions::default();
    options.table_of_content = false;
    let text = info
        .to_text_links(options, enumerate_tagged, |groups, _| Ok(groups.join(",")))
        .unwrap();
    assert_eq!(text, "A3,a1,b0,b2");
}

#[test]
fn text_links_keep_only_selected_groups() {
    let info = parsed((vec!["W1", "W2"], vec!["C1"]));
    let options = GenerateOptions {
        open_group_indexes: Some(vec![0]),
        closed_group_indexes: Some(vec![]),
        sort_groups: true,
        table_of_content: true,
    };
    let mut seen = None;
    let text = info
        .to_text_links(options, enumerate, |groups, settings| {
            seen = Some(settings);
            Ok(groups.join("\n"))
        })
        .unwrap();
    assert_eq!(text, "link of W1");
    assert_eq!(
        seen,
        Some(LinkSettings {
            format: FormatInfo::Text,
            page_breaks_after_group: false,
            skip_page_break_after_last_group: true,
            table_of_contents: true,
        })
    );
}

#[test]
fn text_links_default_selection_takes_all_open_groups() {
    let info = parsed((vec!["W2", "W1"], vec!["C1"]));
    let text = info
        .to_text_links(GenerateOptions::default(), enumerate, |groups, _| Ok(groups.join("|")))
        .unwrap();
    assert_eq!(text, "link of W1|link of W2");
}

#[test]
fn text_links_open_before_closed() {
    let info = parsed((vec!["W1", "W2"], vec!["C1", "C2"]));
    let options = GenerateOptions {
        open_group_indexes: Some(vec![1]),
        closed_group_indexes: None,
        sort_groups: false,
        table_of_content: false,
    };
    let text = info.to_text_links(options, enumerate, |g, _| Ok(g.join("|"))).unwrap();
    assert_eq!(text, "link of W2|link of C1|link of C2");
}

#[test]
fn render_failure_is_reported() {
    let info = parsed((vec!["W1"], vec![]));
    let r = info.to_text_links(GenerateOptions::default(), enumerate, |_, _| Err("boom".to_string()));
    assert_eq!(r, Err(PipelineError::Render("boom".to_string())));
}

#[test]
fn save_refuses_existing_file_without_overwrite() {
    let info = parsed((vec!["W1"], vec![]));
    let out = OutputOptions { format: FormatInfo::Html, overwrite: false, create_folder: false };
    let mut asked = None;
    let r = info.save_links(
        "out/links.html",
        GenerateOptions::default(),
        out,
        enumerate,
        |d| {
            asked = Some(d);
            if d.create_new { Err("file exists".to_string()) } else { Ok(()) }
        },
        |_, _, _| panic!("must not write"),
    );
    assert_eq!(r, Err(PipelineError::Destination("file exists".to_string())));
    let d = asked.unwrap();
    assert!(d.create_new);
    assert!(!d.add_extension);
    assert!(!d.create_folder);
}

#[test]
fn save_creates_folder_and_adds_extension() {
    let info = parsed((vec!["W1", "W2"], vec!["C1"]));
    let out = OutputOptions { format: FormatInfo::Markdown, overwrite: true, create_folder: true };
    let mut written = Vec::new();
    let mut asked = None;
    let r = info.save_links(
        "new/folder/links",
        GenerateOptions::default(),
        out,
        enumerate,
        |d| {
            asked = Some(d);
            Ok(&mut written)
        },
        |groups, settings, w: &mut Vec<String>| {
            assert!(settings.page_breaks_after_group);
            assert!(!settings.skip_page_break_after_last_group);
            w.extend(groups);
            Ok(())
        },
    );
    assert_eq!(r, Ok(()));
    let d = asked.unwrap();
    assert!(d.add_extension && d.create_folder && !d.create_new);
    assert_eq!(d.format.file_extension(), "md");
    assert_eq!(written, vec!["link of W1".to_string(), "link of W2".to_string()]);
}

#[test]
fn save_before_parse_fails() {
    let info: FileInfo<Session> = FileInfo::new("x".to_string());
    let r = info.save_links(
        "a.txt",
        GenerateOptions::default(),
        OutputOptions::default(),
        enumerate,
        |_| Ok(()),
        |_, _, _| Ok(()),
    );
    assert_eq!(r, Err(PipelineError::LinksBeforeParse));
}
