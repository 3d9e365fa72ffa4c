//! A loaded session file and the stages it goes through:
//! read, decompress, parse; then listing its groups and rendering links.
//!
//! The work of each stage (reading a file, decompressing, parsing,
//! enumerating and rendering) is handed in as a closure; the library decides
//! whether a stage runs, what it is given and what becomes of its result.
use vstd::prelude::*;
use crate::format::{FormatInfo, LinkSettings, OutputOptions, preview_settings, save_settings};
use crate::groups::{AllTabGroups, kept, keep_selected, number_groups, numbered, order_groups, ordered};
use crate::path::{file_name, has_extension, is_compressed_path, is_compressed_path_str, path_has_extension};
use crate::selection::{GenerateOptions, SelectionView};

verus! {

/// A value moved between tasks as is.
#[derive(Debug, Clone, Copy, PartialEq, Eq)]
pub struct WebSendable<T>(pub T);

/// Why a stage failed.
#[derive(Debug, Clone, PartialEq, Eq)]
pub enum PipelineError {
    /// The file could not be opened or read.
    Io(String),
    /// Decompression was asked for before the file was read.
    DecompressBeforeLoad,
    /// Parsing was asked for before the file was read.
    ParseBeforeLoad,
    /// Parsing was asked for while the data is still compressed.
    ParseCompressed,
    /// The compressed data is malformed.
    Decompress(String),
    /// The data is not a valid session.
    Parse(String),
    /// Groups were asked for before the session was parsed.
    GroupsBeforeParse,
    /// Links were asked for before the session was parsed.
    LinksBeforeParse,
    /// Rendering the links failed.
    Render(String),
    /// The destination could not be prepared or opened.
    Destination(String),
}

/// The bytes of a session file, or the session parsed from them.
#[derive(Debug, Clone)]
pub enum FileData<S> {
    Compressed(Vec<u8>),
    Uncompressed(Vec<u8>),
    Parsed(S),
}

impl<S> FileData<S> {
    /// How far the data has come: 0 compressed, 1 uncompressed, 2 parsed.
    pub open spec fn stage(&self) -> nat {
        match self {
            FileData::Compressed(_) => 0,
            FileData::Uncompressed(_) => 1,
            FileData::Parsed(_) => 2,
        }
    }

    pub fn as_parsed(&self) -> (r: Option<&S>)
        ensures
            match self {
                FileData::Parsed(s) => r == Some(s),
                _ => r is None,
            },
    {
        match self {
            FileData::Parsed(s) => Some(s),
            _ => None,
        }
    }
}

/// Raw bytes as read from `path`: compressed when the path says so.
pub open spec fn classified<S>(path: Seq<char>, bytes: Vec<u8>) -> FileData<S> {
    if is_compressed_path(path) {
        FileData::Compressed(bytes)
    } else {
        FileData::Uncompressed(bytes)
    }
}

/// One session file: where it comes from and the data held so far.
#[derive(Debug, Clone)]
pub struct FileInfo<S> {
    pub file_path: String,
    pub data: Option<FileData<S>>,
}

/// The parsed session held by `info`, if it got that far.
pub open spec fn parsed_session<S>(info: FileInfo<S>) -> Option<S> {
    match info.data {
        Some(FileData::Parsed(s)) => Some(s),
        _ => None,
    }
}

/// `info` with its data replaced.
pub open spec fn with_data<S>(info: FileInfo<S>, d: FileData<S>) -> FileInfo<S> {
    FileInfo { data: Some(d), ..info }
}

/// What `load_data` does when the read gave `out`.
pub open spec fn load_outcome<S>(
    before: FileInfo<S>,
    out: Result<Vec<u8>, String>,
    after: FileInfo<S>,
    r: Result<(), PipelineError>,
) -> bool {
    match out {
        Ok(bytes) => r == Ok::<(), PipelineError>(()) && after == with_data(
            before,
            classified(before.file_path@, bytes),
        ),
        Err(e) => r == Err::<(), PipelineError>(PipelineError::Io(e)) && after == before,
    }
}

/// What `decompress_data` does when decompression gave `out`.
pub open spec fn decompress_outcome<S>(
    before: FileInfo<S>,
    out: Result<Vec<u8>, String>,
    after: FileInfo<S>,
    r: Result<(), PipelineError>,
) -> bool {
    match out {
        Ok(bytes) => r == Ok::<(), PipelineError>(()) && after == with_data(
            before,
            FileData::Uncompressed(bytes),
        ),
        Err(e) => r == Err::<(), PipelineError>(PipelineError::Decompress(e)) && after == before,
    }
}

/// What `parse_session_data` does when parsing gave `out`.
pub open spec fn parse_outcome<S>(
    before: FileInfo<S>,
    out: Result<S, String>,
    after: FileInfo<S>,
    r: Result<(), PipelineError>,
) -> bool {
    match out {
        Ok(s) => r == Ok::<(), PipelineError>(()) && after == with_data(before, FileData::Parsed(s)),
        Err(e) => r == Err::<(), PipelineError>(PipelineError::Parse(e)) && after == before,
    }
}

impl<S> FileInfo<S> {
    /// A file that has not been read yet.
    pub fn new(file_path: String) -> (r: Self)
        ensures
            r.file_path == file_path,
            r.data is None,
    {
        FileInfo { file_path, data: None }
    }

    /// Whether the file name's extension marks compressed data.
    pub fn is_compressed_file_format(&self) -> (r: bool)
        ensures
            r == is_compressed_path(self.file_path@),
    {
        is_compressed_path_str(self.file_path.as_str())
    }

    /// Read the file with `read`, unless data is already held.
    pub fn load_data<F: FnOnce() -> Result<Vec<u8>, String>>(&mut self, read: F) -> (r: Result<
        (),
        PipelineError,
    >)
        requires
            read.requires(()),
        ensures
            old(self).data is Some ==> r == Ok::<(), PipelineError>(()) && *final(self) == *old(
                self,
            ),
            old(self).data is None ==> exists|out: Result<Vec<u8>, String>|
                #[trigger] read.ensures((), out) && load_outcome(*old(self), out, *final(self), r),
    {
        if self.data.is_some() {
            return Ok(());
        }
        let out = read();
        match out {
            Ok(bytes) => {
                let compressed = self.is_compressed_file_format();
                self.data = Some(
                    if compressed {
                        FileData::Compressed(bytes)
                    } else {
                        FileData::Uncompressed(bytes)
                    },
                );
                Ok(())
            },
            Err(e) => Err(PipelineError::Io(e)),
        }
    }

    /// Decompress held compressed data with `decompress`; data that is
    /// already uncompressed or parsed is left as it is.
    pub fn decompress_data<F: FnOnce(Vec<u8>) -> Result<Vec<u8>, String>>(
        &mut self,
        decompress: F,
    ) -> (r: Result<(), PipelineError>)
        requires
            forall|b: Vec<u8>| #[trigger] decompress.requires((b,)),
        ensures
            match old(self).data {
                None => r == Err::<(), PipelineError>(PipelineError::DecompressBeforeLoad)
                    && *final(self) == *old(self),
                Some(FileData::Compressed(bytes)) => exists|
                    input: Vec<u8>,
                    out: Result<Vec<u8>, String>,
                |
                    input@ == bytes@ && #[trigger] decompress.ensures((input,), out)
                        && decompress_outcome(*old(self), out, *final(self), r),
                Some(_) => r == Ok::<(), PipelineError>(()) && *final(self) == *old(self),
            },
    {
        let input = match &self.data {
            None => return Err(PipelineError::DecompressBeforeLoad),
            Some(FileData::Compressed(bytes)) => bytes.clone(),
            Some(_) => return Ok(()),
        };
        let out = decompress(input);
        match out {
            Ok(bytes) => {
                self.data = Some(FileData::Uncompressed(bytes));
                Ok(())
            },
            Err(e) => Err(PipelineError::Decompress(e)),
        }
    }

    /// Parse held uncompressed data with `parse`. Compressed data is refused;
    /// parsed data is left as it is.
    pub fn parse_session_data<F: FnOnce(Vec<u8>) -> Result<S, String>>(&mut self, parse: F) -> (r:
        Result<(), PipelineError>)
        requires
            forall|b: Vec<u8>| #[trigger] parse.requires((b,)),
        ensures
            match old(self).data {
                None => r == Err::<(), PipelineError>(PipelineError::ParseBeforeLoad)
                    && *final(self) == *old(self),
                Some(FileData::Compressed(_)) => r == Err::<(), PipelineError>(
                    PipelineError::ParseCompressed,
                ) && *final(self) == *old(self),
                Some(FileData::Uncompressed(bytes)) => exists|
                    input: Vec<u8>,
                    out: Result<S, String>,
                |
                    input@ == bytes@ && #[trigger] parse.ensures((input,), out) && parse_outcome(
                        *old(self),
                        out,
                        *final(self),
                        r,
                    ),
                Some(FileData::Parsed(_)) => r == Ok::<(), PipelineError>(()) && *final(self)
                    == *old(self),
            },
    {
        let input = match &self.data {
            None => return Err(PipelineError::ParseBeforeLoad),
            Some(FileData::Compressed(_)) => return Err(PipelineError::ParseCompressed),
            Some(FileData::Uncompressed(bytes)) => bytes.clone(),
            Some(FileData::Parsed(_)) => return Ok(()),
        };
        let out = parse(input);
        match out {
            Ok(session) => {
                self.data = Some(FileData::Parsed(session));
                Ok(())
            },
            Err(e) => Err(PipelineError::Parse(e)),
        }
    }
}

/// The groups chosen for export: the selected open groups, then the
/// selected closed groups, each side in its listing order.
pub open spec fn chosen_groups<G>(
    open: Seq<(String, G)>,
    closed: Seq<(String, G)>,
    sel: SelectionView,
) -> Seq<G> {
    kept(ordered(open, sel.sort_groups), sel.open) + kept(ordered(closed, sel.sort_groups), sel.closed)
}

/// What the destination of a saved document must be opened as.
#[derive(Debug, Clone, Copy, PartialEq, Eq, Structural)]
pub struct Destination {
    /// The path has no extension: the format's default one is added.
    pub add_extension: bool,
    /// Format of the document, which gives that extension.
    pub format: FormatInfo,
    /// Create the missing folders of the path first.
    pub create_folder: bool,
    /// Fail when the file exists already (no overwriting).
    pub create_new: bool,
}

pub open spec fn destination_for(path: Seq<char>, out: OutputOptions) -> Destination {
    Destination {
        add_extension: !has_extension(file_name(path)),
        format: out.format,
        create_folder: out.create_folder,
        create_new: !out.overwrite,
    }
}

/// Decide how the destination `path` is to be opened.
pub fn destination_of(path: &str, output_options: &OutputOptions) -> (r: Destination)
    ensures
        r == destination_for(path@, *output_options),
{
    Destination {
        add_extension: !path_has_extension(path),
        format: output_options.format,
        create_folder: output_options.create_folder,
        create_new: !output_options.overwrite,
    }
}

pub open spec fn render_result(out: Result<String, String>) -> Result<String, PipelineError> {
    match out {
        Ok(t) => Ok(t),
        Err(e) => Err(PipelineError::Render(e)),
    }
}

pub open spec fn save_result(out: Result<(), String>) -> Result<(), PipelineError> {
    match out {
        Ok(()) => Ok(()),
        Err(e) => Err(PipelineError::Render(e)),
    }
}

/// Collect the chosen groups from both sides of a session.
fn choose_groups<S, G, E: Fn(&S, bool) -> Vec<(String, G)>>(
    session: &S,
    options: &GenerateOptions,
    enumerate: &E,
) -> (r: Vec<G>)
    requires
        forall|s: &S, open: bool| #[trigger] enumerate.requires((s, open)),
    ensures
        exists|o: Vec<(String, G)>, c: Vec<(String, G)>|
            #[trigger] enumerate.ensures((session, true), o) && #[trigger] enumerate.ensures(
                (session, false),
                c,
            ) && r@ == chosen_groups(o@, c@, options@),
{
    let o = enumerate(session, true);
    let c = enumerate(session, false);
    let ghost (ov, cv) = (o@, c@);
    let mut open_groups = keep_selected(
        order_groups(o, options.sort_groups),
        &options.open_group_indexes,
    );
    let mut closed_groups = keep_selected(
        order_groups(c, options.sort_groups),
        &options.closed_group_indexes,
    );
    open_groups.append(&mut closed_groups);
    assert(open_groups@ =~= chosen_groups(ov, cv, options@));
    open_groups
}

impl<S> FileInfo<S> {
    /// List the open and the closed groups of the parsed session, each
    /// numbered from zero in listing order (sorted by name when asked).
    pub fn get_groups_from_session<G, E: Fn(&S, bool) -> Vec<(String, G)>>(
        &self,
        sort_groups: bool,
        enumerate: E,
    ) -> (r: Result<AllTabGroups, PipelineError>)
        requires
            forall|s: &S, open: bool| #[trigger] enumerate.requires((s, open)),
        ensures
            match parsed_session(*self) {
                None => r == Err::<AllTabGroups, PipelineError>(PipelineError::GroupsBeforeParse),
                Some(s) => exists|o: Vec<(String, G)>, c: Vec<(String, G)>|
                    #[trigger] enumerate.ensures((&s, true), o) && #[trigger] enumerate.ensures(
                        (&s, false),
                        c,
                    ) && (r matches Ok(all) && all.open_view() == numbered(ordered(o@, sort_groups))
                        && all.closed_view() == numbered(ordered(c@, sort_groups))),
            },
    {
        let session = match &self.data {
            Some(FileData::Parsed(s)) => s,
            _ => return Err(PipelineError::GroupsBeforeParse),
        };
        let o = order_groups(enumerate(session, true), sort_groups);
        let c = order_groups(enumerate(session, false), sort_groups);
        let open = number_groups(&o);
        let closed = number_groups(&c);
        Ok(AllTabGroups { open, closed })
    }

    /// Render the chosen groups as plain text with `render`.
    pub fn to_text_links<
        G,
        E: Fn(&S, bool) -> Vec<(String, G)>,
        R: FnOnce(Vec<G>, LinkSettings) -> Result<String, String>,
    >(&self, generate_options: GenerateOptions, enumerate: E, render: R) -> (r: Result<
        String,
        PipelineError,
    >)
        requires
            forall|s: &S, open: bool| #[trigger] enumerate.requires((s, open)),
            forall|g: Vec<G>, t: LinkSettings| #[trigger] render.requires((g, t)),
        ensures
            match parsed_session(*self) {
                None => r == Err::<String, PipelineError>(PipelineError::LinksBeforeParse),
                Some(s) => exists|
                    o: Vec<(String, G)>,
                    c: Vec<(String, G)>,
                    groups: Vec<G>,
                    out: Result<String, String>,
                |
                    #[trigger] enumerate.ensures((&s, true), o) && #[trigger] enumerate.ensures(
                        (&s, false),
                        c,
                    ) && groups@ == chosen_groups(o@, c@, generate_options@)
                        && #[trigger] render.ensures(
                        (groups, preview_settings(generate_options.table_of_content)),
                        out,
                    ) && r == render_result(out),
            },
    {
        let session = match &self.data {
            Some(FileData::Parsed(s)) => s,
            _ => return Err(PipelineError::LinksBeforeParse),
        };
        let groups = choose_groups(session, &generate_options, &enumerate);
        let out = render(groups, LinkSettings::for_preview(generate_options.table_of_content));
        match out {
            Ok(t) => Ok(t),
            Err(e) => Err(PipelineError::Render(e)),
        }
    }

    /// Render the chosen groups in the output format and write them to the
    /// destination that `open_destination` opens for `save_path`.
    pub fn save_links<
        G,
        W,
        E: Fn(&S, bool) -> Vec<(String, G)>,
        O: FnOnce(Destination) -> Result<W, String>,
        R: FnOnce(Vec<G>, LinkSettings, W) -> Result<(), String>,
    >(
        &self,
        save_path: &str,
        generate_options: GenerateOptions,
        output_options: OutputOptions,
        enumerate: E,
        open_destination: O,
        render: R,
    ) -> (r: Result<(), PipelineError>)
        requires
            forall|s: &S, open: bool| #[trigger] enumerate.requires((s, open)),
            forall|d: Destination| #[trigger] open_destination.requires((d,)),
            forall|g: Vec<G>, t: LinkSettings, w: W| #[trigger] render.requires((g, t, w)),
        ensures
            match parsed_session(*self) {
                None => r == Err::<(), PipelineError>(PipelineError::LinksBeforeParse),
                Some(s) => exists|dest: Result<W, String>|
                    #[trigger] open_destination.ensures(
                        (destination_for(save_path@, output_options),),
                        dest,
                    ) && match dest {
                        Err(e) => r == Err::<(), PipelineError>(PipelineError::Destination(e)),
                        Ok(w) => exists|
                            o: Vec<(String, G)>,
                            c: Vec<(String, G)>,
                            groups: Vec<G>,
                            out: Result<(), String>,
                        |
                            #[trigger] enumerate.ensures((&s, true), o)
                                && #[trigger] enumerate.ensures((&s, false), c) && groups@
                                == chosen_groups(o@, c@, generate_options@)
                                && #[trigger] render.ensures(
                                (
                                    groups,
                                    save_settings(
                                        output_options.format,
                                        generate_options.table_of_content,
                                    ),
                                    w,
                                ),
                                out,
                            ) && r == save_result(out),
                    },
            },
    {
        let session = match &self.data {
            Some(FileData::Parsed(s)) => s,
            _ => return Err(PipelineError::LinksBeforeParse),
        };
        let dest = open_destination(destination_of(save_path, &output_options));
        let w = match dest {
            Ok(w) => w,
            Err(e) => return Err(PipelineError::Destination(e)),
        };
        let groups = choose_groups(session, &generate_options, &enumerate);
        let settings = LinkSettings::for_save(
            output_options.format,
            generate_options.table_of_content,
        );
        let out = render(groups, settings, w);
        match out {
            Ok(()) => Ok(()),
            Err(e) => Err(PipelineError::Render(e)),
        }
    }
}

} // verus!
