//! Output formats for exported links.
use vstd::prelude::*;
use vstd::string::*;

verus! {

/// The document format that links are rendered to.
#[derive(Debug, Clone, Copy, PartialEq, Eq, Structural)]
pub enum FormatInfo {
    PDF,
    Text,
    Html,
    Rtf,
    Markdown,
    Typst,
}

/// Short name of a format, as offered to the user.
pub open spec fn format_name(f: FormatInfo) -> Seq<char> {
    match f {
        FormatInfo::PDF => "pdf"@,
        FormatInfo::Text => "text"@,
        FormatInfo::Html => "html"@,
        FormatInfo::Rtf => "rtf"@,
        FormatInfo::Markdown => "markdown"@,
        FormatInfo::Typst => "typst"@,
    }
}

/// File extension that a saved document of the format gets by default.
pub open spec fn format_extension(f: FormatInfo) -> Seq<char> {
    match f {
        FormatInfo::PDF => "pdf"@,
        FormatInfo::Text => "txt"@,
        FormatInfo::Html => "html"@,
        FormatInfo::Rtf => "rtf"@,
        FormatInfo::Markdown => "md"@,
        FormatInfo::Typst => "typ"@,
    }
}

/// Whether `a` and `b` hold the same characters.
pub fn str_eq(a: &str, b: &str) -> (r: bool)
    ensures
        r == (a@ == b@),
{
    let n = a.unicode_len();
    if n != b.unicode_len() {
        return false;
    }
    let mut i: usize = 0;
    while i < n
        invariant
            n == a@.len(),
            n == b@.len(),
            i <= n,
            forall|j: int| 0 <= j < i ==> a@[j] == b@[j],
        decreases n - i,
    {
        if a.get_char(i) != b.get_char(i) {
            return false;
        }
        i = i + 1;
    }
    assert(a@ =~= b@);
    true
}

impl FormatInfo {
    /// Every format, in the order offered to the user.
    pub fn all() -> (r: Vec<FormatInfo>)
        ensures
            r@ == seq![
                FormatInfo::PDF,
                FormatInfo::Text,
                FormatInfo::Html,
                FormatInfo::Rtf,
                FormatInfo::Markdown,
                FormatInfo::Typst,
            ],
    {
        let r = vec![
            FormatInfo::PDF,
            FormatInfo::Text,
            FormatInfo::Html,
            FormatInfo::Rtf,
            FormatInfo::Markdown,
            FormatInfo::Typst,
        ];
        assert(r@ =~= seq![
            FormatInfo::PDF,
            FormatInfo::Text,
            FormatInfo::Html,
            FormatInfo::Rtf,
            FormatInfo::Markdown,
            FormatInfo::Typst,
        ]);
        r
    }

    /// Short name of the format.
    pub fn as_str(&self) -> (r: &'static str)
        ensures
            r@ == format_name(*self),
    {
        match self {
            FormatInfo::PDF => "pdf",
            FormatInfo::Text => "text",
            FormatInfo::Html => "html",
            FormatInfo::Rtf => "rtf",
            FormatInfo::Markdown => "markdown",
            FormatInfo::Typst => "typst",
        }
    }

    /// Default file extension for a document of this format.
    pub fn file_extension(&self) -> (r: &'static str)
        ensures
            r@ == format_extension(*self),
    {
        match self {
            FormatInfo::PDF => "pdf",
            FormatInfo::Text => "txt",
            FormatInfo::Html => "html",
            FormatInfo::Rtf => "rtf",
            FormatInfo::Markdown => "md",
            FormatInfo::Typst => "typ",
        }
    }

    /// One sentence that tells the user what the format produces.
    pub fn description(&self) -> (r: &'static str) {
        match self {
            FormatInfo::PDF => "Convert the links to a PDF that contains links.",
            FormatInfo::Text => "Convert the links to raw text.",
            FormatInfo::Html => "Convert the links to a HTML file with anchor tags.",
            FormatInfo::Rtf => "Convert the links to a rich text document.",
            FormatInfo::Markdown => "Convert the links to a Markdown document.",
            FormatInfo::Typst => "Convert the links to a Typst document.",
        }
    }

    /// The format whose short name is `name`, if any.
    pub fn from_name(name: &str) -> (r: Option<FormatInfo>)
        ensures
            match r {
                Some(f) => format_name(f) == name@,
                None => forall|f: FormatInfo| format_name(f) != name@,
            },
    {
        let all = FormatInfo::all();
        let mut i: usize = 0;
        while i < all.len()
            invariant
                i <= all.len(),
                all@ == seq![
                    FormatInfo::PDF,
                    FormatInfo::Text,
                    FormatInfo::Html,
                    FormatInfo::Rtf,
                    FormatInfo::Markdown,
                    FormatInfo::Typst,
                ],
                forall|j: int| 0 <= j < i ==> format_name(#[trigger] all@[j]) != name@,
            decreases all.len() - i,
        {
            let f = all[i];
            if str_eq(f.as_str(), name) {
                return Some(f);
            }
            i = i + 1;
        }
        assert forall|f: FormatInfo| format_name(f) != name@ by {
            match f {
                FormatInfo::PDF => assert(format_name(all@[0]) != name@),
                FormatInfo::Text => assert(format_name(all@[1]) != name@),
                FormatInfo::Html => assert(format_name(all@[2]) != name@),
                FormatInfo::Rtf => assert(format_name(all@[3]) != name@),
                FormatInfo::Markdown => assert(format_name(all@[4]) != name@),
                FormatInfo::Typst => assert(format_name(all@[5]) != name@),
            }
        }
        None
    }
}

/// How links are laid out when rendered.
#[derive(Debug, Clone, Copy, PartialEq, Eq, Structural)]
pub struct LinkSettings {
    pub format: FormatInfo,
    pub page_breaks_after_group: bool,
    pub skip_page_break_after_last_group: bool,
    pub table_of_contents: bool,
}

/// Where and how a saved document is written.
#[derive(Debug, Clone, PartialEq, Eq)]
pub struct OutputOptions {
    pub format: FormatInfo,
    /// Replace a file that already exists at the destination.
    pub overwrite: bool,
    /// Create the destination's folder when it is missing.
    pub create_folder: bool,
}

impl Default for OutputOptions {
    fn default() -> (r: Self)
        ensures
            r.format == FormatInfo::PDF,
            !r.overwrite,
            !r.create_folder,
    {
        OutputOptions { format: FormatInfo::PDF, overwrite: false, create_folder: false }
    }
}

/// Settings for the plain-text preview: no page breaks.
pub open spec fn preview_settings(table_of_contents: bool) -> LinkSettings {
    LinkSettings {
        format: FormatInfo::Text,
        page_breaks_after_group: false,
        skip_page_break_after_last_group: true,
        table_of_contents,
    }
}

/// Settings for a saved document: page breaks after each group except in
/// plain text; formats laid out as pages skip the break after the last group.
pub open spec fn save_settings(format: FormatInfo, table_of_contents: bool) -> LinkSettings {
    let page_breaks = format != FormatInfo::Text;
    LinkSettings {
        format,
        page_breaks_after_group: page_breaks,
        skip_page_break_after_last_group: page_breaks && (format == FormatInfo::Html || format
            == FormatInfo::Typst || format == FormatInfo::PDF),
        table_of_contents,
    }
}

impl LinkSettings {
    pub fn for_preview(table_of_contents: bool) -> (r: LinkSettings)
        ensures
            r == preview_settings(table_of_contents),
    {
        LinkSettings {
            format: FormatInfo::Text,
            page_breaks_after_group: false,
            skip_page_break_after_last_group: true,
            table_of_contents,
        }
    }

    pub fn for_save(format: FormatInfo, table_of_contents: bool) -> (r: LinkSettings)
        ensures
            r == save_settings(format, table_of_contents),
    {
        let page_breaks = !matches!(format, FormatInfo::Text);
        let paged = matches!(format, FormatInfo::Html | FormatInfo::Typst | FormatInfo::PDF);
        LinkSettings {
            format,
            page_breaks_after_group: page_breaks,
            skip_page_break_after_last_group: page_breaks && paged,
            table_of_contents,
        }
    }
}

} // verus!
