//! Looking into what was uploaded: the entries of an archive, and the text
//! of a file that is text and small enough to show.

use vstd::prelude::*;
use crate::text::same_text;

verus! {

/// A file is shown only if it has fewer bytes than this.
pub const PREVIEW_SIZE_LIMIT: u64 = 1_000_000;

/// The entries of an archive.
#[derive(Clone, Debug, PartialEq, Eq)]
pub struct ArchiveContent {
    pub files: Vec<ArchiveEntry>,
}

/// One entry of an archive.
#[derive(Clone, Debug, PartialEq, Eq)]
pub struct ArchiveEntry {
    pub name: String,
    pub size: u64,
    pub is_dir: bool,
}

/// What is shown of a file.
#[derive(Clone, Debug, PartialEq, Eq)]
pub struct FilePreview {
    pub filename: String,
    pub content: Option<String>,
    pub is_text: bool,
    pub size: u64,
}

/// The text in lower case, as the standard library maps it.
pub uninterp spec fn lowercase_of(text: Seq<char>) -> Seq<char>;

/// `str::to_lowercase`.
///
/// Trusted: the result depends on the text alone.
#[verifier::external_body]
pub(crate) fn lowercased(text: &str) -> (r: String)
    ensures
        r@ == lowercase_of(text@),
{
    text.to_lowercase()
}

/// The extensions, in lower case, of the files that are taken for text.
pub open spec fn text_extensions() -> Seq<Seq<char>> {
    seq![
        "txt"@,
        "html"@,
        "css"@,
        "js"@,
        "ts"@,
        "tsx"@,
        "jsx"@,
        "json"@,
        "xml"@,
        "md"@,
        "py"@,
        "rs"@,
        "c"@,
        "cpp"@,
        "h"@,
        "java"@,
        "php"@,
        "sql"@,
        "sh"@,
        "bat"@,
        "yml"@,
        "yaml"@,
        "toml"@,
        "ini"@,
        "cfg"@,
        "log"@,
    ]
}

/// A file with this extension is text: the extension, in lower case, is
/// one of the text extensions.
pub open spec fn is_text_extension(extension: Seq<char>) -> bool {
    text_extensions().contains(lowercase_of(extension))
}

/// The content of a file is read for showing: the file is text and small
/// enough.
pub open spec fn content_shown(is_text: bool, size: u64) -> bool {
    is_text && size < PREVIEW_SIZE_LIMIT
}

/// The name, in lower case, ends in `.zip`.
pub open spec fn names_zip(name: Seq<char>) -> bool {
    let lower = lowercase_of(name);
    lower.len() >= 4 && lower.subrange(lower.len() - 4, lower.len() as int) == ".zip"@
}

/// Whether the extension, already in lower case, is one of the text
/// extensions.
pub fn listed_as_text(lower: &str) -> (r: bool)
    ensures
        r == text_extensions().contains(lower@),
{
    let listed = same_text(lower, "txt") || same_text(lower, "html") || same_text(lower, "css")
        || same_text(lower, "js") || same_text(lower, "ts") || same_text(lower, "tsx")
        || same_text(lower, "jsx") || same_text(lower, "json") || same_text(lower, "xml")
        || same_text(lower, "md") || same_text(lower, "py") || same_text(lower, "rs")
        || same_text(lower, "c") || same_text(lower, "cpp") || same_text(lower, "h") || same_text(
        lower,
        "java",
    ) || same_text(lower, "php") || same_text(lower, "sql") || same_text(lower, "sh")
        || same_text(lower, "bat") || same_text(lower, "yml") || same_text(lower, "yaml")
        || same_text(lower, "toml") || same_text(lower, "ini") || same_text(lower, "cfg")
        || same_text(lower, "log");
    listed
}

/// Whether a file with this extension is taken for text.
pub fn extension_is_text(extension: &str) -> (r: bool)
    ensures
        r == is_text_extension(extension@),
{
    let lower = lowercased(extension);
    listed_as_text(lower.as_str())
}

/// Whether the content of a file is read for showing.
pub fn shows_content(is_text: bool, size: u64) -> (r: bool)
    ensures
        r == content_shown(is_text, size),
{
    is_text && size < PREVIEW_SIZE_LIMIT
}

/// Whether the name, already in lower case, ends in `.zip`.
pub fn ends_in_zip(lower: &str) -> (r: bool)
    ensures
        r == (lower@.len() >= 4 && lower@.subrange(lower@.len() - 4, lower@.len() as int)
            == ".zip"@),
{
    let len = lower.unicode_len();
    if len < 4 {
        return false;
    }
    same_text(lower.substring_char(len - 4, len), ".zip")
}

/// Whether a file of this name is taken for a zip archive.
pub fn is_zip_name(name: &str) -> (r: bool)
    ensures
        r == names_zip(name@),
{
    let lower = lowercased(name);
    ends_in_zip(lower.as_str())
}

impl FilePreview {
    /// What is shown of a file with the given name, extension and size,
    /// of which `read` is the content if it was read and could be. The
    /// content is shown only of a file that is text and small enough.
    pub fn assemble(filename: String, extension: &str, size: u64, read: Option<String>) -> (r:
        FilePreview)
        ensures
            r.filename@ == filename@,
            r.size == size,
            r.is_text == is_text_extension(extension@),
            content_shown(r.is_text, size) ==> r.content == read,
            !content_shown(r.is_text, size) ==> r.content is None,
    {
        let is_text = extension_is_text(extension);
        let content = if shows_content(is_text, size) {
            read
        } else {
            None
        };
        FilePreview { filename, content, is_text, size }
    }
}

} // verus!
