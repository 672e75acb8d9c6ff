//! Handing a resource file out: the headers that say what it is and under
//! which name it is to be saved.

use vstd::prelude::*;

verus! {

/// The media type that is given where the extension tells none.
pub open spec fn fallback_media_type() -> Seq<char> {
    "application/octet-stream"@
}

/// The media type that files with the extension are taken to have, or the
/// fallback where the extension is not known.
pub uninterp spec fn media_type_of(extension: Seq<char>) -> Seq<char>;

/// `mime_guess::from_ext`, with the first guess, or
/// `application/octet-stream` where there is none, as text.
///
/// Trusted: the media type depends on the extension alone.
#[verifier::external_body]
pub(crate) fn guess_media_type(extension: &str) -> (r: String)
    ensures
        r@ == media_type_of(extension@),
{
    mime_guess::from_ext(extension).first_or_octet_stream().to_string()
}

/// The media type of a file with the given extension; of a file without
/// extension it is the fallback.
pub fn content_type_for(extension: Option<&str>) -> (r: String)
    ensures
        r@ == match extension {
            Some(ext) => media_type_of(ext@),
            None => fallback_media_type(),
        },
{
    match extension {
        Some(ext) => guess_media_type(ext),
        None => "application/octet-stream".to_owned(),
    }
}

/// The header value that has the file saved under `filename`.
pub fn attachment_disposition(filename: &str) -> (r: String)
    ensures
        r@ == "attachment; filename=\""@ + filename@ + "\""@,
{
    let mut text = String::new();
    text.append("attachment; filename=\"");
    text.append(filename);
    text.append("\"");
    text
}

} // verus!
