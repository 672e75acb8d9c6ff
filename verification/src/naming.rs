//! Names that the server gives out: fresh ids, and the names under which
//! uploaded artifacts are stored.

use vstd::prelude::*;
use crate::clock::Timestamp;
use crate::records::{file_views, FileInfo, FileInfoView, SoalFile, SoalFileView};
use crate::upload::UploadEnd;

verus! {

/// The characters that an id in text form has.
pub const ID_LENGTH: usize = 36;

/// The most characters that a stored name has.
pub const MAX_NAME_LENGTH: usize = 255;

/// A character that no stored name holds: one that separates or escapes
/// parts of a path, a wildcard, a quote, or a control character.
pub open spec fn unsafe_in_names(c: char) -> bool {
    ||| c == '/'
    ||| c == '?'
    ||| c == '<'
    ||| c == '>'
    ||| c == '\\'
    ||| c == ':'
    ||| c == '*'
    ||| c == '|'
    ||| c == '"'
    ||| (c as u32) <= 0x1f
    ||| 0x80 <= (c as u32) <= 0x9f
}

/// A name that can stand as one part of a path: not too long, and free of
/// the characters that are unsafe in names.
pub open spec fn safe_name(name: Seq<char>) -> bool {
    &&& name.len() <= MAX_NAME_LENGTH
    &&& forall|i: int| 0 <= i < name.len() ==> !unsafe_in_names(#[trigger] name[i])
}

/// The places in `whole` from which the characters of `kept` are taken,
/// one after the other.
pub open spec fn taken_at(places: Seq<int>, kept: Seq<char>, whole: Seq<char>) -> bool {
    &&& places.len() == kept.len()
    &&& forall|i: int|
        0 <= i < places.len() ==> 0 <= #[trigger] places[i] < whole.len() && whole[places[i]]
            == kept[i]
    &&& forall|i: int, j: int|
        0 <= i < j < places.len() ==> #[trigger] places[i] < #[trigger] places[j]
}

/// `kept` is what is left of `whole`: its characters in their order, with
/// some taken out.
pub open spec fn left_of(kept: Seq<char>, whole: Seq<char>) -> bool {
    exists|places: Seq<int>| taken_at(places, kept, whole)
}

/// The bytes that a character takes in UTF-8.
pub open spec fn utf8_width(c: char) -> nat {
    if (c as u32) < 0x80 {
        1
    } else if (c as u32) < 0x800 {
        2
    } else if (c as u32) < 0x1_0000 {
        3
    } else {
        4
    }
}

/// The bytes that a text takes in UTF-8.
pub open spec fn utf8_length(text: Seq<char>) -> nat
    decreases text.len(),
{
    if text.len() == 0 {
        0
    } else {
        utf8_length(text.drop_last()) + utf8_width(text.last())
    }
}

/// The character with an upper-case letter of ASCII turned into its
/// lower-case one.
pub open spec fn lower_ascii(c: char) -> char {
    if 'A' <= c <= 'Z' {
        ((c as u32) + 32) as char
    } else {
        c
    }
}

/// The text is the name of a device on some platforms, in any case of
/// letters: `con`, `prn`, `aux`, `nul`, or `com` or `lpt` with a digit.
pub open spec fn is_device(text: Seq<char>) -> bool {
    let low = text.map_values(|c: char| lower_ascii(c));
    ||| low == seq!['c', 'o', 'n']
    ||| low == seq!['p', 'r', 'n']
    ||| low == seq!['a', 'u', 'x']
    ||| low == seq!['n', 'u', 'l']
    ||| (low.len() == 4 && (low.take(3) == seq!['c', 'o', 'm'] || low.take(3) == seq![
        'l',
        'p',
        't',
    ]) && '0' <= low[3] <= '9')
}

/// The name is that of a device, alone or followed by a dot and anything.
pub open spec fn names_device(name: Seq<char>) -> bool {
    ||| (name.len() >= 3 && is_device(name.take(3)) && (name.len() == 3 || name[3] == '.'))
    ||| (name.len() >= 4 && is_device(name.take(4)) && (name.len() == 4 || name[4] == '.'))
}

/// The name is made of dots alone.
pub open spec fn dots_alone(name: Seq<char>) -> bool {
    name.len() > 0 && forall|i: int| 0 <= i < name.len() ==> #[trigger] name[i] == '.'
}

/// A name from which no platform takes anything out: it holds none of the
/// characters that are unsafe in names, is not made of dots alone, does
/// not end in a dot or a space, is not the name of a device, and takes no
/// more than 255 bytes.
pub open spec fn safe_everywhere(name: Seq<char>) -> bool {
    &&& forall|i: int| 0 <= i < name.len() ==> !unsafe_in_names(#[trigger] name[i])
    &&& !dots_alone(name)
    &&& !(name.len() > 0 && (name.last() == '.' || name.last() == ' '))
    &&& !names_device(name)
    &&& utf8_length(name) <= MAX_NAME_LENGTH
}

/// The name without the characters that are unsafe in names.
pub open spec fn without_unsafe(name: Seq<char>) -> Seq<char> {
    name.filter(|c: char| !unsafe_in_names(c))
}

/// The longest beginning of the name that takes no more than 255 bytes.
pub open spec fn cut_at_limit(name: Seq<char>) -> Seq<char>
    decreases name.len(),
{
    if name.len() == 0 || utf8_length(name) <= MAX_NAME_LENGTH {
        name
    } else {
        cut_at_limit(name.drop_last())
    }
}

/// The name without the dots and spaces at its end.
pub open spec fn without_trailing(name: Seq<char>) -> Seq<char>
    decreases name.len(),
{
    if name.len() > 0 && (name.last() == '.' || name.last() == ' ') {
        without_trailing(name.drop_last())
    } else {
        name
    }
}

/// The stored name on platforms that know no device names: the name
/// without the characters that are unsafe in names, nothing at all where
/// that is made of dots alone, cut at 255 bytes.
pub open spec fn plain_form(name: Seq<char>) -> Seq<char> {
    let clean = without_unsafe(name);
    cut_at_limit(
        if dots_alone(clean) {
            Seq::empty()
        } else {
            clean
        },
    )
}

/// The stored name on platforms that know device names: as on the others,
/// but nothing at all is left of the name of a device either, and the dots
/// and spaces at the end go before the name is cut.
pub open spec fn device_form(name: Seq<char>) -> Seq<char> {
    let clean = without_unsafe(name);
    cut_at_limit(
        without_trailing(
            if dots_alone(clean) || names_device(clean) {
                Seq::empty()
            } else {
                clean
            },
        ),
    )
}

/// What a stored name has to do with the name that came: it is safe, it
/// is what is left of that name, and it has the form that one of the two
/// kinds of platform gives it.
pub open spec fn made_safe(stored: Seq<char>, name: Seq<char>) -> bool {
    &&& safe_name(stored)
    &&& left_of(stored, name)
    &&& stored == plain_form(name) || stored == device_form(name)
}

/// A name that holds nothing unsafe loses nothing with the unsafe
/// characters.
pub proof fn lemma_nothing_unsafe(name: Seq<char>)
    requires
        forall|i: int| 0 <= i < name.len() ==> !unsafe_in_names(#[trigger] name[i]),
    ensures
        without_unsafe(name) == name,
    decreases name.len(),
{
    reveal(Seq::filter);
    if name.len() > 0 {
        lemma_nothing_unsafe(name.drop_last());
        assert(name.drop_last().push(name.last()) =~= name);
    }
}

/// Where what is left of a name without its unsafe characters is safe on
/// every platform, that is its stored name, whatever the platform. So a
/// name that is itself safe everywhere is stored as it is.
pub proof fn lemma_safe_names_stay(stored: Seq<char>, name: Seq<char>)
    requires
        made_safe(stored, name),
    ensures
        safe_everywhere(without_unsafe(name)) ==> stored == without_unsafe(name),
        safe_everywhere(name) ==> stored == name,
{
    if safe_everywhere(name) {
        lemma_nothing_unsafe(name);
    }
}

/// `uuid::Uuid::new_v4`, in the text form that `to_string` gives.
///
/// Trusted: the text has 36 characters. Which they are is left to chance.
#[verifier::external_body]
pub(crate) fn fresh_id() -> (r: String)
    ensures
        r@.len() == ID_LENGTH,
{
    uuid::Uuid::new_v4().to_string()
}

/// `sanitize_filename::sanitize`.
///
/// Trusted: the function takes out the characters that are unsafe in
/// names, leaves nothing of a name that is then made of dots alone, and
/// cuts what is left at 255 bytes, between characters. On platforms that
/// know device names it also leaves nothing of the name of a device, and
/// takes the dots and spaces at the end off before it cuts. So the result
/// has one of the two forms, is what is left of the name in its order, and
/// is free of the characters that are unsafe in names.
#[verifier::external_body]
pub(crate) fn sanitized(name: &str) -> (r: String)
    ensures
        made_safe(r@, name@),
{
    sanitize_filename::sanitize(name)
}

/// The name under which an artifact is stored: the name that came with it,
/// made safe, or a fresh id where none came. A name that is safe on every
/// platform once its unsafe characters are gone is stored as just that.
pub fn stored_filename(supplied: Option<&str>) -> (r: String)
    ensures
        supplied matches Some(name) ==> {
            &&& made_safe(r@, name@)
            &&& safe_everywhere(without_unsafe(name@)) ==> r@ == without_unsafe(name@)
            &&& safe_everywhere(name@) ==> r@ == name@
        },
        supplied is None ==> r@.len() == ID_LENGTH,
{
    match supplied {
        Some(name) => {
            let stored = sanitized(name);
            proof {
                lemma_safe_names_stay(stored@, name@);
            }
            stored
        },
        None => fresh_id(),
    }
}

/// The record of an artifact that has arrived whole, under a fresh id.
pub fn new_file_record(filename: String, size: u64, path: String, now: Timestamp) -> (r: FileInfo)
    ensures
        r@ == (FileInfoView {
            id: r@.id,
            filename: filename@,
            size: size as nat,
            uploaded_at: now,
            path: path@,
        }),
        r@.id.len() == ID_LENGTH,
{
    FileInfo { id: fresh_id(), filename, size, uploaded_at: now, path }
}

/// The record of a resource file that has arrived, under a fresh id.
pub fn new_soal_record(filename: String, path: String, now: Timestamp) -> (r: SoalFile)
    ensures
        r@ == (SoalFileView { id: r@.id, filename: filename@, path: path@, uploaded_at: now }),
        r@.id.len() == ID_LENGTH,
{
    SoalFile { id: fresh_id(), filename, path, uploaded_at: now }
}

/// The record of an artifact whose arrival has ended, with the bytes that
/// are still to be written out. An artifact that was rejected, or whose
/// transfer broke off, gets no record.
pub fn record_upload(end: UploadEnd, filename: String, path: String, now: Timestamp) -> (r: Option<
    (FileInfo, Vec<u8>),
>)
    ensures
        match end {
            UploadEnd::Rejected => r is None,
            UploadEnd::Interrupted => r is None,
            UploadEnd::Complete { size, rest } => r matches Some((record, left)) && left == rest
                && record@ == (FileInfoView {
                id: record@.id,
                filename: filename@,
                size: size as nat,
                uploaded_at: now,
                path: path@,
            }) && record@.id.len() == ID_LENGTH,
        },
{
    match end {
        UploadEnd::Rejected => None,
        UploadEnd::Interrupted => None,
        UploadEnd::Complete { size, rest } => Some(
            (new_file_record(filename, size, path, now), rest),
        ),
    }
}

/// Every part of the payload arrived whole.
pub open spec fn all_whole(ends: Seq<Option<FileInfo>>) -> bool {
    forall|i: int| 0 <= i < ends.len() ==> #[trigger] ends[i] is Some
}

/// The records of the parts that arrived whole, in order.
pub open spec fn whole_parts(ends: Seq<Option<FileInfo>>) -> Seq<FileInfoView>
    decreases ends.len(),
{
    if ends.len() == 0 {
        Seq::empty()
    } else {
        match ends.last() {
            Some(file) => whole_parts(ends.drop_last()).push(file@),
            None => whole_parts(ends.drop_last()),
        }
    }
}

/// The paths under which the parts that arrived whole were written, in
/// order.
pub open spec fn whole_paths(ends: Seq<Option<FileInfo>>) -> Seq<Seq<char>> {
    whole_parts(ends).map_values(|file: FileInfoView| file.path)
}

/// The views of a sequence of texts, in order.
pub open spec fn text_views(texts: Seq<String>) -> Seq<Seq<char>> {
    texts.map_values(|text: String| text@)
}

/// What becomes of a payload whose parts ended as given, a part that was
/// rejected or broke off having no record. A payload counts as a whole:
/// where every part arrived whole, the records of all parts are kept, in
/// their order; where one did not, none is kept, and what was written for
/// the parts that did arrive is to be removed, under the paths handed back.
pub fn payload_outcome(ends: &Vec<Option<FileInfo>>) -> (r: Result<Vec<FileInfo>, Vec<String>>)
    ensures
        r is Ok <==> all_whole(ends@),
        match r {
            Ok(kept) => {
                &&& file_views(kept@) == whole_parts(ends@)
                &&& kept@.len() == ends@.len()
                &&& forall|i: int|
                    0 <= i < ends@.len() ==> ((#[trigger] ends@[i]) matches Some(file) && file@
                        == kept@[i]@)
            },
            Err(discard) => text_views(discard@) == whole_paths(ends@),
        },
{
    let mut kept: Vec<FileInfo> = Vec::new();
    let mut discard: Vec<String> = Vec::new();
    let mut whole = true;
    let mut i: usize = 0;
    assert(ends@.take(0) =~= Seq::empty());
    assert(text_views(discard@) =~= whole_paths(ends@.take(0)));
    while i < ends.len()
        invariant
            i <= ends.len(),
            whole == all_whole(ends@.take(i as int)),
            file_views(kept@) == whole_parts(ends@.take(i as int)),
            text_views(discard@) == whole_paths(ends@.take(i as int)),
            whole ==> kept@.len() == i && forall|j: int|
                0 <= j < i ==> ((#[trigger] ends@[j]) matches Some(file) && file@ == kept@[j]@),
        decreases ends.len() - i,
    {
        let ghost upto = ends@.take(i + 1);
        proof {
            assert(upto.drop_last() =~= ends@.take(i as int));
            assert(upto.last() == ends@[i as int]);
            assert(upto[i as int] == ends@[i as int]);
            assert forall|j: int| 0 <= j < i implies upto[j] == ends@.take(i as int)[j] by {}
        }
        let ghost records = file_views(kept@);
        let ghost paths = text_views(discard@);
        match &ends[i] {
            Some(file) => {
                kept.push(file.duplicate());
                discard.push(file.path.clone());
                assert(file_views(kept@) =~= records.push(file@));
                assert(text_views(discard@) =~= paths.push(file@.path));
                assert(whole_paths(upto) =~= whole_paths(ends@.take(i as int)).push(file@.path));
            },
            None => {
                whole = false;
            },
        }
        i += 1;
    }
    assert(ends@.take(ends.len() as int) =~= ends@);
    if whole {
        Ok(kept)
    } else {
        Err(discard)
    }
}

} // verus!
