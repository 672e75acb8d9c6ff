//! The records that the state is made of: uploaded files, resource files
//! and tables, each with its mathematical view.

use vstd::prelude::*;
use crate::clock::Timestamp;

verus! {

/// An artifact that a participant has uploaded to a table.
#[derive(Clone, Debug, PartialEq, Eq)]
pub struct FileInfo {
    pub id: String,
    pub filename: String,
    pub size: u64,
    pub uploaded_at: Timestamp,
    pub path: String,
}

/// A resource file that the organisers offer to every participant.
#[derive(Clone, Debug, PartialEq, Eq)]
pub struct SoalFile {
    pub id: String,
    pub filename: String,
    pub path: String,
    pub uploaded_at: Timestamp,
}

/// A table: the station of one participant.
#[derive(Clone, Debug, PartialEq, Eq)]
pub struct Meja {
    pub id: String,
    pub nomor: u32,
    pub kode: String,
    pub nama_peserta: Option<String>,
    pub files: Vec<FileInfo>,
    pub last_upload: Option<Timestamp>,
}

/// An uploaded file as plain values.
pub struct FileInfoView {
    pub id: Seq<char>,
    pub filename: Seq<char>,
    pub size: nat,
    pub uploaded_at: Timestamp,
    pub path: Seq<char>,
}

/// A resource file as plain values.
pub struct SoalFileView {
    pub id: Seq<char>,
    pub filename: Seq<char>,
    pub path: Seq<char>,
    pub uploaded_at: Timestamp,
}

/// A table as plain values.
pub struct MejaView {
    pub id: Seq<char>,
    pub nomor: nat,
    pub kode: Seq<char>,
    pub nama_peserta: Option<Seq<char>>,
    pub files: Seq<FileInfoView>,
    pub last_upload: Option<Timestamp>,
}

impl View for FileInfo {
    type V = FileInfoView;

    open spec fn view(&self) -> FileInfoView {
        FileInfoView {
            id: self.id@,
            filename: self.filename@,
            size: self.size as nat,
            uploaded_at: self.uploaded_at,
            path: self.path@,
        }
    }
}

impl View for SoalFile {
    type V = SoalFileView;

    open spec fn view(&self) -> SoalFileView {
        SoalFileView {
            id: self.id@,
            filename: self.filename@,
            path: self.path@,
            uploaded_at: self.uploaded_at,
        }
    }
}

/// The views of a sequence of uploaded files, in order.
pub open spec fn file_views(files: Seq<FileInfo>) -> Seq<FileInfoView> {
    files.map_values(|f: FileInfo| f@)
}

/// The views of a sequence of resource files, in order.
pub open spec fn soal_views(files: Seq<SoalFile>) -> Seq<SoalFileView> {
    files.map_values(|f: SoalFile| f@)
}

/// The views of a sequence of tables, in order.
pub open spec fn meja_views(tables: Seq<Meja>) -> Seq<MejaView> {
    tables.map_values(|m: Meja| m@)
}

/// The view of an optional text.
pub open spec fn text_view(text: Option<String>) -> Option<Seq<char>> {
    match text {
        Some(s) => Some(s@),
        None => None,
    }
}

impl View for Meja {
    type V = MejaView;

    open spec fn view(&self) -> MejaView {
        MejaView {
            id: self.id@,
            nomor: self.nomor as nat,
            kode: self.kode@,
            nama_peserta: text_view(self.nama_peserta),
            files: file_views(self.files@),
            last_upload: self.last_upload,
        }
    }
}

impl FileInfo {
    /// Another record that holds the same.
    pub fn duplicate(&self) -> (r: FileInfo)
        ensures
            r@ == self@,
    {
        FileInfo {
            id: self.id.clone(),
            filename: self.filename.clone(),
            size: self.size,
            uploaded_at: self.uploaded_at,
            path: self.path.clone(),
        }
    }
}

impl SoalFile {
    /// Another record that holds the same.
    pub fn duplicate(&self) -> (r: SoalFile)
        ensures
            r@ == self@,
    {
        SoalFile {
            id: self.id.clone(),
            filename: self.filename.clone(),
            path: self.path.clone(),
            uploaded_at: self.uploaded_at,
        }
    }
}

impl Meja {
    /// A table without a participant and without files.
    pub fn new(id: String, nomor: u32, kode: String) -> (r: Meja)
        ensures
            r@ == (MejaView {
                id: id@,
                nomor: nomor as nat,
                kode: kode@,
                nama_peserta: None,
                files: Seq::empty(),
                last_upload: None,
            }),
    {
        let r = Meja { id, nomor, kode, nama_peserta: None, files: Vec::new(), last_upload: None };
        assert(r@.files =~= Seq::empty());
        r
    }

    /// Whether any file has been uploaded to the table.
    pub fn has_uploads(&self) -> (r: bool)
        ensures
            r == (self@.files.len() > 0),
    {
        self.files.len() > 0
    }
}

} // verus!
