//! The rows of the store: building the state from the rows of tables, of
//! uploaded files and of resource files and from the timer's row, and
//! making the row of a record that is to be written.

use vstd::prelude::*;
use crate::clock::{
    latest, read_rfc3339, rfc3339_instant, rfc3339_of, write_rfc3339, Timestamp,
};
use crate::records::{
    file_views, meja_views, soal_views, text_view, FileInfo, FileInfoView, Meja, MejaView,
    SoalFile, SoalFileView,
};
use crate::state::{distinct_ids, has_id, position_in, AppState, AppStateView};
use crate::timer::{TimerModel, TimerState};

verus! {

/// A table as the store holds it.
#[derive(Clone, Debug, PartialEq, Eq)]
pub struct MejaRow {
    pub id: String,
    pub nomor: u32,
    pub kode: String,
    pub nama_peserta: Option<String>,
}

/// An uploaded file as the store holds it, with the time of upload as text.
#[derive(Clone, Debug, PartialEq, Eq)]
pub struct FileRow {
    pub id: String,
    pub meja_id: String,
    pub filename: String,
    pub size: u64,
    pub uploaded_at: String,
    pub path: String,
}

/// A resource file as the store holds it, with the time of upload as text.
#[derive(Clone, Debug, PartialEq, Eq)]
pub struct SoalRow {
    pub id: String,
    pub filename: String,
    pub path: String,
    pub uploaded_at: String,
}

/// The timer as the store holds it.
#[derive(Clone, Debug, PartialEq, Eq)]
pub struct TimerRow {
    pub is_running: i32,
    pub duration_seconds: i64,
    pub remaining_seconds: i64,
    pub started_at: Option<String>,
}

/// The point in time that the text gives, or `fallback` where it gives none.
pub open spec fn instant_or(text: Seq<char>, fallback: Timestamp) -> Timestamp {
    match rfc3339_instant(text) {
        Some(t) => t,
        None => fallback,
    }
}

/// The table that a row stands for: without files yet.
pub open spec fn table_of(row: MejaRow) -> MejaView {
    MejaView {
        id: row.id@,
        nomor: row.nomor as nat,
        kode: row.kode@,
        nama_peserta: match row.nama_peserta {
            Some(s) => Some(s@),
            None => None,
        },
        files: Seq::empty(),
        last_upload: None,
    }
}

/// The uploaded file that a row stands for.
pub open spec fn file_of(row: FileRow, fallback: Timestamp) -> FileInfoView {
    FileInfoView {
        id: row.id@,
        filename: row.filename@,
        size: row.size as nat,
        uploaded_at: instant_or(row.uploaded_at@, fallback),
        path: row.path@,
    }
}

/// The resource file that a row stands for.
pub open spec fn soal_of(row: SoalRow, fallback: Timestamp) -> SoalFileView {
    SoalFileView {
        id: row.id@,
        filename: row.filename@,
        path: row.path@,
        uploaded_at: instant_or(row.uploaded_at@, fallback),
    }
}

/// The timer that a row stands for. It runs where the flag is not zero
/// and the text gives a point in time, which is its anchor; any other row
/// stands for a stopped timer, which has no anchor.
pub open spec fn timer_of(row: TimerRow) -> TimerModel {
    let anchor = match row.started_at {
        Some(text) => rfc3339_instant(text@),
        None => None,
    };
    let running = row.is_running != 0 && anchor is Some;
    TimerModel {
        running,
        duration: row.duration_seconds as int,
        remaining: row.remaining_seconds as int,
        started_at: if running {
            anchor
        } else {
            None
        },
    }
}

/// The tables with `table` put in: in place of each table that has its id,
/// or at the end where none has.
pub open spec fn upserted(tables: Seq<MejaView>, table: MejaView) -> Seq<MejaView> {
    if has_id(tables, table.id) {
        Seq::new(tables.len(), |i: int| if tables[i].id == table.id { table } else { tables[i] })
    } else {
        tables.push(table)
    }
}

/// The tables that the rows give, a later row taking the place of an
/// earlier one with the same id.
pub open spec fn tables_from(rows: Seq<MejaRow>) -> Seq<MejaView>
    decreases rows.len(),
{
    if rows.len() == 0 {
        Seq::empty()
    } else {
        upserted(tables_from(rows.drop_last()), table_of(rows.last()))
    }
}

/// The tables with `file` added to each that has the id `meja_id`: it
/// becomes the last of the table's files, and the table's last upload
/// moves to the file's time where that is later.
pub open spec fn with_file(tables: Seq<MejaView>, meja_id: Seq<char>, file: FileInfoView) -> Seq<
    MejaView,
> {
    Seq::new(
        tables.len(),
        |i: int|
            if tables[i].id == meja_id {
                MejaView {
                    files: tables[i].files.push(file),
                    last_upload: Some(latest(tables[i].last_upload, file.uploaded_at)),
                    ..tables[i]
                }
            } else {
                tables[i]
            },
    )
}

/// The tables with the files of all the rows added, first row first. A
/// row whose table is not there adds nothing.
pub open spec fn with_files(tables: Seq<MejaView>, rows: Seq<FileRow>, fallback: Timestamp) -> Seq<
    MejaView,
>
    decreases rows.len(),
{
    if rows.len() == 0 {
        tables
    } else {
        with_file(
            with_files(tables, rows.drop_last(), fallback),
            rows.last().meja_id@,
            file_of(rows.last(), fallback),
        )
    }
}

/// The resource files that the rows give, in their order.
pub open spec fn soal_from(rows: Seq<SoalRow>, fallback: Timestamp) -> Seq<SoalFileView> {
    rows.map_values(|row: SoalRow| soal_of(row, fallback))
}

/// The state that the rows of the store give.
pub open spec fn loaded(
    tables: Seq<MejaRow>,
    files: Seq<FileRow>,
    soal: Seq<SoalRow>,
    timer: Option<TimerRow>,
    fallback: Timestamp,
) -> AppStateView {
    AppStateView {
        meja_list: with_files(tables_from(tables), files, fallback),
        timer: match timer {
            Some(row) => timer_of(row),
            None => TimerModel::configured(60),
        },
        soal_files: soal_from(soal, fallback),
        lomba_title: "Lomba Coding"@,
    }
}

/// Reads a point in time from text in RFC 3339 form; text that is none
/// gives `fallback`.
pub fn parse_instant_or(text: &str, fallback: Timestamp) -> (r: Timestamp)
    ensures
        r == instant_or(text@, fallback),
        fallback.representable() ==> r.representable(),
{
    match read_rfc3339(text) {
        Some(t) => t,
        None => fallback,
    }
}

impl FileRow {
    /// The row of a file uploaded to the table with the id `meja_id`.
    pub fn of(meja_id: &str, file: &FileInfo) -> (r: FileRow)
        requires
            file.uploaded_at.representable(),
        ensures
            r.id@ == file.id@,
            r.meja_id@ == meja_id@,
            r.filename@ == file.filename@,
            r.size == file.size,
            r.uploaded_at@ == rfc3339_of(file.uploaded_at),
            r.path@ == file.path@,
            file.uploaded_at.four_digit_year() ==> forall|fallback: Timestamp|
                #[trigger] file_of(r, fallback) == file@,
    {
        FileRow {
            id: file.id.clone(),
            meja_id: meja_id.to_owned(),
            filename: file.filename.clone(),
            size: file.size,
            uploaded_at: write_rfc3339(file.uploaded_at),
            path: file.path.clone(),
        }
    }
}

impl SoalRow {
    /// The row of a resource file.
    pub fn of(soal: &SoalFile) -> (r: SoalRow)
        requires
            soal.uploaded_at.representable(),
        ensures
            r.id@ == soal.id@,
            r.filename@ == soal.filename@,
            r.path@ == soal.path@,
            r.uploaded_at@ == rfc3339_of(soal.uploaded_at),
            soal.uploaded_at.four_digit_year() ==> forall|fallback: Timestamp|
                #[trigger] soal_of(r, fallback) == soal@,
    {
        SoalRow {
            id: soal.id.clone(),
            filename: soal.filename.clone(),
            path: soal.path.clone(),
            uploaded_at: write_rfc3339(soal.uploaded_at),
        }
    }
}

impl TimerRow {
    /// The row of a timer: the flag is one where it runs and zero where it
    /// does not, and the anchor is written as text. A timer that runs from
    /// an anchor in a year of four digits, or is stopped without anchor,
    /// is the timer that its row stands for.
    pub fn of(timer: &TimerState) -> (r: TimerRow)
        requires
            timer.well_formed(),
        ensures
            (timer.is_running <==> timer.started_at is Some) && (timer.started_at matches Some(
                anchor,
            ) ==> anchor.four_digit_year()) ==> timer_of(r) == timer@,
            r.is_running == if timer.is_running { 1i32 } else { 0i32 },
            r.duration_seconds == timer.duration_seconds,
            r.remaining_seconds == timer.remaining_seconds,
            text_view(r.started_at) == match timer.started_at {
                Some(anchor) => Some(rfc3339_of(anchor)),
                None => None,
            },
    {
        TimerRow {
            is_running: if timer.is_running { 1 } else { 0 },
            duration_seconds: timer.duration_seconds,
            remaining_seconds: timer.remaining_seconds,
            started_at: match timer.started_at {
                Some(anchor) => Some(write_rfc3339(anchor)),
                None => None,
            },
        }
    }

    /// The timer that the row stands for: running from its anchor, or
    /// stopped without one.
    pub fn to_timer(&self) -> (r: TimerState)
        ensures
            r@ == timer_of(*self),
            r.well_formed(),
            r.is_running <==> r.started_at is Some,
    {
        let anchor = match &self.started_at {
            Some(text) => read_rfc3339(text.as_str()),
            None => None,
        };
        timer_from_row(self.is_running, self.duration_seconds, self.remaining_seconds, anchor)
    }
}

/// The timer that the values of a row stand for, the anchor being what the
/// row's text was read as. The timer runs where the flag is not zero and
/// there is an anchor, and keeps the anchor then; any other timer is
/// stopped and has none.
pub fn timer_from_row(
    is_running: i32,
    duration_seconds: i64,
    remaining_seconds: i64,
    anchor: Option<Timestamp>,
) -> (r: TimerState)
    ensures
        r.is_running == (is_running != 0 && anchor is Some),
        r.started_at == (if r.is_running {
            anchor
        } else {
            None
        }),
        r.duration_seconds == duration_seconds,
        r.remaining_seconds == remaining_seconds,
        (anchor matches Some(t) ==> t.representable()) ==> r.well_formed(),
{
    let runs = is_running != 0 && anchor.is_some();
    TimerState {
        is_running: runs,
        duration_seconds,
        remaining_seconds,
        started_at: if runs {
            anchor
        } else {
            None
        },
    }
}

/// Puts `table` among the tables: in place of the one that has its id, or
/// at the end where none has.
pub fn upsert_table(tables: &mut Vec<Meja>, table: Meja)
    requires
        distinct_ids(meja_views(old(tables)@)),
    ensures
        meja_views(final(tables)@) == upserted(meja_views(old(tables)@), table@),
        distinct_ids(meja_views(final(tables)@)),
{
    match position_in(tables, table.id.as_str()) {
        Some(i) => {
            tables[i] = table;
        },
        None => {
            tables.push(table);
        },
    }
}

/// Adds `file` to the table with the id `meja_id`, as the last of its
/// files, and moves the table's last upload to the file's time where that
/// is later. Without such a table nothing changes.
pub fn attach_file(tables: &mut Vec<Meja>, meja_id: &str, file: FileInfo)
    requires
        distinct_ids(meja_views(old(tables)@)),
    ensures
        meja_views(final(tables)@) == with_file(meja_views(old(tables)@), meja_id@, file@),
        distinct_ids(meja_views(final(tables)@)),
{
    match position_in(tables, meja_id) {
        Some(i) => {
            let moves = match tables[i].last_upload {
                Some(t) => t.is_before(&file.uploaded_at),
                None => true,
            };
            if moves {
                tables[i].last_upload = Some(file.uploaded_at);
            }
            let ghost files_before = tables[i as int].files@;
            tables[i].files.push(file);
            assert(file_views(tables[i as int].files@) =~= file_views(files_before).push(file@));
        },
        None => {},
    }
}

/// Builds the state from the rows of the store. A time of upload that
/// cannot be read becomes `now`; without a timer row the timer is stopped
/// at one hour.
pub fn load_state(
    tables: &Vec<MejaRow>,
    files: &Vec<FileRow>,
    soal: &Vec<SoalRow>,
    timer: Option<TimerRow>,
    now: Timestamp,
) -> (r: AppState)
    ensures
        r@ == loaded(tables@, files@, soal@, timer, now),
        r.well_formed(),
{
    let mut meja_list: Vec<Meja> = Vec::new();
    let mut i: usize = 0;
    while i < tables.len()
        invariant
            i <= tables.len(),
            distinct_ids(meja_views(meja_list@)),
            meja_views(meja_list@) == tables_from(tables@.take(i as int)),
        decreases tables.len() - i,
    {
        let row = &tables[i];
        let nama = match &row.nama_peserta {
            Some(s) => Some(s.clone()),
            None => None,
        };
        let table = Meja {
            id: row.id.clone(),
            nomor: row.nomor,
            kode: row.kode.clone(),
            nama_peserta: nama,
            files: Vec::new(),
            last_upload: None,
        };
        assert(table@.files =~= Seq::empty());
        upsert_table(&mut meja_list, table);
        assert(tables@.take(i + 1).drop_last() =~= tables@.take(i as int));
        i += 1;
    }
    assert(tables@.take(tables.len() as int) =~= tables@);

    let mut k: usize = 0;
    while k < files.len()
        invariant
            k <= files.len(),
            distinct_ids(meja_views(meja_list@)),
            meja_views(meja_list@) == with_files(tables_from(tables@), files@.take(k as int), now),
        decreases files.len() - k,
    {
        let row = &files[k];
        let file = FileInfo {
            id: row.id.clone(),
            filename: row.filename.clone(),
            size: row.size,
            uploaded_at: parse_instant_or(row.uploaded_at.as_str(), now),
            path: row.path.clone(),
        };
        attach_file(&mut meja_list, row.meja_id.as_str(), file);
        assert(files@.take(k + 1).drop_last() =~= files@.take(k as int));
        k += 1;
    }
    assert(files@.take(files.len() as int) =~= files@);

    let mut soal_files: Vec<SoalFile> = Vec::new();
    let mut n: usize = 0;
    while n < soal.len()
        invariant
            n <= soal.len(),
            soal_views(soal_files@) =~= soal_from(soal@.take(n as int), now),
        decreases soal.len() - n,
    {
        let row = &soal[n];
        let entry = SoalFile {
            id: row.id.clone(),
            filename: row.filename.clone(),
            path: row.path.clone(),
            uploaded_at: parse_instant_or(row.uploaded_at.as_str(), now),
        };
        let ghost before = soal_files@;
        soal_files.push(entry);
        assert(soal_views(soal_files@) =~= soal_from(soal@.take(n + 1), now)) by {
            let rows = soal@.take(n + 1);
            assert(soal_views(before).len() == n);
            assert forall|j: int| 0 <= j < n + 1 implies soal_views(soal_files@)[j] == soal_from(
                rows,
                now,
            )[j] by {
                if j < n {
                    assert(soal_views(before)[j] == soal_from(soal@.take(n as int), now)[j]);
                }
            }
        }
        n += 1;
    }
    assert(soal@.take(soal.len() as int) =~= soal@);

    let timer = match timer {
        Some(row) => row.to_timer(),
        None => TimerState::new(),
    };
    AppState { meja_list, timer, soal_files, lomba_title: "Lomba Coding".to_string() }
}

} // verus!
