//! The aggregate state: the tables, the timer, the resource files and the
//! title, with the lookups and updates that the handlers make.

use vstd::prelude::*;
use crate::clock::{latest, Timestamp};
use crate::records::{
    file_views, meja_views, soal_views, FileInfo, FileInfoView, Meja, MejaView, SoalFile,
    SoalFileView,
};
use crate::text::same_text;
use crate::timer::{TimerModel, TimerState};

verus! {

/// Everything that the server knows, as one value.
#[derive(Clone, Debug, PartialEq, Eq)]
pub struct AppState {
    /// The tables, each under an id of its own.
    pub meja_list: Vec<Meja>,
    pub timer: TimerState,
    /// The resource files, in the order in which they came.
    pub soal_files: Vec<SoalFile>,
    pub lomba_title: String,
}

/// The state as plain values.
pub struct AppStateView {
    pub meja_list: Seq<MejaView>,
    pub timer: TimerModel,
    pub soal_files: Seq<SoalFileView>,
    pub lomba_title: Seq<char>,
}

impl View for AppState {
    type V = AppStateView;

    open spec fn view(&self) -> AppStateView {
        AppStateView {
            meja_list: meja_views(self.meja_list@),
            timer: self.timer@,
            soal_files: soal_views(self.soal_files@),
            lomba_title: self.lomba_title@,
        }
    }
}

/// No two tables of the sequence have the same id.
pub open spec fn distinct_ids(tables: Seq<MejaView>) -> bool {
    forall|i: int, j: int|
        0 <= i < j < tables.len() ==> (#[trigger] tables[i]).id != (#[trigger] tables[j]).id
}

/// Some table of the sequence has the id.
pub open spec fn has_id(tables: Seq<MejaView>, id: Seq<char>) -> bool {
    exists|i: int| 0 <= i < tables.len() && (#[trigger] tables[i]).id == id
}

/// `at` is where the first of the tables with the id stands.
pub open spec fn first_table_at(tables: Seq<MejaView>, id: Seq<char>, at: int) -> bool {
    &&& 0 <= at < tables.len()
    &&& tables[at].id == id
    &&& forall|j: int| 0 <= j < at ==> (#[trigger] tables[j]).id != id
}

/// `at` is where the first of the tables with the join code stands.
pub open spec fn first_kode_at(tables: Seq<MejaView>, kode: Seq<char>, at: int) -> bool {
    &&& 0 <= at < tables.len()
    &&& tables[at].kode == kode
    &&& forall|j: int| 0 <= j < at ==> (#[trigger] tables[j]).kode != kode
}

/// None of the tables has the join code.
pub open spec fn no_table_with_kode(tables: Seq<MejaView>, kode: Seq<char>) -> bool {
    forall|j: int| 0 <= j < tables.len() ==> (#[trigger] tables[j]).kode != kode
}

/// The tables, with the participant's name set on each that has the id.
pub open spec fn with_name(tables: Seq<MejaView>, id: Seq<char>, nama: Seq<char>) -> Seq<
    MejaView,
> {
    Seq::new(
        tables.len(),
        |i: int|
            if tables[i].id == id {
                MejaView { nama_peserta: Some(nama), ..tables[i] }
            } else {
                tables[i]
            },
    )
}

/// The latest time of upload among `last` and the files: `last` itself
/// where there are no files.
pub open spec fn latest_upload(last: Option<Timestamp>, files: Seq<FileInfoView>) -> Option<
    Timestamp,
>
    decreases files.len(),
{
    if files.len() == 0 {
        last
    } else {
        Some(latest(latest_upload(last, files.drop_last()), files.last().uploaded_at))
    }
}

/// The tables, with the uploaded files added to each that has the id,
/// after the files it has, and its last upload moved to the latest time
/// of upload among them. Without files the table stays as it is.
pub open spec fn with_uploads(tables: Seq<MejaView>, id: Seq<char>, files: Seq<FileInfoView>) -> Seq<
    MejaView,
> {
    Seq::new(
        tables.len(),
        |i: int|
            if tables[i].id == id {
                MejaView {
                    files: tables[i].files + files,
                    last_upload: latest_upload(tables[i].last_upload, files),
                    ..tables[i]
                }
            } else {
                tables[i]
            },
    )
}

/// `at` is where the first of the resource files with the id stands.
pub open spec fn first_soal_at(files: Seq<SoalFileView>, id: Seq<char>, at: int) -> bool {
    &&& 0 <= at < files.len()
    &&& files[at].id == id
    &&& forall|j: int| 0 <= j < at ==> (#[trigger] files[j]).id != id
}

/// None of the resource files has the id.
pub open spec fn no_soal_with(files: Seq<SoalFileView>, id: Seq<char>) -> bool {
    forall|j: int| 0 <= j < files.len() ==> (#[trigger] files[j]).id != id
}

/// Why an upload is turned away before it begins.
#[derive(Clone, Copy, Debug, PartialEq, Eq, Structural)]
pub enum UploadRefusal {
    /// There is no table with the id.
    TableNotFound,
    /// The timer has run out.
    TimeExpired,
}

/// Whether an upload to the table with the id may begin at `now`, and why
/// not: the table must be there, and the timer must have time left.
pub open spec fn upload_refusal(state: AppStateView, id: Seq<char>, now: Timestamp) -> Option<
    UploadRefusal,
> {
    if !has_id(state.meja_list, id) {
        Some(UploadRefusal::TableNotFound)
    } else if state.timer.remaining_at(now) <= 0 {
        Some(UploadRefusal::TimeExpired)
    } else {
        None
    }
}

/// Adds copies of the files to the table, after the files it has, and
/// moves its last upload to the latest time of upload among them.
fn add_files(table: &mut Meja, files: &Vec<FileInfo>)
    ensures
        final(table)@ == (MejaView {
            files: old(table)@.files + file_views(files@),
            last_upload: latest_upload(old(table)@.last_upload, file_views(files@)),
            ..old(table)@
        }),
{
    let mut k: usize = 0;
    assert(file_views(files@).take(0) =~= Seq::empty());
    assert(table@.files + file_views(files@).take(0) =~= table@.files);
    while k < files.len()
        invariant
            k <= files.len(),
            table@ == (MejaView {
                files: old(table)@.files + file_views(files@).take(k as int),
                last_upload: latest_upload(
                    old(table)@.last_upload,
                    file_views(files@).take(k as int),
                ),
                ..old(table)@
            }),
        decreases files.len() - k,
    {
        let ghost listed = table.files@;
        let moves = match table.last_upload {
            Some(t) => t.is_before(&files[k].uploaded_at),
            None => true,
        };
        if moves {
            table.last_upload = Some(files[k].uploaded_at);
        }
        table.files.push(files[k].duplicate());
        proof {
            let upto = file_views(files@).take(k + 1);
            assert(file_views(table.files@) =~= file_views(listed).push(files@[k as int]@));
            assert(upto.drop_last() =~= file_views(files@).take(k as int));
            assert(upto.last() == files@[k as int]@);
            assert(table@.files =~= old(table)@.files + upto);
        }
        k += 1;
    }
    assert(file_views(files@).take(files.len() as int) =~= file_views(files@));
}

/// Where the first of the tables with the id stands.
pub fn position_in(tables: &Vec<Meja>, id: &str) -> (r: Option<usize>)
    ensures
        match r {
            Some(i) => first_table_at(meja_views(tables@), id@, i as int),
            None => !has_id(meja_views(tables@), id@),
        },
{
    let mut i: usize = 0;
    while i < tables.len()
        invariant
            i <= tables.len(),
            forall|j: int| 0 <= j < i ==> (#[trigger] meja_views(tables@)[j]).id != id@,
        decreases tables.len() - i,
    {
        if same_text(tables[i].id.as_str(), id) {
            return Some(i);
        }
        i += 1;
    }
    None
}

impl AppState {
    /// The tables have ids of their own and the timer is well formed.
    pub open spec fn well_formed(self) -> bool {
        distinct_ids(self@.meja_list) && self.timer.well_formed()
    }

    /// A state without tables and resource files, with the timer at one hour.
    pub fn new() -> (r: AppState)
        ensures
            r@.meja_list.len() == 0,
            r@.soal_files.len() == 0,
            r@.timer == TimerModel::configured(60),
            r@.lomba_title == "Lomba Coding"@,
            r.well_formed(),
    {
        AppState {
            meja_list: Vec::new(),
            timer: TimerState::new(),
            soal_files: Vec::new(),
            lomba_title: "Lomba Coding".to_string(),
        }
    }

    /// Where the first table with the id stands.
    pub fn position_of(&self, id: &str) -> (r: Option<usize>)
        ensures
            match r {
                Some(i) => first_table_at(self@.meja_list, id@, i as int),
                None => !has_id(self@.meja_list, id@),
            },
    {
        position_in(&self.meja_list, id)
    }

    /// The first table with the id.
    pub fn table(&self, id: &str) -> (r: Option<&Meja>)
        ensures
            match r {
                Some(m) => exists|i: int|
                    first_table_at(self@.meja_list, id@, i) && #[trigger] self@.meja_list[i]
                        == m@,
                None => !has_id(self@.meja_list, id@),
            },
    {
        match self.position_of(id) {
            Some(i) => {
                Some(&self.meja_list[i])
            },
            None => None,
        }
    }

    /// The first table whose join code is `kode`.
    pub fn table_by_kode(&self, kode: &str) -> (r: Option<&Meja>)
        ensures
            match r {
                Some(m) => exists|i: int|
                    first_kode_at(self@.meja_list, kode@, i) && #[trigger] self@.meja_list[i]
                        == m@,
                None => no_table_with_kode(self@.meja_list, kode@),
            },
    {
        let mut i: usize = 0;
        while i < self.meja_list.len()
            invariant
                i <= self.meja_list.len(),
                forall|j: int| 0 <= j < i ==> (#[trigger] self@.meja_list[j]).kode != kode@,
            decreases self.meja_list.len() - i,
        {
            if same_text(self.meja_list[i].kode.as_str(), kode) {
                assert(self@.meja_list[i as int] == self.meja_list@[i as int]@);
                return Some(&self.meja_list[i]);
            }
            i += 1;
        }
        None
    }

    /// Puts the participant's name on every table with the id; tables with
    /// ids of their own have one such table at most. Says whether there is
    /// such a table; where there is none, nothing changes.
    pub fn set_participant_name(&mut self, id: &str, nama: String) -> (found: bool)
        ensures
            found == has_id(old(self)@.meja_list, id@),
            final(self)@ == (AppStateView {
                meja_list: with_name(old(self)@.meja_list, id@, nama@),
                ..old(self)@
            }),
            old(self).well_formed() ==> final(self).well_formed(),
            !found ==> final(self)@ == old(self)@,
    {
        let ghost before = self@;
        let mut found = false;
        let mut i: usize = 0;
        while i < self.meja_list.len()
            invariant
                i <= self.meja_list.len(),
                self.meja_list.len() == before.meja_list.len(),
                self@ == (AppStateView { meja_list: self@.meja_list, ..before }),
                self.timer == old(self).timer,
                found == exists|j: int| 0 <= j < i && (#[trigger] before.meja_list[j]).id == id@,
                forall|j: int|
                    0 <= j < i ==> #[trigger] self@.meja_list[j] == with_name(
                        before.meja_list,
                        id@,
                        nama@,
                    )[j],
                forall|j: int|
                    i <= j < self.meja_list.len() ==> #[trigger] self@.meja_list[j]
                        == before.meja_list[j],
            decreases self.meja_list.len() - i,
        {
            let ghost tables = self@.meja_list;
            assert(tables[i as int] == before.meja_list[i as int]);
            if same_text(self.meja_list[i].id.as_str(), id) {
                self.meja_list[i].nama_peserta = Some(nama.clone());
                found = true;
            }
            proof {
                assert forall|j: int| 0 <= j < self.meja_list.len() && j != i implies (
                #[trigger] self@.meja_list[j]) == tables[j] by {}
                if !found {
                    assert forall|j: int| 0 <= j < i + 1 implies (#[trigger] before.meja_list[j]).id
                        != id@ by {}
                }
            }
            i += 1;
        }
        assert(self@.meja_list =~= with_name(before.meja_list, id@, nama@));
        if !found {
            assert(with_name(before.meja_list, id@, nama@) =~= before.meja_list);
        }
        found
    }

    /// Says whether an upload to the table with the id may begin at `now`.
    /// The timer is looked at only where the table is there.
    pub fn check_upload(&self, meja_id: &str, now: Timestamp) -> (r: Result<(), UploadRefusal>)
        requires
            has_id(self@.meja_list, meja_id@) ==> {
                &&& self.timer.well_formed()
                &&& now.representable()
                &&& self@.timer.remaining_at(now) <= i64::MAX
            },
        ensures
            match r {
                Ok(_) => upload_refusal(self@, meja_id@, now) is None,
                Err(why) => upload_refusal(self@, meja_id@, now) == Some(why),
            },
    {
        if self.position_of(meja_id).is_none() {
            return Err(UploadRefusal::TableNotFound);
        }
        if self.timer.remaining_at(now) <= 0 {
            Err(UploadRefusal::TimeExpired)
        } else {
            Ok(())
        }
    }

    /// Adds the uploaded files to every table with the id, after the files
    /// it has, and moves its last upload to the latest time of upload among
    /// them; tables with ids of their own have one such table at most. Says
    /// whether there is such a table; where there is none, nothing changes.
    pub fn attach_uploads(&mut self, meja_id: &str, files: Vec<FileInfo>) -> (found: bool)
        ensures
            found == has_id(old(self)@.meja_list, meja_id@),
            final(self)@ == (AppStateView {
                meja_list: with_uploads(old(self)@.meja_list, meja_id@, file_views(files@)),
                ..old(self)@
            }),
            old(self).well_formed() ==> final(self).well_formed(),
            !found ==> final(self)@ == old(self)@,
    {
        let ghost before = self@;
        let ghost added = file_views(files@);
        let mut found = false;
        let mut i: usize = 0;
        while i < self.meja_list.len()
            invariant
                i <= self.meja_list.len(),
                self.meja_list.len() == before.meja_list.len(),
                self@ == (AppStateView { meja_list: self@.meja_list, ..before }),
                self.timer == old(self).timer,
                added == file_views(files@),
                found == exists|j: int|
                    0 <= j < i && (#[trigger] before.meja_list[j]).id == meja_id@,
                forall|j: int|
                    0 <= j < i ==> #[trigger] self@.meja_list[j] == with_uploads(
                        before.meja_list,
                        meja_id@,
                        added,
                    )[j],
                forall|j: int|
                    i <= j < self.meja_list.len() ==> #[trigger] self@.meja_list[j]
                        == before.meja_list[j],
            decreases self.meja_list.len() - i,
        {
            let ghost tables = self@.meja_list;
            assert(tables[i as int] == before.meja_list[i as int]);
            if same_text(self.meja_list[i].id.as_str(), meja_id) {
                add_files(&mut self.meja_list[i], &files);
                found = true;
            }
            proof {
                assert forall|j: int| 0 <= j < self.meja_list.len() && j != i implies (
                #[trigger] self@.meja_list[j]) == tables[j] by {}
                if !found {
                    assert forall|j: int| 0 <= j < i + 1 implies (#[trigger] before.meja_list[j]).id
                        != meja_id@ by {}
                }
            }
            i += 1;
        }
        assert(self@.meja_list =~= with_uploads(before.meja_list, meja_id@, added));
        if !found {
            assert(with_uploads(before.meja_list, meja_id@, added) =~= before.meja_list);
        }
        found
    }

    /// Adds a resource file after those that are there.
    pub fn add_soal(&mut self, soal: SoalFile)
        ensures
            final(self)@ == (AppStateView {
                soal_files: old(self)@.soal_files.push(soal@),
                ..old(self)@
            }),
            old(self).well_formed() ==> final(self).well_formed(),
    {
        self.soal_files.push(soal);
        assert(self@.soal_files =~= old(self)@.soal_files.push(soal@));
    }

    /// Where the first resource file with the id stands.
    pub fn soal_position(&self, id: &str) -> (r: Option<usize>)
        ensures
            match r {
                Some(i) => first_soal_at(self@.soal_files, id@, i as int),
                None => no_soal_with(self@.soal_files, id@),
            },
    {
        let mut i: usize = 0;
        while i < self.soal_files.len()
            invariant
                i <= self.soal_files.len(),
                forall|j: int| 0 <= j < i ==> (#[trigger] self@.soal_files[j]).id != id@,
            decreases self.soal_files.len() - i,
        {
            if same_text(self.soal_files[i].id.as_str(), id) {
                return Some(i);
            }
            i += 1;
        }
        None
    }

    /// The first resource file with the id.
    pub fn soal(&self, id: &str) -> (r: Option<&SoalFile>)
        ensures
            match r {
                Some(s) => exists|i: int|
                    first_soal_at(self@.soal_files, id@, i) && #[trigger] self@.soal_files[i]
                        == s@,
                None => no_soal_with(self@.soal_files, id@),
            },
    {
        match self.soal_position(id) {
            Some(i) => {
                Some(&self.soal_files[i])
            },
            None => None,
        }
    }

    /// Takes out the first resource file with the id and hands it back.
    /// Where there is none, nothing changes.
    pub fn remove_soal(&mut self, id: &str) -> (r: Option<SoalFile>)
        ensures
            match r {
                Some(s) => exists|i: int|
                    {
                        &&& first_soal_at(old(self)@.soal_files, id@, i)
                        &&& #[trigger] old(self)@.soal_files[i] == s@
                        &&& final(self)@ == (AppStateView {
                            soal_files: old(self)@.soal_files.remove(i),
                            ..old(self)@
                        })
                    },
                None => no_soal_with(old(self)@.soal_files, id@) && final(self)@ == old(self)@,
            },
            old(self).well_formed() ==> final(self).well_formed(),
    {
        match self.soal_position(id) {
            Some(i) => {
                let ghost before = self.soal_files@;
                let taken = self.soal_files.remove(i);
                assert(soal_views(self.soal_files@) =~= soal_views(before).remove(i as int));
                Some(taken)
            },
            None => None,
        }
    }
}

} // verus!
