//! The course of every change: the state is changed in memory, what has
//! changed is handed out to be written to the store, and it is said whether
//! and how the viewers are to be told.

use vstd::prelude::*;
use crate::clock::Timestamp;
use crate::records::{file_views, FileInfo, FileInfoView, MejaView, SoalFile, SoalFileView};
use crate::kode::KODE_SPACE;
use crate::regenerate::{newly_made, no_id_of, RegenerateError};
use crate::state::{
    first_soal_at, has_id, no_soal_with, with_name, with_uploads, AppState, AppStateView,
};
use crate::ticker::{tick_step, Ticker};
use crate::timer::{TimerCommand, TimerState};

verus! {

/// Something that is to be written to the store.
#[derive(Clone, Debug, PartialEq, Eq)]
pub enum StoreWrite {
    /// The timer's row takes these values.
    Timer(TimerState),
    /// All tables go, and all their files with them.
    ClearTables,
    /// A table without participant comes in.
    Table { id: String, nomor: u32, kode: String },
    /// The table with the id gets the participant's name.
    ParticipantName { meja_id: String, nama: String },
    /// A file of the table with the id comes in.
    File { meja_id: String, file: FileInfo },
    /// A resource file comes in.
    Soal(SoalFile),
    /// The resource file with the id goes.
    SoalGone(String),
}

/// How the viewers are to be told of a change.
#[derive(Clone, Copy, Debug, PartialEq, Eq, Structural)]
pub enum Publish {
    /// They are not told.
    Nothing,
    /// They get the whole state.
    State,
    /// They get the state as it is sent after a tick.
    Tick,
}

/// What follows from a change.
#[derive(Clone, Debug, PartialEq, Eq)]
pub struct Effects {
    /// What is to be written to the store, in this order.
    pub writes: Vec<StoreWrite>,
    pub publish: Publish,
}

/// A write as plain values.
pub enum StoreWriteView {
    Timer(TimerState),
    ClearTables,
    Table { id: Seq<char>, nomor: nat, kode: Seq<char> },
    ParticipantName { meja_id: Seq<char>, nama: Seq<char> },
    File { meja_id: Seq<char>, file: FileInfoView },
    Soal(SoalFileView),
    SoalGone(Seq<char>),
}

impl View for StoreWrite {
    type V = StoreWriteView;

    open spec fn view(&self) -> StoreWriteView {
        match *self {
            StoreWrite::Timer(timer) => StoreWriteView::Timer(timer),
            StoreWrite::ClearTables => StoreWriteView::ClearTables,
            StoreWrite::Table { id, nomor, kode } => StoreWriteView::Table {
                id: id@,
                nomor: nomor as nat,
                kode: kode@,
            },
            StoreWrite::ParticipantName { meja_id, nama } => StoreWriteView::ParticipantName {
                meja_id: meja_id@,
                nama: nama@,
            },
            StoreWrite::File { meja_id, file } => StoreWriteView::File {
                meja_id: meja_id@,
                file: file@,
            },
            StoreWrite::Soal(soal) => StoreWriteView::Soal(soal@),
            StoreWrite::SoalGone(id) => StoreWriteView::SoalGone(id@),
        }
    }
}

/// The views of a sequence of writes, in order.
pub open spec fn write_views(writes: Seq<StoreWrite>) -> Seq<StoreWriteView> {
    writes.map_values(|w: StoreWrite| w@)
}

/// The writes that put new tables in the place of all that were there:
/// everything goes, then each table comes in, in order.
pub open spec fn regeneration_writes(tables: Seq<MejaView>) -> Seq<StoreWriteView> {
    seq![StoreWriteView::ClearTables] + Seq::new(
        tables.len(),
        |i: int|
            StoreWriteView::Table { id: tables[i].id, nomor: tables[i].nomor, kode: tables[i].kode },
    )
}

/// The writes that bring the files of one table in, in order.
pub open spec fn upload_writes(meja_id: Seq<char>, files: Seq<FileInfoView>) -> Seq<
    StoreWriteView,
> {
    Seq::new(files.len(), |i: int| StoreWriteView::File { meja_id, file: files[i] })
}

impl AppState {
    /// Carries out a command on the timer at `now`. The timer's row is to
    /// be written where the command is one that is always stored or took
    /// effect, and the viewers get the whole state in any case.
    pub fn command_timer(&mut self, command: TimerCommand, now: Timestamp) -> (effects: Effects)
        requires
            old(self).timer.well_formed(),
            now.representable(),
            old(self).timer.admits(command, now),
        ensures
            final(self)@ == (AppStateView {
                timer: old(self)@.timer.after(command, now),
                ..old(self)@
            }),
            final(self).timer.well_formed(),
            write_views(effects.writes@) == if old(self)@.timer.stored_after(command) {
                seq![StoreWriteView::Timer(final(self).timer)]
            } else {
                Seq::empty()
            },
            effects.writes@.len() == if old(self)@.timer.stored_after(command) { 1nat } else { 0nat },
            final(self).timer != old(self).timer ==> old(self)@.timer.stored_after(command),
            effects.publish == Publish::State,
    {
        let mut writes: Vec<StoreWrite> = Vec::new();
        if self.timer.apply(command, now) {
            writes.push(StoreWrite::Timer(self.timer));
        }
        Effects { writes, publish: Publish::State }
    }

    /// Carries out one tick at `now`. Where the tick changed what the
    /// viewers see, the timer's row is to be written and the viewers are
    /// told; where it did not, nothing is written and nobody is told.
    pub fn tick(&mut self, ticker: &mut Ticker, now: Timestamp) -> (effects: Effects)
        requires
            old(self).timer.well_formed(),
            now.representable(),
            tick_step(old(self)@.timer, old(ticker).last_remaining as int, now).timer.remaining
                <= i64::MAX,
        ensures
            final(self)@ == (AppStateView {
                timer: tick_step(old(self)@.timer, old(ticker).last_remaining as int, now).timer,
                ..old(self)@
            }),
            final(ticker).last_remaining == tick_step(
                old(self)@.timer,
                old(ticker).last_remaining as int,
                now,
            ).last,
            final(self).timer.well_formed(),
            tick_step(old(self)@.timer, old(ticker).last_remaining as int, now).changed ==> {
                &&& write_views(effects.writes@) == seq![StoreWriteView::Timer(final(self).timer)]
                &&& effects.writes@.len() == 1
                &&& effects.publish == Publish::Tick
            },
            !tick_step(old(self)@.timer, old(ticker).last_remaining as int, now).changed ==> {
                &&& effects.writes@.len() == 0
                &&& effects.publish == Publish::Nothing
                &&& final(self).timer == old(self).timer
            },
            final(self)@ != old(self)@ ==> effects.publish == Publish::Tick,
    {
        let mut writes: Vec<StoreWrite> = Vec::new();
        if ticker.tick(&mut self.timer, now) {
            writes.push(StoreWrite::Timer(self.timer));
            Effects { writes, publish: Publish::Tick }
        } else {
            Effects { writes, publish: Publish::Nothing }
        }
    }

    /// Replaces all the tables by `jumlah` new ones. The store is to be
    /// cleared of tables and files and to take each new table in, and the
    /// viewers get the whole state. Only more tables than there are join
    /// codes are refused, and then nothing changes.
    pub fn regenerate(&mut self, jumlah: u32) -> (r: Result<Effects, RegenerateError>)
        ensures
            r is Ok <==> jumlah <= KODE_SPACE,
            match r {
                Ok(effects) => {
                    &&& final(self)@ == (AppStateView {
                        meja_list: final(self)@.meja_list,
                        ..old(self)@
                    })
                    &&& newly_made(final(self)@.meja_list, jumlah as nat)
                    &&& no_id_of(final(self)@.meja_list, old(self)@.meja_list)
                    &&& write_views(effects.writes@) == regeneration_writes(final(self)@.meja_list)
                    &&& effects.writes@.len() == jumlah + 1
                    &&& effects.publish == Publish::State
                },
                Err(why) => why == RegenerateError::TooMany && *final(self) == *old(self),
            },
            r is Ok && old(self).timer.well_formed() ==> final(self).well_formed(),
    {
        match self.generate_meja(jumlah) {
            Ok(_) => {
                let mut writes: Vec<StoreWrite> = Vec::new();
                writes.push(StoreWrite::ClearTables);
                let mut i: usize = 0;
                while i < self.meja_list.len()
                    invariant
                        i <= self.meja_list.len(),
                        writes.len() == i + 1,
                        writes@[0]@ == StoreWriteView::ClearTables,
                        forall|j: int|
                            0 <= j < i ==> (#[trigger] writes@[j + 1])@ == (StoreWriteView::Table {
                                id: self@.meja_list[j].id,
                                nomor: self@.meja_list[j].nomor,
                                kode: self@.meja_list[j].kode,
                            }),
                    decreases self.meja_list.len() - i,
                {
                    let table = &self.meja_list[i];
                    writes.push(
                        StoreWrite::Table {
                            id: table.id.clone(),
                            nomor: table.nomor,
                            kode: table.kode.clone(),
                        },
                    );
                    i += 1;
                }
                Ok(Effects { writes, publish: Publish::State })
            },
            Err(why) => Err(why),
        }
    }

    /// Puts the participant's name on the table with the id. Where there is
    /// such a table, the name is to be written to the store and the viewers
    /// get the whole state; where there is none, nothing happens at all.
    pub fn rename_participant(&mut self, meja_id: &str, nama: String) -> (r: Option<Effects>)
        ensures
            r is Some == has_id(old(self)@.meja_list, meja_id@),
            final(self)@ == (AppStateView {
                meja_list: with_name(old(self)@.meja_list, meja_id@, nama@),
                ..old(self)@
            }),
            old(self).well_formed() ==> final(self).well_formed(),
            r matches Some(effects) ==> {
                &&& write_views(effects.writes@) == seq![
                    StoreWriteView::ParticipantName { meja_id: meja_id@, nama: nama@ },
                ]
                &&& effects.writes@.len() == 1
                &&& effects.publish == Publish::State
            },
            r is None ==> final(self)@ == old(self)@,
    {
        let written = nama.clone();
        if self.set_participant_name(meja_id, nama) {
            let mut writes: Vec<StoreWrite> = Vec::new();
            writes.push(StoreWrite::ParticipantName { meja_id: meja_id.to_owned(), nama: written });
            Some(Effects { writes, publish: Publish::State })
        } else {
            None
        }
    }

    /// Adds the uploaded files to the table with the id and moves its last
    /// upload to the latest among them. Where there is such a table, the
    /// files are to be written to the store; the viewers get the whole
    /// state in any case.
    pub fn receive_uploads(&mut self, meja_id: &str, files: Vec<FileInfo>) -> (effects: Effects)
        ensures
            final(self)@ == (AppStateView {
                meja_list: with_uploads(old(self)@.meja_list, meja_id@, file_views(files@)),
                ..old(self)@
            }),
            old(self).well_formed() ==> final(self).well_formed(),
            write_views(effects.writes@) == if has_id(old(self)@.meja_list, meja_id@) {
                upload_writes(meja_id@, file_views(files@))
            } else {
                Seq::empty()
            },
            effects.writes@.len() == if has_id(old(self)@.meja_list, meja_id@) {
                files@.len()
            } else {
                0
            },
            effects.publish == Publish::State,
    {
        let mut writes: Vec<StoreWrite> = Vec::new();
        if self.position_of(meja_id).is_some() {
            let mut i: usize = 0;
            while i < files.len()
                invariant
                    i <= files.len(),
                    writes.len() == i,
                    forall|j: int|
                        0 <= j < i ==> (#[trigger] writes@[j])@ == (StoreWriteView::File {
                            meja_id: meja_id@,
                            file: files@[j]@,
                        }),
                decreases files.len() - i,
            {
                writes.push(
                    StoreWrite::File { meja_id: meja_id.to_owned(), file: files[i].duplicate() },
                );
                i += 1;
            }
        }
        self.attach_uploads(meja_id, files);
        Effects { writes, publish: Publish::State }
    }

    /// Adds a resource file. It is to be written to the store, and the
    /// viewers get the whole state.
    pub fn add_resource(&mut self, soal: SoalFile) -> (effects: Effects)
        ensures
            final(self)@ == (AppStateView {
                soal_files: old(self)@.soal_files.push(soal@),
                ..old(self)@
            }),
            old(self).well_formed() ==> final(self).well_formed(),
            write_views(effects.writes@) == seq![StoreWriteView::Soal(soal@)],
            effects.writes@.len() == 1,
            effects.publish == Publish::State,
    {
        let mut writes: Vec<StoreWrite> = Vec::new();
        writes.push(StoreWrite::Soal(soal.duplicate()));
        self.add_soal(soal);
        Effects { writes, publish: Publish::State }
    }

    /// Takes out the first resource file with the id and hands it back, so
    /// that what it stands for can be removed. Its row is to go from the
    /// store, and the viewers get the whole state. Where there is no such
    /// resource file, nothing happens at all.
    pub fn remove_resource(&mut self, id: &str) -> (r: Option<(SoalFile, Effects)>)
        ensures
            match r {
                Some((taken, effects)) => exists|i: int|
                    {
                        &&& first_soal_at(old(self)@.soal_files, id@, i)
                        &&& #[trigger] old(self)@.soal_files[i] == taken@
                        &&& final(self)@ == (AppStateView {
                            soal_files: old(self)@.soal_files.remove(i),
                            ..old(self)@
                        })
                        &&& write_views(effects.writes@) == seq![StoreWriteView::SoalGone(id@)]
                        &&& effects.writes@.len() == 1
                        &&& effects.publish == Publish::State
                    },
                None => no_soal_with(old(self)@.soal_files, id@) && final(self)@ == old(self)@,
            },
            old(self).well_formed() ==> final(self).well_formed(),
    {
        match self.remove_soal(id) {
            Some(taken) => {
                let mut writes: Vec<StoreWrite> = Vec::new();
                writes.push(StoreWrite::SoalGone(id.to_owned()));
                Some((taken, Effects { writes, publish: Publish::State }))
            },
            None => None,
        }
    }
}

} // verus!
