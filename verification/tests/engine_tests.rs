use lomba_core::clock::Timestamp;
use lomba_core::engine::{Effects, Publish, StoreWrite};
use lomba_core::records::{FileInfo, Meja, SoalFile};
use lomba_core::state::AppState;
use lomba_core::ticker::Ticker;
use lomba_core::timer::TimerCommand;

const T0: i64 = 1_700_000_000;

fn at(secs: i64) -> Timestamp {
    Timestamp { secs, nanos: 0 }
}

fn two_tables() -> AppState {
    let mut state = AppState::new();
    state.meja_list.push(Meja::new("id-1".to_string(), 1, "aaaaaa".to_string()));
    state.meja_list.push(Meja::new("id-2".to_string(), 2, "bbbbbb".to_string()));
    state
}

fn upload(id: &str) -> FileInfo {
    FileInfo {
        id: id.to_string(),
        filename: format!("{}.zip", id),
        size: 3,
        uploaded_at: at(T0),
        path: format!("./storage/uploads/{}.zip", id),
    }
}

fn soal(id: &str) -> SoalFile {
    SoalFile {
        id: id.to_string(),
        filename: format!("{}.pdf", id),
        path: format!("./storage/soal/{}.pdf", id),
        uploaded_at: at(T0),
    }
}

#[test]
fn timer_command_that_takes_effect_is_stored_and_told() {
    let mut state = AppState::new();
    let effects = state.command_timer(TimerCommand::Configure(2), at(T0));
    assert_eq!(
        effects,
        Effects { writes: vec![StoreWrite::Timer(state.timer)], publish: Publish::State }
    );
    assert_eq!(state.timer.remaining_seconds, 120);
    let effects = state.command_timer(TimerCommand::Start, at(T0));
    assert_eq!(effects.writes, vec![StoreWrite::Timer(state.timer)]);
    assert!(state.timer.is_running);
    let effects = state.command_timer(TimerCommand::Adjust(30), at(T0 + 1));
    assert_eq!(effects.writes, vec![StoreWrite::Timer(state.timer)]);
    let effects = state.command_timer(TimerCommand::Pause, at(T0 + 10));
    assert_eq!(effects.writes, vec![StoreWrite::Timer(state.timer)]);
    assert_eq!(state.timer.remaining_seconds, 110);
    let effects = state.command_timer(TimerCommand::Reset, at(T0 + 11));
    assert_eq!(effects.writes, vec![StoreWrite::Timer(state.timer)]);
    assert_eq!(effects.publish, Publish::State);
}

#[test]
fn timer_command_without_effect_is_told_but_not_stored() {
    let mut state = AppState::new();
    let before = state.clone();
    let effects = state.command_timer(TimerCommand::Pause, at(T0));
    assert_eq!(effects, Effects { writes: vec![], publish: Publish::State });
    assert_eq!(state, before);
    state.command_timer(TimerCommand::Start, at(T0));
    let running = state.clone();
    let effects = state.command_timer(TimerCommand::Start, at(T0 + 5));
    assert_eq!(effects, Effects { writes: vec![], publish: Publish::State });
    assert_eq!(state, running);
}

#[test]
fn tick_that_changes_the_view_is_stored_and_told() {
    let mut state = AppState::new();
    state.command_timer(TimerCommand::Configure(1), at(T0));
    state.command_timer(TimerCommand::Start, at(T0));
    let mut ticker = Ticker::new();
    let effects = state.tick(&mut ticker, at(T0 + 7));
    assert_eq!(
        effects,
        Effects { writes: vec![StoreWrite::Timer(state.timer)], publish: Publish::Tick }
    );
    assert_eq!(state.timer.remaining_seconds, 53);
}

#[test]
fn tick_that_changes_nothing_is_neither_stored_nor_told() {
    let mut state = AppState::new();
    let mut ticker = Ticker::new();
    let before = state.clone();
    assert_eq!(
        state.tick(&mut ticker, at(T0)),
        Effects { writes: vec![], publish: Publish::Nothing }
    );
    assert_eq!(state, before);
    state.command_timer(TimerCommand::Start, at(T0));
    state.tick(&mut ticker, at(T0 + 1));
    let shown = state.clone();
    assert_eq!(
        state.tick(&mut ticker, Timestamp { secs: T0 + 1, nanos: 250_000_000 }),
        Effects { writes: vec![], publish: Publish::Nothing }
    );
    assert_eq!(state, shown);
}

#[test]
fn expiry_is_stored_and_told_once() {
    let mut state = AppState::new();
    state.command_timer(TimerCommand::Configure(1), at(T0));
    state.command_timer(TimerCommand::Start, at(T0));
    let mut ticker = Ticker::new();
    let effects = state.tick(&mut ticker, at(T0 + 60));
    assert_eq!(effects.publish, Publish::Tick);
    assert_eq!(effects.writes.len(), 1);
    assert!(!state.timer.is_running);
    assert_eq!(state.timer.remaining_seconds, 0);
    let effects = state.tick(&mut ticker, at(T0 + 61));
    assert_eq!(effects, Effects { writes: vec![], publish: Publish::Nothing });
}

#[test]
fn regeneration_clears_the_store_and_brings_each_table_in() {
    let mut state = two_tables();
    let effects = state.regenerate(3).unwrap();
    assert_eq!(effects.publish, Publish::State);
    assert_eq!(effects.writes.len(), 4);
    assert_eq!(effects.writes[0], StoreWrite::ClearTables);
    for (i, table) in state.meja_list.iter().enumerate() {
        assert_eq!(
            effects.writes[i + 1],
            StoreWrite::Table { id: table.id.clone(), nomor: i as u32 + 1, kode: table.kode.clone() }
        );
    }
    assert_eq!(state.meja_list.len(), 3);
}

#[test]
fn regeneration_of_no_tables_only_clears_the_store() {
    let mut state = two_tables();
    let effects = state.regenerate(0).unwrap();
    assert_eq!(effects, Effects { writes: vec![StoreWrite::ClearTables], publish: Publish::State });
    assert!(state.meja_list.is_empty());
}

#[test]
fn regeneration_that_fails_changes_nothing() {
    let mut state = two_tables();
    let before = state.clone();
    assert!(state.regenerate(u32::MAX).is_err());
    assert_eq!(state, before);
}

#[test]
fn participant_name_is_stored_and_told() {
    let mut state = two_tables();
    let effects = state.rename_participant("id-2", "Sari".to_string()).unwrap();
    assert_eq!(
        effects,
        Effects {
            writes: vec![StoreWrite::ParticipantName {
                meja_id: "id-2".to_string(),
                nama: "Sari".to_string()
            }],
            publish: Publish::State,
        }
    );
    assert_eq!(state.meja_list[1].nama_peserta, Some("Sari".to_string()));
    assert_eq!(state.meja_list[0].nama_peserta, None);
}

#[test]
fn participant_name_for_a_missing_table_does_nothing_at_all() {
    let mut state = two_tables();
    let before = state.clone();
    assert_eq!(state.rename_participant("nope", "Sari".to_string()), None);
    assert_eq!(state, before);
}

#[test]
fn uploads_are_stored_in_their_order_and_told() {
    let mut state = two_tables();
    let effects = state.receive_uploads("id-1", vec![upload("f1"), upload("f2")]);
    assert_eq!(
        effects,
        Effects {
            writes: vec![
                StoreWrite::File { meja_id: "id-1".to_string(), file: upload("f1") },
                StoreWrite::File { meja_id: "id-1".to_string(), file: upload("f2") },
            ],
            publish: Publish::State,
        }
    );
    assert_eq!(state.meja_list[0].files, vec![upload("f1"), upload("f2")]);
    assert_eq!(state.meja_list[0].last_upload, Some(at(T0)));
    assert!(state.meja_list[1].files.is_empty());
}

#[test]
fn uploads_for_a_table_that_is_gone_are_not_stored() {
    let mut state = two_tables();
    let before = state.clone();
    let effects = state.receive_uploads("gone", vec![upload("f1")]);
    assert_eq!(effects, Effects { writes: vec![], publish: Publish::State });
    assert_eq!(state, before);
}

#[test]
fn resource_file_is_stored_and_told() {
    let mut state = AppState::new();
    let effects = state.add_resource(soal("s1"));
    assert_eq!(effects, Effects { writes: vec![StoreWrite::Soal(soal("s1"))], publish: Publish::State });
    assert_eq!(state.soal_files, vec![soal("s1")]);
}

#[test]
fn uploads_of_no_files_leave_the_table_as_it_is() {
    let mut state = two_tables();
    let before = state.clone();
    let effects = state.receive_uploads("id-1", vec![]);
    assert_eq!(effects, Effects { writes: vec![], publish: Publish::State });
    assert_eq!(state, before);
    assert_eq!(state.meja_list[0].last_upload, None);
}

#[test]
fn removed_resource_file_goes_from_the_store() {
    let mut state = AppState::new();
    state.add_resource(soal("s1"));
    state.add_resource(soal("s2"));
    let (taken, effects) = state.remove_resource("s1").unwrap();
    assert_eq!(taken, soal("s1"));
    assert_eq!(
        effects,
        Effects { writes: vec![StoreWrite::SoalGone("s1".to_string())], publish: Publish::State }
    );
    assert_eq!(state.soal_files, vec![soal("s2")]);
}

#[test]
fn removing_a_resource_file_that_is_not_there_does_nothing_at_all() {
    let mut state = AppState::new();
    state.add_resource(soal("s1"));
    let before = state.clone();
    assert_eq!(state.remove_resource("s9"), None);
    assert_eq!(state, before);
}

#[test]
fn regeneration_is_owed_up_to_the_number_of_codes() {
    let mut state = two_tables();
    for jumlah in [0u32, 1, 2, 5, 40] {
        let effects = state.regenerate(jumlah).unwrap();
        assert_eq!(state.meja_list.len(), jumlah as usize);
        assert_eq!(effects.writes.len(), jumlah as usize + 1);
    }
}
