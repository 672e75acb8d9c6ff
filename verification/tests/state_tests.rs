use lomba_core::clock::Timestamp;
use lomba_core::naming::{new_file_record, new_soal_record, stored_filename, ID_LENGTH};
use lomba_core::records::{FileInfo, Meja, SoalFile};
use lomba_core::state::{position_in, AppState, UploadRefusal};

const T0: i64 = 1_700_000_000;

fn at(secs: i64) -> Timestamp {
    Timestamp { secs, nanos: 0 }
}

fn three_tables() -> AppState {
    let mut state = AppState::new();
    state.meja_list.push(Meja::new("id-1".to_string(), 1, "aaaaaa".to_string()));
    state.meja_list.push(Meja::new("id-2".to_string(), 2, "bbbbbb".to_string()));
    state.meja_list.push(Meja::new("id-3".to_string(), 3, "cccccc".to_string()));
    state
}

fn upload_at(id: &str, secs: i64) -> FileInfo {
    FileInfo {
        id: id.to_string(),
        filename: format!("{}.zip", id),
        size: 1,
        uploaded_at: at(secs),
        path: format!("./storage/uploads/{}.zip", id),
    }
}

fn soal(id: &str) -> SoalFile {
    SoalFile {
        id: id.to_string(),
        filename: format!("{}.pdf", id),
        path: format!("./storage/soal/{}.pdf", id),
        uploaded_at: at(T0),
    }
}

#[test]
fn new_state_is_empty_with_the_default_title() {
    let state = AppState::new();
    assert!(state.meja_list.is_empty());
    assert!(state.soal_files.is_empty());
    assert_eq!(state.lomba_title, "Lomba Coding");
    assert_eq!(state.timer.remaining_seconds, 3600);
}

#[test]
fn new_table_has_neither_participant_nor_files() {
    let table = Meja::new("x".to_string(), 4, "abc123".to_string());
    assert_eq!(table.id, "x");
    assert_eq!(table.nomor, 4);
    assert_eq!(table.kode, "abc123");
    assert_eq!(table.nama_peserta, None);
    assert!(table.files.is_empty());
    assert_eq!(table.last_upload, None);
    assert!(!table.has_uploads());
}

#[test]
fn tables_are_found_by_id() {
    let state = three_tables();
    assert_eq!(state.position_of("id-2"), Some(1));
    assert_eq!(state.position_of("id-9"), None);
    assert_eq!(position_in(&state.meja_list, "id-3"), Some(2));
    assert_eq!(state.table("id-3").map(|m| m.nomor), Some(3));
    assert!(state.table("ID-3").is_none());
    assert!(state.table("").is_none());
}

#[test]
fn tables_are_found_by_join_code() {
    let state = three_tables();
    assert_eq!(state.table_by_kode("bbbbbb").map(|m| m.id.as_str()), Some("id-2"));
    assert!(state.table_by_kode("bbbbb").is_none());
    assert!(state.table_by_kode("BBBBBB").is_none());
}

#[test]
fn participant_name_goes_on_the_table_with_the_id() {
    let mut state = three_tables();
    assert!(state.set_participant_name("id-2", "Sari".to_string()));
    assert_eq!(state.meja_list[1].nama_peserta, Some("Sari".to_string()));
    assert_eq!(state.meja_list[0].nama_peserta, None);
    assert_eq!(state.meja_list[2].nama_peserta, None);
    assert!(state.set_participant_name("id-2", "Dewi".to_string()));
    assert_eq!(state.meja_list[1].nama_peserta, Some("Dewi".to_string()));
}

#[test]
fn participant_name_for_a_missing_table_changes_nothing() {
    let mut state = three_tables();
    let before = state.clone();
    assert!(!state.set_participant_name("nope", "Sari".to_string()));
    assert_eq!(state, before);
}

#[test]
fn upload_to_a_missing_table_is_refused() {
    let state = three_tables();
    assert_eq!(state.check_upload("nope", at(T0)), Err(UploadRefusal::TableNotFound));
}

#[test]
fn upload_is_allowed_while_time_is_left() {
    let mut state = three_tables();
    assert_eq!(state.check_upload("id-1", at(T0)), Ok(()));
    state.timer.configure(1);
    state.timer.start(at(T0));
    assert_eq!(state.check_upload("id-1", at(T0 + 59)), Ok(()));
}

#[test]
fn upload_is_refused_once_the_time_is_up() {
    let mut state = three_tables();
    state.timer.configure(1);
    state.timer.start(at(T0));
    assert_eq!(state.check_upload("id-1", at(T0 + 60)), Err(UploadRefusal::TimeExpired));
    assert_eq!(state.check_upload("nope", at(T0 + 60)), Err(UploadRefusal::TableNotFound));
    state.timer.pause(at(T0 + 100));
    assert_eq!(state.timer.remaining_seconds, 0);
    assert_eq!(state.check_upload("id-1", at(T0 + 200)), Err(UploadRefusal::TimeExpired));
}

#[test]
fn upload_is_refused_when_the_timer_is_set_to_nothing() {
    let mut state = three_tables();
    state.timer.configure(0);
    assert_eq!(state.check_upload("id-1", at(T0)), Err(UploadRefusal::TimeExpired));
    state.timer.configure(-1);
    assert_eq!(state.check_upload("id-1", at(T0)), Err(UploadRefusal::TimeExpired));
    assert_eq!(state.check_upload("nope", at(T0)), Err(UploadRefusal::TableNotFound));
}

#[test]
fn upload_is_allowed_again_after_an_adjustment() {
    let mut state = three_tables();
    state.timer.configure(0);
    state.timer.adjust(1);
    assert_eq!(state.check_upload("id-1", at(T0)), Ok(()));
}

#[test]
fn uploads_are_added_after_the_files_that_are_there() {
    let mut state = three_tables();
    assert!(state.attach_uploads("id-2", vec![upload_at("f1", T0 + 5)]));
    assert!(state.attach_uploads("id-2", vec![upload_at("f2", T0 + 9), upload_at("f3", T0 + 7)]));
    let ids: Vec<&str> = state.meja_list[1].files.iter().map(|f| f.id.as_str()).collect();
    assert_eq!(ids, vec!["f1", "f2", "f3"]);
    assert_eq!(state.meja_list[1].last_upload, Some(at(T0 + 9)));
    assert!(state.meja_list[1].has_uploads());
    assert!(state.meja_list[0].files.is_empty());
    assert_eq!(state.meja_list[0].last_upload, None);
}

#[test]
fn last_upload_never_moves_back() {
    let mut state = three_tables();
    state.attach_uploads("id-1", vec![upload_at("f1", T0 + 100)]);
    state.attach_uploads("id-1", vec![upload_at("f2", T0 + 50)]);
    assert_eq!(state.meja_list[0].last_upload, Some(at(T0 + 100)));
    assert_eq!(state.meja_list[0].files.len(), 2);
}

#[test]
fn attaching_no_files_changes_nothing() {
    let mut state = three_tables();
    let before = state.clone();
    assert!(state.attach_uploads("id-1", vec![]));
    assert_eq!(state, before);
    assert_eq!(state.meja_list[0].last_upload, None);
    state.attach_uploads("id-1", vec![upload_at("f1", T0 + 1)]);
    let with_one = state.clone();
    assert!(state.attach_uploads("id-1", vec![]));
    assert_eq!(state, with_one);
}

#[test]
fn uploads_for_a_missing_table_change_nothing() {
    let mut state = three_tables();
    let before = state.clone();
    assert!(!state.attach_uploads("nope", vec![upload_at("f1", T0)]));
    assert_eq!(state, before);
}

#[test]
fn resource_files_keep_their_order() {
    let mut state = AppState::new();
    state.add_soal(soal("s1"));
    state.add_soal(soal("s2"));
    state.add_soal(soal("s3"));
    let ids: Vec<&str> = state.soal_files.iter().map(|s| s.id.as_str()).collect();
    assert_eq!(ids, vec!["s1", "s2", "s3"]);
    assert_eq!(state.soal_position("s2"), Some(1));
    assert_eq!(state.soal("s3").map(|s| s.filename.as_str()), Some("s3.pdf"));
    assert!(state.soal("s9").is_none());
}

#[test]
fn removing_a_resource_file_takes_out_the_first_with_the_id() {
    let mut state = AppState::new();
    state.add_soal(soal("s1"));
    state.add_soal(soal("s2"));
    let mut twin = soal("s1");
    twin.filename = "twin.pdf".to_string();
    state.add_soal(twin);
    let taken = state.remove_soal("s1");
    assert_eq!(taken, Some(soal("s1")));
    let names: Vec<&str> = state.soal_files.iter().map(|s| s.filename.as_str()).collect();
    assert_eq!(names, vec!["s2.pdf", "twin.pdf"]);
}

#[test]
fn removing_a_missing_resource_file_changes_nothing() {
    let mut state = AppState::new();
    state.add_soal(soal("s1"));
    let before = state.clone();
    assert_eq!(state.remove_soal("s2"), None);
    assert_eq!(state, before);
}

#[test]
fn stored_filename_drops_what_is_unsafe_in_names() {
    assert_eq!(stored_filename(Some("../etc/pass:wd?.txt")), "..etcpasswd.txt");
    assert_eq!(stored_filename(Some("jawaban.zip")), "jawaban.zip");
    assert_eq!(stored_filename(Some("a\\b|c\"d<e>f*g\u{0007}h")), "abcdefgh");
    assert_eq!(stored_filename(Some("..")), "");
}

#[test]
fn stored_filename_is_never_longer_than_the_limit() {
    let long = "x".repeat(400);
    assert_eq!(stored_filename(Some(&long)).chars().count(), 255);
}

#[test]
fn stored_filename_without_a_name_is_a_fresh_id() {
    let first = stored_filename(None);
    let second = stored_filename(None);
    assert_eq!(first.chars().count(), ID_LENGTH);
    assert_eq!(second.chars().count(), 36);
    assert_ne!(first, second);
}

#[test]
fn file_record_gets_a_fresh_id() {
    let record = new_file_record(
        "a.zip".to_string(),
        42,
        "./storage/uploads/m1/a.zip".to_string(),
        at(T0),
    );
    assert_eq!(record.filename, "a.zip");
    assert_eq!(record.size, 42);
    assert_eq!(record.path, "./storage/uploads/m1/a.zip");
    assert_eq!(record.uploaded_at, at(T0));
    assert_eq!(record.id.len(), 36);
    let other = new_file_record("a.zip".to_string(), 42, "p".to_string(), at(T0));
    assert_ne!(record.id, other.id);
}

#[test]
fn soal_record_gets_a_fresh_id() {
    let record = new_soal_record("soal.pdf".to_string(), "./storage/soal/soal.pdf".to_string(), at(T0));
    assert_eq!(record.filename, "soal.pdf");
    assert_eq!(record.path, "./storage/soal/soal.pdf");
    assert_eq!(record.uploaded_at, at(T0));
    assert_eq!(record.id.len(), 36);
}
