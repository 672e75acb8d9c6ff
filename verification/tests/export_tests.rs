use lomba_core::clock::Timestamp;
use lomba_core::export::{csv_from_rows, upload_status, ExportRow};
use lomba_core::records::{FileInfo, Meja};
use lomba_core::state::AppState;

fn table(id: &str, nomor: u32, kode: &str, nama: Option<&str>, files: usize) -> Meja {
    let mut table = Meja::new(id.to_string(), nomor, kode.to_string());
    table.nama_peserta = nama.map(|n| n.to_string());
    for i in 0..files {
        table.files.push(FileInfo {
            id: format!("{}-{}", id, i),
            filename: "jawaban.zip".to_string(),
            size: 1,
            uploaded_at: Timestamp { secs: 0, nanos: 0 },
            path: "p".to_string(),
        });
    }
    table
}

fn unordered_state() -> AppState {
    let mut state = AppState::new();
    state.meja_list.push(table("c", 3, "cccccc", None, 0));
    state.meja_list.push(table("a", 1, "aaaaaa", Some("Budi"), 2));
    state.meja_list.push(table("d", 10, "dddddd", Some("Sari \"S\""), 12));
    state.meja_list.push(table("b", 2, "bbbbbb", None, 0));
    state
}

#[test]
fn export_order_goes_by_table_number() {
    assert_eq!(unordered_state().export_order(), vec![1, 3, 0, 2]);
    assert_eq!(AppState::new().export_order(), Vec::<usize>::new());
}

#[test]
fn export_order_keeps_tables_with_one_number_as_they_stand() {
    let mut state = AppState::new();
    state.meja_list.push(table("x", 2, "xxxxxx", None, 0));
    state.meja_list.push(table("y", 1, "yyyyyy", None, 0));
    state.meja_list.push(table("z", 2, "zzzzzz", None, 0));
    state.meja_list.push(table("w", 1, "wwwwww", None, 0));
    assert_eq!(state.export_order(), vec![1, 3, 0, 2]);
}

#[test]
fn export_rows_say_what_the_tables_hold() {
    let rows = unordered_state().export_rows();
    assert_eq!(
        rows,
        vec![
            ExportRow {
                nomor: 1,
                kode: "aaaaaa".to_string(),
                nama_peserta: Some("Budi".to_string()),
                jumlah_file: 2,
            },
            ExportRow { nomor: 2, kode: "bbbbbb".to_string(), nama_peserta: None, jumlah_file: 0 },
            ExportRow { nomor: 3, kode: "cccccc".to_string(), nama_peserta: None, jumlah_file: 0 },
            ExportRow {
                nomor: 10,
                kode: "dddddd".to_string(),
                nama_peserta: Some("Sari \"S\"".to_string()),
                jumlah_file: 12,
            },
        ]
    );
}

#[test]
fn row_of_a_table_counts_its_files() {
    let row = ExportRow::of(&table("a", 7, "abc123", Some("Budi"), 3));
    assert_eq!(
        row,
        ExportRow {
            nomor: 7,
            kode: "abc123".to_string(),
            nama_peserta: Some("Budi".to_string()),
            jumlah_file: 3,
        }
    );
}

#[test]
fn status_tells_whether_anything_was_uploaded() {
    assert_eq!(upload_status(0), "Belum Upload");
    assert_eq!(upload_status(1), "Sudah Upload");
    assert_eq!(upload_status(usize::MAX), "Sudah Upload");
}

#[test]
fn line_of_a_row_is_comma_separated() {
    let with_name = ExportRow {
        nomor: 1,
        kode: "aaaaaa".to_string(),
        nama_peserta: Some("Budi".to_string()),
        jumlah_file: 2,
    };
    assert_eq!(with_name.line(), "Meja 1,\"aaaaaa\",\"Budi\",2,Sudah Upload\n");
    let without = ExportRow { nomor: 20, kode: "bbbbbb".to_string(), nama_peserta: None, jumlah_file: 0 };
    assert_eq!(without.line(), "Meja 20,\"bbbbbb\",\"-\",0,Belum Upload\n");
}

#[test]
fn line_of_a_row_writes_numbers_in_decimal() {
    let row = ExportRow {
        nomor: u32::MAX,
        kode: "k".to_string(),
        nama_peserta: None,
        jumlah_file: 1_000_001,
    };
    assert_eq!(row.line(), "Meja 4294967295,\"k\",\"-\",1000001,Sudah Upload\n");
    let zero = ExportRow { nomor: 0, kode: "k".to_string(), nama_peserta: None, jumlah_file: 109 };
    assert_eq!(zero.line(), "Meja 0,\"k\",\"-\",109,Sudah Upload\n");
}

#[test]
fn csv_has_headings_and_one_line_for_each_table() {
    let csv = csv_from_rows(&unordered_state().export_rows());
    assert_eq!(
        csv,
        "Nomor Meja,Kode,Nama Peserta,Jumlah File,Status\n\
         Meja 1,\"aaaaaa\",\"Budi\",2,Sudah Upload\n\
         Meja 2,\"bbbbbb\",\"-\",0,Belum Upload\n\
         Meja 3,\"cccccc\",\"-\",0,Belum Upload\n\
         Meja 10,\"dddddd\",\"Sari \"S\"\",12,Sudah Upload\n"
    );
}

#[test]
fn csv_of_no_tables_is_the_headings() {
    assert_eq!(csv_from_rows(&vec![]), "Nomor Meja,Kode,Nama Peserta,Jumlah File,Status\n");
}
