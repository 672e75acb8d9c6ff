//! The list of tables for the organisers: one row for each table, in the
//! order of the table numbers, and the same list as comma-separated text.

use vstd::prelude::*;
use crate::records::{Meja, MejaView};
use crate::state::AppState;
use crate::text::push_char;

verus! {

/// What the list says of one table.
#[derive(Clone, Debug, PartialEq, Eq)]
pub struct ExportRow {
    pub nomor: u32,
    pub kode: String,
    pub nama_peserta: Option<String>,
    pub jumlah_file: usize,
}

/// A row of the list as plain values.
pub struct ExportRowView {
    pub nomor: nat,
    pub kode: Seq<char>,
    pub nama_peserta: Option<Seq<char>>,
    pub jumlah_file: nat,
}

impl View for ExportRow {
    type V = ExportRowView;

    open spec fn view(&self) -> ExportRowView {
        ExportRowView {
            nomor: self.nomor as nat,
            kode: self.kode@,
            nama_peserta: match self.nama_peserta {
                Some(s) => Some(s@),
                None => None,
            },
            jumlah_file: self.jumlah_file as nat,
        }
    }
}

/// The views of a sequence of rows, in order.
pub open spec fn row_views(rows: Seq<ExportRow>) -> Seq<ExportRowView> {
    rows.map_values(|r: ExportRow| r@)
}

/// The row of a table.
pub open spec fn row_of(table: MejaView) -> ExportRowView {
    ExportRowView {
        nomor: table.nomor,
        kode: table.kode,
        nama_peserta: table.nama_peserta,
        jumlah_file: table.files.len(),
    }
}

/// Table `a` comes before table `b` in the list: the lower number first,
/// and of two tables with one number the one that stands first.
pub open spec fn precedes(tables: Seq<MejaView>, a: int, b: int) -> bool {
    tables[a].nomor < tables[b].nomor || (tables[a].nomor == tables[b].nomor && a < b)
}

/// `order` names every table once, in the order of the list.
pub open spec fn in_export_order(tables: Seq<MejaView>, order: Seq<int>) -> bool {
    &&& order.len() == tables.len()
    &&& forall|k: int| 0 <= k < order.len() ==> 0 <= #[trigger] order[k] < tables.len()
    &&& forall|j: int, k: int|
        0 <= j < k < order.len() ==> precedes(tables, #[trigger] order[j], #[trigger] order[k])
}

/// The character of a decimal digit.
pub open spec fn digit(d: nat) -> char {
    (48 + d) as char
}

/// The number in decimal digits, without leading zeros.
pub open spec fn decimal(n: nat) -> Seq<char>
    decreases n,
{
    if n < 10 {
        seq![digit(n)]
    } else {
        decimal(n / 10).push(digit(n % 10))
    }
}

/// The words for whether a table has uploaded anything.
pub open spec fn status_words(jumlah_file: nat) -> Seq<char> {
    if jumlah_file == 0 {
        "Belum Upload"@
    } else {
        "Sudah Upload"@
    }
}

/// The line of a row: the table's number, its join code and the
/// participant's name in quotes, a dash standing for no name, the number
/// of files and the status, with commas between them.
pub open spec fn line_of(row: ExportRowView) -> Seq<char> {
    "Meja "@ + decimal(row.nomor) + ",\""@ + row.kode + "\",\""@ + (match row.nama_peserta {
        Some(nama) => nama,
        None => "-"@,
    }) + "\","@ + decimal(row.jumlah_file) + ","@ + status_words(row.jumlah_file) + "\n"@
}

/// The lines of the rows, one after the other.
pub open spec fn lines_of(rows: Seq<ExportRowView>) -> Seq<char>
    decreases rows.len(),
{
    if rows.len() == 0 {
        Seq::empty()
    } else {
        lines_of(rows.drop_last()) + line_of(rows.last())
    }
}

/// The list as comma-separated text: the headings, then the lines.
pub open spec fn csv_of(rows: Seq<ExportRowView>) -> Seq<char> {
    "Nomor Meja,Kode,Nama Peserta,Jumlah File,Status\n"@ + lines_of(rows)
}

/// Adds the decimal digits of `n` to the text.
fn push_decimal(text: &mut String, n: u64)
    ensures
        final(text)@ == old(text)@ + decimal(n as nat),
    decreases n,
{
    if n >= 10 {
        push_decimal(text, n / 10);
    }
    let d: u8 = (n % 10) as u8;
    push_char(text, (48u8 + d) as char);
}

/// The words for whether a table with so many files has uploaded anything.
pub fn upload_status(jumlah_file: usize) -> (r: &'static str)
    ensures
        r@ == status_words(jumlah_file as nat),
{
    if jumlah_file == 0 {
        "Belum Upload"
    } else {
        "Sudah Upload"
    }
}

impl ExportRow {
    /// The row of a table.
    pub fn of(table: &Meja) -> (r: ExportRow)
        ensures
            r@ == row_of(table@),
    {
        ExportRow {
            nomor: table.nomor,
            kode: table.kode.clone(),
            nama_peserta: match &table.nama_peserta {
                Some(s) => Some(s.clone()),
                None => None,
            },
            jumlah_file: table.files.len(),
        }
    }

    /// The line of the row in the comma-separated list.
    pub fn line(&self) -> (r: String)
        ensures
            r@ == line_of(self@),
    {
        let mut text = String::new();
        text.append("Meja ");
        push_decimal(&mut text, self.nomor as u64);
        text.append(",\"");
        text.append(self.kode.as_str());
        text.append("\",\"");
        match &self.nama_peserta {
            Some(nama) => text.append(nama.as_str()),
            None => text.append("-"),
        }
        text.append("\",");
        push_decimal(&mut text, self.jumlah_file as u64);
        text.append(",");
        text.append(upload_status(self.jumlah_file));
        text.append("\n");
        text
    }
}

/// The comma-separated list of the rows, headings first.
pub fn csv_from_rows(rows: &Vec<ExportRow>) -> (r: String)
    ensures
        r@ == csv_of(row_views(rows@)),
{
    let mut text = String::new();
    text.append("Nomor Meja,Kode,Nama Peserta,Jumlah File,Status\n");
    let mut i: usize = 0;
    while i < rows.len()
        invariant
            i <= rows.len(),
            text@ == csv_of(row_views(rows@).take(i as int)),
        decreases rows.len() - i,
    {
        let line = rows[i].line();
        text.append(line.as_str());
        assert(row_views(rows@).take(i + 1).drop_last() =~= row_views(rows@).take(i as int));
        i += 1;
    }
    assert(row_views(rows@).take(rows.len() as int) =~= row_views(rows@));
    text
}

impl AppState {
    /// The places of the tables in the order of the list: by table number,
    /// and of two tables with one number the one that stands first.
    pub fn export_order(&self) -> (order: Vec<usize>)
        ensures
            in_export_order(self@.meja_list, order@.map_values(|k: usize| k as int)),
    {
        let mut order: Vec<usize> = Vec::new();
        let mut i: usize = 0;
        let ghost tables = self@.meja_list;
        while i < self.meja_list.len()
            invariant
                i <= self.meja_list.len(),
                tables == self@.meja_list,
                tables.len() == self.meja_list.len(),
                order.len() == i,
                forall|k: int| 0 <= k < i ==> 0 <= #[trigger] order@[k] < i,
                forall|j: int, k: int|
                    0 <= j < k < i ==> precedes(
                        tables,
                        #[trigger] order@[j] as int,
                        #[trigger] order@[k] as int,
                    ),
            decreases self.meja_list.len() - i,
        {
            let nomor = self.meja_list[i].nomor;
            let mut at: usize = 0;
            while at < order.len() && self.meja_list[order[at]].nomor <= nomor
                invariant
                    at <= order.len(),
                    order.len() == i,
                    i < self.meja_list.len(),
                    tables == self@.meja_list,
                    tables.len() == self.meja_list.len(),
                    tables[i as int].nomor == nomor,
                    forall|k: int| 0 <= k < i ==> 0 <= #[trigger] order@[k] < i,
                    forall|k: int| 0 <= k < at ==> tables[#[trigger] order@[k] as int].nomor <= nomor,
                decreases order.len() - at,
            {
                assert(tables[order@[at as int] as int].nomor
                    == self.meja_list@[order@[at as int] as int].nomor);
                at += 1;
            }
            proof {
                if at < order.len() {
                    assert(tables[order@[at as int] as int].nomor
                        == self.meja_list@[order@[at as int] as int].nomor);
                }
            }
            let ghost before = order@;
            order.insert(at, i);
            proof {
                assert forall|j: int, k: int| 0 <= j < k < i + 1 implies precedes(
                    tables,
                    #[trigger] order@[j] as int,
                    #[trigger] order@[k] as int,
                ) by {
                    if j == at {
                        assert(precedes(tables, before[at as int] as int, before[k - 1] as int)
                            || k - 1 == at);
                    }
                }
            }
            i += 1;
        }
        proof {
            let ints = order@.map_values(|k: usize| k as int);
            assert forall|j: int, k: int| 0 <= j < k < ints.len() implies precedes(
                tables,
                #[trigger] ints[j],
                #[trigger] ints[k],
            ) by {}
        }
        order
    }

    /// The rows of the list, in its order.
    pub fn export_rows(&self) -> (rows: Vec<ExportRow>)
        ensures
            exists|order: Seq<int>|
                {
                    &&& in_export_order(self@.meja_list, order)
                    &&& row_views(rows@) == Seq::new(
                        order.len(),
                        |k: int| row_of(self@.meja_list[order[k]]),
                    )
                },
            forall|j: int, k: int|
                0 <= j < k < rows@.len() ==> (#[trigger] rows@[j]).nomor <= (
                #[trigger] rows@[k]).nomor,
    {
        let order = self.export_order();
        let ghost ints = order@.map_values(|k: usize| k as int);
        let ghost tables = self@.meja_list;
        let mut rows: Vec<ExportRow> = Vec::new();
        let mut i: usize = 0;
        while i < order.len()
            invariant
                i <= order.len(),
                ints == order@.map_values(|k: usize| k as int),
                tables == self@.meja_list,
                in_export_order(tables, ints),
                rows.len() == i,
                forall|k: int| 0 <= k < i ==> (#[trigger] rows@[k])@ == row_of(tables[ints[k]]),
            decreases order.len() - i,
        {
            assert(ints[i as int] == order@[i as int] as int);
            let at = order[i];
            rows.push(ExportRow::of(&self.meja_list[at]));
            i += 1;
        }
        assert forall|j: int, k: int| 0 <= j < k < rows@.len() implies (#[trigger] rows@[j]).nomor
            <= (#[trigger] rows@[k]).nomor by {}
        rows
    }
}

} // verus!
