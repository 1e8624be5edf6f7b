//! What an export writes, computed without touching any file: the annotation
//! of each header cell, the preview of all annotations, column widths and the
//! text of sample-data cells.
use vstd::prelude::*;
use crate::note::{column_note, generated, note_text, raw_fires};
use crate::schema::{
    Table, derived_is_label, effective_label_index, effective_label_pos, first_pos, lemma_first_pos,
    lemma_first_pos_stable, lemma_label_pos,
};
use crate::synth::settings_of;
use crate::text::text_eq;
use crate::value::{
    NoteVal, NoteValue, entries_view, get, key_index, keys_of, lemma_entries_view, lemma_key_pos,
    lemma_list_view, list_view, string_keys,
};

verus! {

/// A row of sample data: column id to value.
#[derive(Debug)]
pub struct SampleRow {
    pub values: Vec<(String, NoteValue)>,
}

/// Everything an export needs: the tables, sample rows per table id, and
/// whether sample rows are written.
#[derive(Debug)]
pub struct ExportRequest {
    pub tables: Vec<Table>,
    pub sample_data: Vec<(String, Vec<SampleRow>)>,
    pub include_data: bool,
}

/// Whether the annotation of column `j` of `t` is attached to its header.
pub open spec fn attaches(t: Table, j: int, tables: Seq<Table>, st: Option<Seq<(Seq<char>, bool)>>) -> bool {
    raw_fires(t.columns@[j]) || generated(t.columns@[j], derived_is_label(t, j), tables, st).len() > 0
}

/// The annotation of column `j` of `t`, with the table's effective label.
pub open spec fn table_note(t: Table, j: int, tables: Seq<Table>, st: Option<Seq<(Seq<char>, bool)>>) -> Seq<char> {
    note_text(t.columns@[j], derived_is_label(t, j), tables, st)
}

/// The annotation to show for column `j`: empty when none is attached.
pub open spec fn preview_text(t: Table, j: int, tables: Seq<Table>, st: Option<Seq<(Seq<char>, bool)>>) -> Seq<char> {
    if attaches(t, j, tables, st) {
        table_note(t, j, tables, st)
    } else {
        Seq::empty()
    }
}

/// The preview of one table: each column id with its annotation text, empty
/// when none is attached.
pub open spec fn table_preview(t: Table, tables: Seq<Table>, st: Option<Seq<(Seq<char>, bool)>>) -> Seq<(Seq<char>, Seq<char>)> {
    Seq::new(t.columns@.len(), |j: int| (t.columns@[j].id@, preview_text(t, j, tables, st)))
}

/// The model of a list of text pairs.
pub open spec fn pairs_view(s: Seq<(String, String)>) -> Seq<(Seq<char>, Seq<char>)> {
    s.map_values(|e: (String, String)| (e.0@, e.1@))
}

/// The header annotations of the first `n` columns of `t`, as (column index,
/// text), skipping the columns with nothing attached.
pub open spec fn note_cells(t: Table, tables: Seq<Table>, st: Option<Seq<(Seq<char>, bool)>>, n: int) -> Seq<(int, Seq<char>)>
    decreases n,
{
    if n <= 0 {
        Seq::empty()
    } else if attaches(t, n - 1, tables, st) {
        note_cells(t, tables, st, n - 1).push((n - 1, table_note(t, n - 1, tables, st)))
    } else {
        note_cells(t, tables, st, n - 1)
    }
}

/// The model of a list of (index, text) cells.
pub open spec fn cells_view(s: Seq<(usize, String)>) -> Seq<(int, Seq<char>)> {
    s.map_values(|e: (usize, String)| (e.0 as int, e.1@))
}

/// Whether the derived label flag of column `j` is true.
fn is_effective_label(t: &Table, label: Option<usize>, j: usize) -> (r: bool)
    requires
        j < t.columns@.len(),
        (match label {
            Some(i) => i as int,
            None => -1,
        }) == effective_label_pos(*t),
    ensures
        r == derived_is_label(*t, j as int),
{
    proof {
        lemma_label_pos(t.columns@, t.columns@.len() as int);
    }
    match label {
        Some(i) => t.columns[j].id == t.columns[i].id,
        None => false,
    }
}

/// The annotations to attach to the header cells of `table`, in column order.
pub fn table_notes(table: &Table, tables: &[Table], settings: Option<&Vec<(String, bool)>>) -> (r: Vec<
    (usize, String),
>)
    ensures
        cells_view(r@) == note_cells(*table, tables@, settings_of(settings), table.columns@.len() as int),
{
    let label = effective_label_index(table);
    let ghost st = settings_of(settings);
    let mut out: Vec<(usize, String)> = Vec::new();
    let mut j: usize = 0;
    while j < table.columns.len()
        invariant
            j <= table.columns@.len(),
            st == settings_of(settings),
            (match label {
                Some(i) => i as int,
                None => -1,
            }) == effective_label_pos(*table),
            cells_view(out@) == note_cells(*table, tables@, st, j as int),
        decreases table.columns@.len() - j,
    {
        let is_label = is_effective_label(table, label, j);
        let (text, attach) = column_note(&table.columns[j], is_label, tables, settings);
        if attach {
            out.push((j, text));
            assert(cells_view(out@) =~= note_cells(*table, tables@, st, j as int).push(
                (j as int, table_note(*table, j as int, tables@, st)),
            ));
        }
        j = j + 1;
    }
    out
}

/// The preview of one table: each column id with its annotation, or the
/// empty string when none would be attached.
pub fn preview_table(table: &Table, tables: &[Table], settings: Option<&Vec<(String, bool)>>) -> (r: Vec<
    (String, String),
>)
    ensures
        pairs_view(r@) == table_preview(*table, tables@, settings_of(settings)),
{
    let label = effective_label_index(table);
    let mut out: Vec<(String, String)> = Vec::new();
    let mut j: usize = 0;
    while j < table.columns.len()
        invariant
            j <= table.columns@.len(),
            (match label {
                Some(i) => i as int,
                None => -1,
            }) == effective_label_pos(*table),
            out@.len() == j,
            forall|k: int|
                0 <= k < j ==> #[trigger] out@[k].0@ == table.columns@[k].id@ && out@[k].1@
                    == preview_text(*table, k, tables@, settings_of(settings)),
        decreases table.columns@.len() - j,
    {
        let is_label = is_effective_label(table, label, j);
        let (text, attach) = column_note(&table.columns[j], is_label, tables, settings);
        let shown = if attach {
            text
        } else {
            String::new()
        };
        out.push((table.columns[j].id.clone(), shown));
        j = j + 1;
    }
    assert(pairs_view(out@) =~= table_preview(*table, tables@, settings_of(settings)));
    out
}

/// The preview of all tables: each table id with its column previews.
pub fn preview_notes(tables: &[Table], settings: Option<&Vec<(String, bool)>>) -> (r: Vec<
    (String, Vec<(String, String)>),
>)
    ensures
        r@.len() == tables@.len(),
        forall|i: int|
            0 <= i < r@.len() ==> #[trigger] r@[i].0@ == tables@[i].id@ && pairs_view(r@[i].1@)
                == table_preview(tables@[i], tables@, settings_of(settings)),
{
    let mut out: Vec<(String, Vec<(String, String)>)> = Vec::new();
    let mut i: usize = 0;
    while i < tables.len()
        invariant
            i <= tables@.len(),
            out@.len() == i,
            forall|k: int|
                0 <= k < i ==> #[trigger] out@[k].0@ == tables@[k].id@ && pairs_view(out@[k].1@)
                    == table_preview(tables@[k], tables@, settings_of(settings)),
        decreases tables@.len() - i,
    {
        let cols = preview_table(&tables[i], tables, settings);
        out.push((tables[i].id.clone(), cols));
        i = i + 1;
    }
    out
}

/// Width of a column: its name's length in bytes, at least 12.
pub fn column_width(name: &str) -> (r: usize)
    ensures
        r == if name.len() > 12 {
            name.len()
        } else {
            12
        },
{
    let n = name.len();
    if n > 12 {
        n
    } else {
        12
    }
}

/// The display text of a sample value: nothing for null, `Yes` / `No` for a
/// boolean, the decimal text of a number, the text itself, list items joined
/// with `, `, and a placeholder for an object.
pub open spec fn sample_text(v: NoteVal) -> Seq<char>
    decreases v,
{
    match v {
        NoteVal::Null => Seq::empty(),
        NoteVal::Bool(b) => if b {
            "Yes"@
        } else {
            "No"@
        },
        NoteVal::Number(t) => t,
        NoteVal::Text(s) => s,
        NoteVal::List(items) => sample_items_text(items),
        NoteVal::Object(_) => "[Object]"@,
    }
}

/// List items' display texts joined with `, `.
pub open spec fn sample_items_text(s: Seq<NoteVal>) -> Seq<char>
    decreases s,
{
    if s.len() == 0 {
        Seq::empty()
    } else if s.len() == 1 {
        sample_text(s[0])
    } else {
        sample_items_text(s.drop_last()) + ", "@ + sample_text(s.last())
    }
}

/// The display text of a sample value (see `sample_text`).
pub fn json_value_to_string(v: &NoteValue) -> (r: String)
    ensures
        r@ == sample_text(v@),
    decreases v,
{
    match v {
        NoteValue::Null => String::new(),
        NoteValue::Bool(b) => if *b {
            String::from_str("Yes")
        } else {
            String::from_str("No")
        },
        NoteValue::Number(t) => t.clone(),
        NoteValue::Text(s) => s.clone(),
        NoteValue::List(items) => sample_items_string(items),
        NoteValue::Object(_) => String::from_str("[Object]"),
    }
}

/// List items' display texts joined with `, `.
fn sample_items_string(items: &Vec<NoteValue>) -> (r: String)
    ensures
        r@ == sample_items_text(list_view(items@)),
    decreases items,
{
    proof {
        lemma_list_view(items@);
    }
    let ghost lv = list_view(items@);
    let mut out = String::new();
    let mut i: usize = 0;
    while i < items.len()
        invariant
            i <= items@.len(),
            lv == list_view(items@),
            lv.len() == items@.len(),
            forall|j: int| 0 <= j < items@.len() ==> #[trigger] lv[j] == items@[j]@,
            out@ == sample_items_text(lv.take(i as int)),
        decreases items@.len() - i,
    {
        if i > 0 {
            out.append(", ");
        }
        let t = json_value_to_string(&items[i]);
        out.append(t.as_str());
        proof {
            assert(lv.take(i + 1).drop_last() =~= lv.take(i as int));
            assert(lv.take(i + 1).last() == lv[i as int]);
            if i == 0 {
                assert(lv.take(1)[0] == lv[0]);
                assert(out@ =~= sample_items_text(lv.take(1)));
            }
        }
        i = i + 1;
    }
    assert(lv.take(i as int) =~= lv);
    out
}

/// The sample cells of one row of `t`: for each column, in order, whose id has
/// a value in the row, (column index, display text).
pub open spec fn row_cells(t: Table, row: Seq<(Seq<char>, NoteVal)>, n: int) -> Seq<(int, Seq<char>)>
    decreases n,
{
    if n <= 0 {
        Seq::empty()
    } else {
        match get(row, t.columns@[n - 1].id@) {
            Some(v) => row_cells(t, row, n - 1).push((n - 1, sample_text(v))),
            None => row_cells(t, row, n - 1),
        }
    }
}

/// The sample cells of one row (see `row_cells`).
pub fn sample_row_cells(table: &Table, row: &SampleRow) -> (r: Vec<(usize, String)>)
    ensures
        cells_view(r@) == row_cells(*table, entries_view(row.values@), table.columns@.len() as int),
{
    let ghost rv = entries_view(row.values@);
    proof {
        lemma_entries_view(row.values@);
    }
    let mut out: Vec<(usize, String)> = Vec::new();
    let mut j: usize = 0;
    while j < table.columns.len()
        invariant
            j <= table.columns@.len(),
            rv == entries_view(row.values@),
            string_keys(row.values@) == crate::value::keys_of(rv),
            forall|k: int| 0 <= k < row.values@.len() ==> #[trigger] rv[k] == (row.values@[k].0@, row.values@[k].1@),
            rv.len() == row.values@.len(),
            cells_view(out@) == row_cells(*table, rv, j as int),
        decreases table.columns@.len() - j,
    {
        proof {
            lemma_key_pos(string_keys(row.values@), table.columns@[j as int].id@, row.values@.len() as int);
        }
        match key_index(&row.values, table.columns[j].id.as_str()) {
            Some(k) => {
                let text = json_value_to_string(&row.values[k].1);
                out.push((j, text));
                assert(cells_view(out@) =~= row_cells(*table, rv, j as int).push(
                    (j as int, sample_text(rv[k as int].1)),
                ));
            },
            None => {},
        }
        j = j + 1;
    }
    out
}


/// The sample rows of table `id`: those of the first entry for `id`, when
/// sample data is to be written.
pub open spec fn rows_for(r: ExportRequest, id: Seq<char>) -> Seq<SampleRow> {
    let p = first_pos(r.sample_data@, sample_id_is(id), r.sample_data@.len() as int);
    if r.include_data && p >= 0 {
        r.sample_data@[p].1@
    } else {
        Seq::empty()
    }
}

pub open spec fn sample_id_is(id: Seq<char>) -> spec_fn((String, Vec<SampleRow>)) -> bool {
    |e: (String, Vec<SampleRow>)| e.0@ == id
}

/// The data cells of the first `n` sample rows, as (sheet row, column index,
/// text); sample row `i` goes to sheet row `i + 1`, below the header.
pub open spec fn data_cells(t: Table, rows: Seq<SampleRow>, n: int) -> Seq<(int, int, Seq<char>)>
    decreases n,
{
    if n <= 0 {
        Seq::empty()
    } else {
        data_cells(t, rows, n - 1) + row_cells(t, entries_view(rows[n - 1].values@), t.columns@.len() as int).map_values(
            |c: (int, Seq<char>)| (n, c.0, c.1),
        )
    }
}

/// The model of a list of (row, column, text) cells.
pub open spec fn grid_view(s: Seq<(usize, usize, String)>) -> Seq<(int, int, Seq<char>)> {
    s.map_values(|e: (usize, usize, String)| (e.0 as int, e.1 as int, e.2@))
}

/// The first sample-data entry for table `id`.
fn find_sample_rows(data: &Vec<(String, Vec<SampleRow>)>, id: &str) -> (r: Option<usize>)
    ensures
        (match r {
            Some(i) => i as int,
            None => -1,
        }) == first_pos(data@, sample_id_is(id@), data@.len() as int),
{
    let mut i: usize = 0;
    while i < data.len()
        invariant
            i <= data@.len(),
            first_pos(data@, sample_id_is(id@), i as int) == -1,
        decreases data@.len() - i,
    {
        if text_eq(data[i].0.as_str(), id) {
            proof {
                assert(sample_id_is(id@)(data@[i as int]));
                lemma_first_pos_stable(data@, sample_id_is(id@), i + 1, data@.len() as int);
            }
            return Some(i);
        }
        i = i + 1;
    }
    None
}

/// The sample-data cells to write on the sheet of `table`.
pub fn sheet_data_cells(table: &Table, request: &ExportRequest) -> (r: Vec<(usize, usize, String)>)
    ensures
        grid_view(r@) == ({
            let rows = rows_for(*request, table.id@);
            data_cells(*table, rows, rows.len() as int)
        }),
{
    let mut out: Vec<(usize, usize, String)> = Vec::new();
    if !request.include_data {
        assert(grid_view(out@) =~= Seq::empty());
        return out;
    }
    let data = &request.sample_data;
    let p = match find_sample_rows(data, table.id.as_str()) {
        Some(p) => p,
        None => {
            assert(grid_view(out@) =~= Seq::empty());
            return out;
        },
    };
    proof {
        lemma_first_pos(data@, sample_id_is(table.id@), data@.len() as int);
    }
    let rows = &data[p].1;
    let mut i: usize = 0;
    while i < rows.len()
        invariant
            i <= rows@.len(),
            rows@ == rows_for(*request, table.id@),
            grid_view(out@) == data_cells(*table, rows@, i as int),
        decreases rows@.len() - i,
    {
        let cells = sample_row_cells(table, &rows[i]);
        let row_no = i + 1;
        let ghost before = grid_view(out@);
        let ghost added = cells_view(cells@).map_values(|c: (int, Seq<char>)| (row_no as int, c.0, c.1));
        let mut j: usize = 0;
        while j < cells.len()
            invariant
                j <= cells@.len(),
                row_no == i + 1,
                added == cells_view(cells@).map_values(|c: (int, Seq<char>)| (row_no as int, c.0, c.1)),
                grid_view(out@) == before + added.take(j as int),
            decreases cells@.len() - j,
        {
            let ghost prev = out@;
            let t = cells[j].1.clone();
            out.push((row_no, cells[j].0, t));
            assert(cells_view(cells@)[j as int] == (cells@[j as int].0 as int, cells@[j as int].1@));
            assert(added[j as int] == (row_no as int, cells@[j as int].0 as int, cells@[j as int].1@));
            assert(grid_view(out@) =~= grid_view(prev).push(added[j as int]));
            assert(added.take(j + 1) =~= added.take(j as int).push(added[j as int]));
            assert(grid_view(out@) =~= before + added.take(j + 1));
            j = j + 1;
        }
        assert(added.take(j as int) =~= added);
        i = i + 1;
    }
    out
}

} // verus!
