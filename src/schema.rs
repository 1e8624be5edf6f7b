//! The exported schema: tables, columns and their constraints, and the
//! table-scoped choice of the single effective label column.
use vstd::prelude::*;
use crate::value::NoteValue;

verus! {

/// A numeric constraint bound as received: its decimal text, or a marker for
/// a value that is not a finite number.
#[derive(Debug)]
pub enum ConstraintNumber {
    Finite(String),
    NotFinite,
}

/// Constraints declared on a column.
#[derive(Debug)]
pub struct ColumnConstraints {
    pub required: Option<bool>,
    pub unique: Option<bool>,
    pub default_value: Option<String>,
    pub min_value: Option<ConstraintNumber>,
    pub max_value: Option<ConstraintNumber>,
    pub min_length: Option<u32>,
    pub max_length: Option<u32>,
    pub pattern: Option<String>,
    pub enum_values: Option<Vec<String>>,
    pub ref_table_id: Option<String>,
    pub ref_column_id: Option<String>,
}

/// A column of a table, with the user's per-column annotation overrides.
#[derive(Debug)]
pub struct Column {
    pub id: String,
    pub name: String,
    pub column_type: String,
    pub is_key: bool,
    pub is_label: bool,
    pub description: Option<String>,
    pub app_sheet: Option<Vec<(String, NoteValue)>>,
    pub constraints: ColumnConstraints,
    pub order: u32,
}

/// A table and its ordered columns.
#[derive(Debug)]
pub struct Table {
    pub id: String,
    pub name: String,
    pub columns: Vec<Column>,
}

/// Index of the first element among the first `n` that satisfies `p`, or -1.
pub open spec fn first_pos<T>(s: Seq<T>, p: spec_fn(T) -> bool, n: int) -> int
    decreases n,
{
    if n <= 0 {
        -1
    } else {
        let q = first_pos(s, p, n - 1);
        if q >= 0 {
            q
        } else if p(s[n - 1]) {
            n - 1
        } else {
            -1
        }
    }
}

pub proof fn lemma_first_pos<T>(s: Seq<T>, p: spec_fn(T) -> bool, n: int)
    requires
        0 <= n <= s.len(),
    ensures
        -1 <= first_pos(s, p, n) < n,
        first_pos(s, p, n) >= 0 ==> p(s[first_pos(s, p, n)]),
        forall|j: int| 0 <= j < n && p(s[j]) ==> first_pos(s, p, n) >= 0 && first_pos(s, p, n) <= j,
    decreases n,
{
    if n > 0 {
        lemma_first_pos(s, p, n - 1);
    }
}

pub proof fn lemma_first_pos_stable<T>(s: Seq<T>, p: spec_fn(T) -> bool, n: int, m: int)
    requires
        0 <= n <= m,
        first_pos(s, p, n) >= 0,
    ensures
        first_pos(s, p, m) == first_pos(s, p, n),
    decreases m - n,
{
    if m > n {
        lemma_first_pos_stable(s, p, n, m - 1);
    }
}

/// Among the first `n` columns, the index of the label-flagged column with the
/// lowest `order`, the earliest on ties; -1 when none is flagged.
pub open spec fn label_pos(cols: Seq<Column>, n: int) -> int
    decreases n,
{
    if n <= 0 {
        -1
    } else {
        let p = label_pos(cols, n - 1);
        if cols[n - 1].is_label && (p < 0 || cols[n - 1].order < cols[p].order) {
            n - 1
        } else {
            p
        }
    }
}

/// The index of the table's effective label column, or -1.
pub open spec fn effective_label_pos(t: Table) -> int {
    label_pos(t.columns@, t.columns@.len() as int)
}

/// The derived label flag of column `j`: its id is the effective label's id.
pub open spec fn derived_is_label(t: Table, j: int) -> bool {
    effective_label_pos(t) >= 0 && t.columns@[j].id@ == t.columns@[effective_label_pos(t)].id@
}

pub proof fn lemma_label_pos(cols: Seq<Column>, n: int)
    requires
        0 <= n <= cols.len(),
    ensures
        -1 <= label_pos(cols, n) < n,
        label_pos(cols, n) == -1 <==> forall|j: int| 0 <= j < n ==> !cols[j].is_label,
        label_pos(cols, n) >= 0 ==> {
            let p = label_pos(cols, n);
            &&& cols[p].is_label
            &&& forall|j: int| 0 <= j < n && cols[j].is_label ==> cols[p].order <= cols[j].order
            &&& forall|j: int| 0 <= j < p && cols[j].is_label ==> cols[p].order < cols[j].order
        },
    decreases n,
{
    if n > 0 {
        lemma_label_pos(cols, n - 1);
    }
}

/// Index of the effective label column: the label-flagged column with the
/// lowest `order`, the first of them on ties.
pub fn effective_label_index(table: &Table) -> (r: Option<usize>)
    ensures
        (match r {
            Some(i) => i as int,
            None => -1,
        }) == effective_label_pos(*table),
{
    let cols = &table.columns;
    let mut best: Option<usize> = None;
    let mut i: usize = 0;
    while i < cols.len()
        invariant
            i <= cols@.len(),
            cols == &table.columns,
            (match best {
                Some(b) => b as int,
                None => -1,
            }) == label_pos(cols@, i as int),
        decreases cols@.len() - i,
    {
        proof {
            lemma_label_pos(cols@, i as int);
        }
        if cols[i].is_label {
            match best {
                None => {
                    best = Some(i);
                },
                Some(b) => {
                    if cols[i].order < cols[b].order {
                        best = Some(i);
                    }
                },
            }
        }
        i = i + 1;
    }
    best
}

/// The id of the table's effective label column, if any column is flagged.
pub fn pick_effective_label_column_id(table: &Table) -> (r: Option<&String>)
    ensures
        effective_label_pos(*table) == -1 ==> r is None,
        effective_label_pos(*table) >= 0 ==> r is Some && r->0@ == table.columns@[effective_label_pos(*table)].id@,
{
    proof {
        lemma_label_pos(table.columns@, table.columns@.len() as int);
    }
    match effective_label_index(table) {
        Some(i) => Some(&table.columns[i].id),
        None => None,
    }
}

} // verus!
