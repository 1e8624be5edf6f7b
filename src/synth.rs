//! Defaults derived from a column's own type, flags and constraints, and
//! from the table it references.
use vstd::prelude::*;
use crate::merge::{has_required_condition, requires_condition};
use crate::registry::{default_key, gate, legacy_default_key, may_emit, settings_view};
use crate::schema::{
    Column, ConstraintNumber, Table, first_pos, lemma_first_pos, lemma_first_pos_stable,
};
use crate::text::{push_char, text_eq};
use crate::value::{
    NoteVal, NoteValue, entries_view, has_key, key_index, lemma_entries_view, list_view, put,
    put_value,
};

verus! {

/// The model of the user's per-column overrides.
pub open spec fn user_model(c: Column) -> Option<Seq<(Seq<char>, NoteVal)>> {
    match c.app_sheet {
        Some(es) => Some(entries_view(es@)),
        None => None,
    }
}

/// The model of optional user settings.
pub open spec fn settings_of(st: Option<&Vec<(String, bool)>>) -> Option<Seq<(Seq<char>, bool)>> {
    match st {
        Some(s) => Some(settings_view(s@)),
        None => None,
    }
}

/// Whether the user's overrides hold an entry for `k`.
pub open spec fn user_has(u: Option<Seq<(Seq<char>, NoteVal)>>, k: Seq<char>) -> bool {
    match u {
        Some(s) => has_key(s, k),
        None => false,
    }
}

/// Whether the overrides `u` set a non-empty conditional requirement.
pub open spec fn has_condition(u: Option<Seq<(Seq<char>, NoteVal)>>) -> bool {
    u matches Some(s) && requires_condition(s)
}

/// Inserts `v` under `k` if `k` may be emitted, is not overridden, and `cond`.
pub open spec fn offer(
    d: Seq<(Seq<char>, NoteVal)>,
    u: Option<Seq<(Seq<char>, NoteVal)>>,
    st: Option<Seq<(Seq<char>, bool)>>,
    k: Seq<char>,
    cond: bool,
    v: NoteVal,
) -> Seq<(Seq<char>, NoteVal)> {
    if gate(k, st) && !user_has(u, k) && cond {
        put(d, k, v)
    } else {
        d
    }
}

pub open spec fn is_nonempty(o: Option<String>) -> bool {
    o is Some && o->0@.len() > 0
}

/// A regular expression source escaped for a string literal of the
/// platform's expression language: `\` and `"` get a backslash.
pub open spec fn pattern_escaped(p: Seq<char>) -> Seq<char>
    decreases p.len(),
{
    if p.len() == 0 {
        Seq::empty()
    } else {
        pattern_escaped(p.drop_last()) + if p.last() == '\\' {
            seq!['\\', '\\']
        } else if p.last() == '"' {
            seq!['\\', '"']
        } else {
            seq![p.last()]
        }
    }
}

/// The validation expression matching the current value against `p`.
pub open spec fn valid_if_expr(p: Seq<char>) -> Seq<char> {
    "MATCHES([_THIS], \""@ + pattern_escaped(p) + "\")"@
}

/// A numeric bound as a value; a non-finite bound becomes zero.
pub open spec fn number_val(n: ConstraintNumber) -> NoteVal {
    match n {
        ConstraintNumber::Finite(t) => NoteVal::Number(t@),
        ConstraintNumber::NotFinite => NoteVal::Number("0"@),
    }
}

/// The defaults derived from the column's own type, flags and constraints.
pub open spec fn synth_basic(
    c: Column,
    u: Option<Seq<(Seq<char>, NoteVal)>>,
    is_label: bool,
    st: Option<Seq<(Seq<char>, bool)>>,
) -> Seq<(Seq<char>, NoteVal)> {
    let k = c.constraints;
    let d1 = offer(Seq::empty(), u, st, "Type"@, true, NoteVal::Text(c.column_type@));
    let d2 = offer(d1, u, st, "IsKey"@, c.is_key, NoteVal::Bool(true));
    let d3 = offer(d2, u, st, "IsLabel"@, is_label, NoteVal::Bool(true));
    let d4 = offer(
        d3,
        u,
        st,
        "IsRequired"@,
        !has_condition(u) && k.required == Some(true),
        NoteVal::Bool(true),
    );
    let d5 = offer(
        d4,
        u,
        st,
        default_key(),
        !user_has(u, legacy_default_key()) && is_nonempty(k.default_value),
        NoteVal::Text(k.default_value->0@),
    );
    let d6 = offer(
        d5,
        u,
        st,
        "Description"@,
        is_nonempty(c.description),
        NoteVal::Text(c.description->0@),
    );
    let d7 = offer(
        d6,
        u,
        st,
        "Valid_If"@,
        is_nonempty(k.pattern),
        NoteVal::Text(valid_if_expr(k.pattern->0@)),
    );
    let d8 = offer(d7, u, st, "MinValue"@, k.min_value is Some, number_val(k.min_value->0));
    offer(d8, u, st, "MaxValue"@, k.max_value is Some, number_val(k.max_value->0))
}


/// Whether the type tag is one of the enumerated kinds.
pub open spec fn is_enum_type(t: Seq<char>) -> bool {
    t == "Enum"@ || t == "EnumList"@
}

/// The base-representation hint of an enumeration: long text when some value
/// has more than 20 characters.
pub open spec fn base_type_of(vs: Seq<String>) -> Seq<char> {
    if exists|i: int| 0 <= i < vs.len() && #[trigger] vs[i]@.len() > 20 {
        "LongText"@
    } else {
        "Text"@
    }
}

/// A list of text values.
pub open spec fn texts_val(vs: Seq<String>) -> NoteVal {
    NoteVal::List(vs.map_values(|s: String| NoteVal::Text(s@)))
}

/// The enumeration defaults: the listed values and the base-representation hint.
pub open spec fn synth_enum(
    d: Seq<(Seq<char>, NoteVal)>,
    c: Column,
    u: Option<Seq<(Seq<char>, NoteVal)>>,
    st: Option<Seq<(Seq<char>, bool)>>,
) -> Seq<(Seq<char>, NoteVal)> {
    let vs = c.constraints.enum_values;
    if is_enum_type(c.column_type@) && gate("EnumValues"@, st) && !user_has(u, "EnumValues"@)
        && vs is Some && vs->0@.len() > 0 {
        let d1 = put(d, "EnumValues"@, texts_val(vs->0@));
        offer(d1, u, st, "BaseType"@, true, NoteVal::Text(base_type_of(vs->0@)))
    } else {
        d
    }
}

pub open spec fn table_id_is(id: Seq<char>) -> spec_fn(Table) -> bool {
    |t: Table| t.id@ == id
}

pub open spec fn column_id_is(id: Seq<char>) -> spec_fn(Column) -> bool {
    |c: Column| c.id@ == id
}

pub open spec fn column_is_key() -> spec_fn(Column) -> bool {
    |c: Column| c.is_key
}

/// The referenced key column of table `t`: the column named by `cid` if it
/// exists, else the first key-flagged column, else the first column; -1 for a
/// table without columns.
pub open spec fn ref_column_pos(t: Table, cid: Option<String>) -> int {
    let cols = t.columns@;
    let by_id = match cid {
        Some(id) => first_pos(cols, column_id_is(id@), cols.len() as int),
        None => -1,
    };
    if by_id >= 0 {
        by_id
    } else if first_pos(cols, column_is_key(), cols.len() as int) >= 0 {
        first_pos(cols, column_is_key(), cols.len() as int)
    } else if cols.len() > 0 {
        0
    } else {
        -1
    }
}

/// The position of the referenced table among `tables`, or -1.
pub open spec fn ref_table_pos(c: Column, tables: Seq<Table>) -> int {
    match c.constraints.ref_table_id {
        Some(tid) => first_pos(tables, table_id_is(tid@), tables.len() as int),
        None => -1,
    }
}

/// The reference defaults: referenced table name, key column name and type.
pub open spec fn synth_ref(
    d: Seq<(Seq<char>, NoteVal)>,
    c: Column,
    u: Option<Seq<(Seq<char>, NoteVal)>>,
    tables: Seq<Table>,
    st: Option<Seq<(Seq<char>, bool)>>,
) -> Seq<(Seq<char>, NoteVal)> {
    let tp = ref_table_pos(c, tables);
    if c.column_type@ == "Ref"@ && tp >= 0 {
        let rt = tables[tp];
        let d1 = offer(d, u, st, "ReferencedTableName"@, true, NoteVal::Text(rt.name@));
        let rc = ref_column_pos(rt, c.constraints.ref_column_id);
        if rc >= 0 {
            let col = rt.columns@[rc];
            let d2 = offer(d1, u, st, "ReferencedKeyColumn"@, true, NoteVal::Text(col.name@));
            offer(d2, u, st, "ReferencedType"@, true, NoteVal::Text(col.column_type@))
        } else {
            d1
        }
    } else {
        d
    }
}

/// The model of borrowed overrides.
pub open spec fn overrides_of(u: Option<&Vec<(String, NoteValue)>>) -> Option<Seq<(Seq<char>, NoteVal)>> {
    match u {
        Some(v) => Some(entries_view(v@)),
        None => None,
    }
}

/// Whether the overrides hold an entry for `key`.
fn user_has_key(u: Option<&Vec<(String, NoteValue)>>, key: &str) -> (r: bool)
    ensures
        r == user_has(overrides_of(u), key@),
{
    match u {
        Some(v) => {
            proof {
                lemma_entries_view(v@);
            }
            key_index(v, key).is_some()
        },
        None => false,
    }
}

/// Whether a generated default for `key` may be added.
fn wants(
    u: Option<&Vec<(String, NoteValue)>>,
    st: Option<&Vec<(String, bool)>>,
    key: &str,
) -> (r: bool)
    ensures
        r == (gate(key@, settings_of(st)) && !user_has(overrides_of(u), key@)),
{
    may_emit(key, st) && !user_has_key(u, key)
}

/// The validation expression for a pattern.
pub fn valid_if_expression(p: &str) -> (r: String)
    ensures
        r@ == valid_if_expr(p@),
{
    let mut out = String::from_str("MATCHES([_THIS], \"");
    let ghost prefix = out@;
    let n = p.unicode_len();
    let mut i: usize = 0;
    while i < n
        invariant
            n == p@.len(),
            i <= n,
            prefix == "MATCHES([_THIS], \""@,
            out@ == prefix + pattern_escaped(p@.take(i as int)),
        decreases n - i,
    {
        let c = p.get_char(i);
        if c == '\\' {
            push_char(&mut out, '\\');
            push_char(&mut out, '\\');
        } else if c == '"' {
            push_char(&mut out, '\\');
            push_char(&mut out, '"');
        } else {
            push_char(&mut out, c);
        }
        proof {
            assert(p@.take(i + 1).drop_last() =~= p@.take(i as int));
            assert(p@.take(i + 1).last() == c);
        }
        i = i + 1;
        assert(out@ =~= prefix + pattern_escaped(p@.take(i as int)));
    }
    out.append("\")");
    assert(p@.take(n as int) =~= p@);
    out
}

/// A numeric bound as a value.
fn number_value(n: &ConstraintNumber) -> (r: NoteValue)
    ensures
        r@ == number_val(*n),
{
    match n {
        ConstraintNumber::Finite(t) => NoteValue::Number(t.clone()),
        ConstraintNumber::NotFinite => NoteValue::Number(String::from_str("0")),
    }
}

/// The defaults derived from the column's type, flags and constraints.
pub(crate) fn synthesize_basic(c: &Column, is_label: bool, st: Option<&Vec<(String, bool)>>) -> (d: Vec<
    (String, NoteValue),
>)
    ensures
        entries_view(d@) == synth_basic(*c, user_model(*c), is_label, settings_of(st)),
{
    let u = match &c.app_sheet {
        Some(v) => Some(v),
        None => None,
    };
    assert(overrides_of(u) == user_model(*c));
    let k = &c.constraints;
    let mut d: Vec<(String, NoteValue)> = Vec::new();
    assert(entries_view(d@) =~= Seq::empty());
    if wants(u, st, "Type") {
        put_value(&mut d, String::from_str("Type"), NoteValue::Text(c.column_type.clone()));
    }
    if wants(u, st, "IsKey") && c.is_key {
        put_value(&mut d, String::from_str("IsKey"), NoteValue::Bool(true));
    }
    if wants(u, st, "IsLabel") && is_label {
        put_value(&mut d, String::from_str("IsLabel"), NoteValue::Bool(true));
    }
    let conditional = match u {
        Some(v) => has_required_condition(v),
        None => false,
    };
    if wants(u, st, "IsRequired") && !conditional && k.required == Some(true) {
        put_value(&mut d, String::from_str("IsRequired"), NoteValue::Bool(true));
    }
    if wants(u, st, "Default") && !user_has_key(u, "DEFAULT") {
        match &k.default_value {
            Some(v) => {
                if v.unicode_len() > 0 {
                    put_value(&mut d, String::from_str("Default"), NoteValue::Text(v.clone()));
                }
            },
            None => {},
        }
    }
    if wants(u, st, "Description") {
        match &c.description {
            Some(v) => {
                if v.unicode_len() > 0 {
                    put_value(&mut d, String::from_str("Description"), NoteValue::Text(v.clone()));
                }
            },
            None => {},
        }
    }
    if wants(u, st, "Valid_If") {
        match &k.pattern {
            Some(v) => {
                if v.unicode_len() > 0 {
                    put_value(
                        &mut d,
                        String::from_str("Valid_If"),
                        NoteValue::Text(valid_if_expression(v.as_str())),
                    );
                }
            },
            None => {},
        }
    }
    if wants(u, st, "MinValue") {
        match &k.min_value {
            Some(n) => put_value(&mut d, String::from_str("MinValue"), number_value(n)),
            None => {},
        }
    }
    if wants(u, st, "MaxValue") {
        match &k.max_value {
            Some(n) => put_value(&mut d, String::from_str("MaxValue"), number_value(n)),
            None => {},
        }
    }
    d
}


/// The enumeration defaults.
pub(crate) fn synthesize_enum(d: &mut Vec<(String, NoteValue)>, c: &Column, st: Option<&Vec<(String, bool)>>)
    ensures
        entries_view(final(d)@) == synth_enum(entries_view(old(d)@), *c, user_model(*c), settings_of(st)),
{
    let u = match &c.app_sheet {
        Some(v) => Some(v),
        None => None,
    };
    assert(overrides_of(u) == user_model(*c));
    if !(text_eq(c.column_type.as_str(), "Enum") || text_eq(c.column_type.as_str(), "EnumList")) {
        return;
    }
    if !wants(u, st, "EnumValues") {
        return;
    }
    let vs = match &c.constraints.enum_values {
        Some(vs) => vs,
        None => {
            return;
        },
    };
    if vs.len() == 0 {
        return;
    }
    let mut items: Vec<NoteValue> = Vec::new();
    let mut long = false;
    let mut i: usize = 0;
    while i < vs.len()
        invariant
            i <= vs@.len(),
            list_view(items@) == vs@.take(i as int).map_values(|s: String| NoteVal::Text(s@)),
            long == exists|j: int| 0 <= j < i && #[trigger] vs@[j]@.len() > 20,
        decreases vs@.len() - i,
    {
        if vs[i].unicode_len() > 20 {
            long = true;
        }
        let ghost before = items@;
        items.push(NoteValue::Text(vs[i].clone()));
        proof {
            assert(items@.drop_last() =~= before);
            assert(list_view(items@) == list_view(before).push(items@.last()@));
            assert(vs@.take(i + 1).map_values(|s: String| NoteVal::Text(s@)) =~= vs@.take(
                i as int,
            ).map_values(|s: String| NoteVal::Text(s@)).push(NoteVal::Text(vs@[i as int]@)));
        }
        i = i + 1;
    }
    assert(vs@.take(i as int) =~= vs@);
    put_value(d, String::from_str("EnumValues"), NoteValue::List(items));
    if wants(u, st, "BaseType") {
        let base = if long {
            String::from_str("LongText")
        } else {
            String::from_str("Text")
        };
        put_value(d, String::from_str("BaseType"), NoteValue::Text(base));
    }
}

/// The first table whose id is `id`.
fn find_table<'a>(tables: &'a [Table], id: &str) -> (r: Option<usize>)
    ensures
        (match r {
            Some(i) => i as int,
            None => -1,
        }) == first_pos(tables@, table_id_is(id@), tables@.len() as int),
{
    let mut i: usize = 0;
    while i < tables.len()
        invariant
            i <= tables@.len(),
            first_pos(tables@, table_id_is(id@), i as int) == -1,
        decreases tables@.len() - i,
    {
        if text_eq(tables[i].id.as_str(), id) {
            proof {
                assert(table_id_is(id@)(tables@[i as int]));
                lemma_first_pos_stable(tables@, table_id_is(id@), i + 1, tables@.len() as int);
            }
            return Some(i);
        }
        i = i + 1;
    }
    None
}

/// The first column whose id is `id`.
fn find_column_by_id(cols: &Vec<Column>, id: &str) -> (r: Option<usize>)
    ensures
        (match r {
            Some(i) => i as int,
            None => -1,
        }) == first_pos(cols@, column_id_is(id@), cols@.len() as int),
{
    let mut i: usize = 0;
    while i < cols.len()
        invariant
            i <= cols@.len(),
            first_pos(cols@, column_id_is(id@), i as int) == -1,
        decreases cols@.len() - i,
    {
        if text_eq(cols[i].id.as_str(), id) {
            proof {
                assert(column_id_is(id@)(cols@[i as int]));
                lemma_first_pos_stable(cols@, column_id_is(id@), i + 1, cols@.len() as int);
            }
            return Some(i);
        }
        i = i + 1;
    }
    None
}

/// The first key-flagged column.
fn find_key_column(cols: &Vec<Column>) -> (r: Option<usize>)
    ensures
        (match r {
            Some(i) => i as int,
            None => -1,
        }) == first_pos(cols@, column_is_key(), cols@.len() as int),
{
    let mut i: usize = 0;
    while i < cols.len()
        invariant
            i <= cols@.len(),
            first_pos(cols@, column_is_key(), i as int) == -1,
        decreases cols@.len() - i,
    {
        if cols[i].is_key {
            proof {
                assert(column_is_key()(cols@[i as int]));
                lemma_first_pos_stable(cols@, column_is_key(), i + 1, cols@.len() as int);
            }
            return Some(i);
        }
        i = i + 1;
    }
    None
}

/// The referenced key column of a table (see `ref_column_pos`).
pub fn resolve_ref_column(t: &Table, cid: Option<&String>) -> (r: Option<usize>)
    ensures
        (match r {
            Some(i) => i as int,
            None => -1,
        }) == ref_column_pos(*t, match cid {
            Some(s) => Some(*s),
            None => None,
        }),
{
    let by_id = match cid {
        Some(id) => find_column_by_id(&t.columns, id.as_str()),
        None => None,
    };
    match by_id {
        Some(i) => Some(i),
        None => match find_key_column(&t.columns) {
            Some(i) => Some(i),
            None => if t.columns.len() > 0 {
                Some(0)
            } else {
                None
            },
        },
    }
}

/// The reference defaults.
pub(crate) fn synthesize_ref(
    d: &mut Vec<(String, NoteValue)>,
    c: &Column,
    tables: &[Table],
    st: Option<&Vec<(String, bool)>>,
)
    ensures
        entries_view(final(d)@) == synth_ref(
            entries_view(old(d)@),
            *c,
            user_model(*c),
            tables@,
            settings_of(st),
        ),
{
    let u = match &c.app_sheet {
        Some(v) => Some(v),
        None => None,
    };
    assert(overrides_of(u) == user_model(*c));
    if !text_eq(c.column_type.as_str(), "Ref") {
        return;
    }
    let tp = match &c.constraints.ref_table_id {
        Some(tid) => find_table(tables, tid.as_str()),
        None => None,
    };
    let tp = match tp {
        Some(tp) => tp,
        None => {
            return;
        },
    };
    proof {
        lemma_first_pos(tables@, table_id_is(c.constraints.ref_table_id->0@), tables@.len() as int);
    }
    let rt = &tables[tp];
    if wants(u, st, "ReferencedTableName") {
        put_value(d, String::from_str("ReferencedTableName"), NoteValue::Text(rt.name.clone()));
    }
    let cid = match &c.constraints.ref_column_id {
        Some(s) => Some(s),
        None => None,
    };
    match resolve_ref_column(rt, cid) {
        Some(rc) => {
            proof {
                let cols = rt.columns@;
                lemma_first_pos(cols, column_is_key(), cols.len() as int);
                if c.constraints.ref_column_id is Some {
                    lemma_first_pos(
                        cols,
                        column_id_is(c.constraints.ref_column_id->0@),
                        cols.len() as int,
                    );
                }
            }
            let col = &rt.columns[rc];
            if wants(u, st, "ReferencedKeyColumn") {
                put_value(d, String::from_str("ReferencedKeyColumn"), NoteValue::Text(col.name.clone()));
            }
            if wants(u, st, "ReferencedType") {
                put_value(
                    d,
                    String::from_str("ReferencedType"),
                    NoteValue::Text(col.column_type.clone()),
                );
            }
        },
        None => {},
    }
}


} // verus!
