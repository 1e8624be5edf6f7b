//! Properties of the annotation engine that hold for all inputs.
use vstd::prelude::*;
use crate::json::{encoded_object_text, json_quoted};
use crate::merge::{
    canonical_key, formula_text, is_formula_key, merge_prefix, merged, requires_condition,
};
use crate::note::{generated_with, note_text, note_text_with, raw_key, raw_override_of};
use crate::registry::{NoteParamStatus, default_key, gate, legacy_default_key, status_of};
use crate::relocate::{
    add_formula, aux_base, aux_key, carries_any_formula, carries_formula, relocated, relocation_aux,
};
use crate::schema::{Column, Table, derived_is_label, effective_label_pos, lemma_label_pos};
use crate::synth::{
    base_type_of, has_condition, is_enum_type, is_nonempty, number_val, offer, ref_column_pos,
    ref_table_pos, synth_basic, synth_enum, synth_ref, texts_val, user_has, valid_if_expr,
};
use crate::text::trimmed;
use crate::value::{
    NoteVal, get, has_key, index_of, keys_of, keys_unique, lemma_index_of, lemma_key_pos_same,
    lemma_put, lemma_unique_index, lemma_without, put, without,
};

verus! {

/// Determinism: two annotations computed from the same column, label flag,
/// tables and settings are the same text.
pub proof fn law_deterministic(
    c: Column,
    is_label: bool,
    tables: Seq<Table>,
    st: Option<Seq<(Seq<char>, bool)>>,
    r1: Seq<char>,
    r2: Seq<char>,
)
    requires
        r1 == note_text(c, is_label, tables, st),
        r2 == note_text(c, is_label, tables, st),
    ensures
        r1 == r2,
{
}

/// Label uniqueness: when some column of a table is flagged as label and the
/// column ids are distinct, exactly one column has a true derived label flag,
/// and it has the minimum `order` among the flagged columns.
pub proof fn law_single_effective_label(t: Table)
    requires
        exists|j: int| 0 <= j < t.columns@.len() && t.columns@[j].is_label,
        forall|i: int, j: int|
            0 <= i < j < t.columns@.len() ==> t.columns@[i].id@ != t.columns@[j].id@,
    ensures
        ({
            let p = effective_label_pos(t);
            &&& 0 <= p < t.columns@.len()
            &&& t.columns@[p].is_label
            &&& forall|j: int|
                0 <= j < t.columns@.len() ==> (derived_is_label(t, j) <==> j == p)
            &&& forall|j: int|
                0 <= j < t.columns@.len() && t.columns@[j].is_label ==> t.columns@[p].order
                    <= t.columns@[j].order
        }),
{
    lemma_label_pos(t.columns@, t.columns@.len() as int);
}

/// Raw override precedence: when the raw override is present with non-empty
/// trimmed text, that text is the whole annotation, whatever else is set.
pub proof fn law_raw_override_wins(
    c: Column,
    u: Option<Seq<(Seq<char>, NoteVal)>>,
    is_label: bool,
    tables: Seq<Table>,
    st: Option<Seq<(Seq<char>, bool)>>,
)
    requires
        raw_override_of(u) is Some,
        trimmed(raw_override_of(u)->0).len() > 0,
    ensures
        note_text_with(c, u, is_label, tables, st) == trimmed(raw_override_of(u)->0),
{
}


/// Keys the synthesizer may add.
pub open spec fn is_synth_key(k: Seq<char>) -> bool {
    k == "Type"@ || k == "IsKey"@ || k == "IsLabel"@ || k == "IsRequired"@ || k == default_key()
        || k == "Description"@ || k == "Valid_If"@ || k == "MinValue"@ || k == "MaxValue"@ || k
        == "EnumValues"@ || k == "BaseType"@ || k == "ReferencedTableName"@ || k
        == "ReferencedKeyColumn"@ || k == "ReferencedType"@
}

/// Lengths and first characters of the key literals the engine uses, which
/// tell them apart.
proof fn lemma_key_literals()
    ensures
        "Type"@.len() == 4,
        "Type"@[0] == 'T',
        "IsKey"@.len() == 5,
        "IsKey"@[0] == 'I',
        "IsLabel"@.len() == 7,
        "IsLabel"@[0] == 'I',
        "IsRequired"@.len() == 10,
        "IsRequired"@[0] == 'I',
        "Default"@.len() == 7,
        "Default"@[0] == 'D',
        "Description"@.len() == 11,
        "Description"@[0] == 'D',
        "Valid_If"@.len() == 8,
        "Valid_If"@[0] == 'V',
        "MinValue"@.len() == 8,
        "MinValue"@[0] == 'M',
        "MaxValue"@.len() == 8,
        "MaxValue"@[0] == 'M',
        "EnumValues"@.len() == 10,
        "EnumValues"@[0] == 'E',
        "BaseType"@.len() == 8,
        "BaseType"@[0] == 'B',
        "ReferencedTableName"@.len() == 19,
        "ReferencedTableName"@[0] == 'R',
        "ReferencedKeyColumn"@.len() == 19,
        "ReferencedKeyColumn"@[0] == 'R',
        "ReferencedType"@.len() == 14,
        "ReferencedType"@[0] == 'R',
        "Show_If"@.len() == 7,
        "Show_If"@[0] == 'S',
        "Required_If"@.len() == 11,
        "Required_If"@[0] == 'R',
        "Editable_If"@.len() == 11,
        "Editable_If"@[0] == 'E',
        "Reset_If"@.len() == 8,
        "Reset_If"@[0] == 'R',
        "TypeAuxData"@.len() == 11,
        "TypeAuxData"@[0] == 'T',
        "DEFAULT"@.len() == 7,
        "DEFAULT"@[0] == 'D',
        "RawNoteParameters"@.len() == 17,
        "RawNoteParameters"@[0] == 'R',
        "Default"@[1] == 'e',
        "DEFAULT"@[1] == 'E',
        "MinValue"@[1] == 'i',
        "MaxValue"@[1] == 'a',
        "ReferencedTableName"@[10] == 'T',
        "ReferencedKeyColumn"@[10] == 'K',
{
    reveal_strlit("Type");
    reveal_strlit("IsKey");
    reveal_strlit("IsLabel");
    reveal_strlit("IsRequired");
    reveal_strlit("Default");
    reveal_strlit("Description");
    reveal_strlit("Valid_If");
    reveal_strlit("MinValue");
    reveal_strlit("MaxValue");
    reveal_strlit("EnumValues");
    reveal_strlit("BaseType");
    reveal_strlit("ReferencedTableName");
    reveal_strlit("ReferencedKeyColumn");
    reveal_strlit("ReferencedType");
    reveal_strlit("Show_If");
    reveal_strlit("Required_If");
    reveal_strlit("Editable_If");
    reveal_strlit("Reset_If");
    reveal_strlit("TypeAuxData");
    reveal_strlit("DEFAULT");
    reveal_strlit("RawNoteParameters");
}

/// What holds of the synthesized defaults at every step.
pub open spec fn synth_inv(
    d: Seq<(Seq<char>, NoteVal)>,
    u: Option<Seq<(Seq<char>, NoteVal)>>,
    st: Option<Seq<(Seq<char>, bool)>>,
) -> bool {
    &&& keys_unique(d)
    &&& forall|k: Seq<char>| #[trigger] has_key(d, k) ==> is_synth_key(k) && gate(k, st)
    &&& (has_condition(u) ==> !has_key(d, "IsRequired"@))
}

proof fn lemma_offer(
    d: Seq<(Seq<char>, NoteVal)>,
    u: Option<Seq<(Seq<char>, NoteVal)>>,
    st: Option<Seq<(Seq<char>, bool)>>,
    k: Seq<char>,
    cond: bool,
    v: NoteVal,
)
    requires
        synth_inv(d, u, st),
        is_synth_key(k),
        k == "IsRequired"@ && cond ==> !has_condition(u),
    ensures
        synth_inv(offer(d, u, st, k, cond, v), u, st),
{
    lemma_put(d, k, v);
}

/// The synthesized defaults before the overrides are merged.
pub open spec fn synthesized(
    c: Column,
    u: Option<Seq<(Seq<char>, NoteVal)>>,
    is_label: bool,
    tables: Seq<Table>,
    st: Option<Seq<(Seq<char>, bool)>>,
) -> Seq<(Seq<char>, NoteVal)> {
    synth_ref(synth_enum(synth_basic(c, u, is_label, st), c, u, st), c, u, tables, st)
}

proof fn lemma_synth(
    c: Column,
    u: Option<Seq<(Seq<char>, NoteVal)>>,
    is_label: bool,
    tables: Seq<Table>,
    st: Option<Seq<(Seq<char>, bool)>>,
)
    ensures
        synth_inv(synthesized(c, u, is_label, tables, st), u, st),
{
    lemma_key_literals();
    let k = c.constraints;
    let d0 = Seq::<(Seq<char>, NoteVal)>::empty();
    assert forall|key: Seq<char>| #[trigger] has_key(d0, key) implies false by {
        lemma_index_of(d0, key);
    }
    let d1 = offer(d0, u, st, "Type"@, true, NoteVal::Text(c.column_type@));
    lemma_offer(d0, u, st, "Type"@, true, NoteVal::Text(c.column_type@));
    let d2 = offer(d1, u, st, "IsKey"@, c.is_key, NoteVal::Bool(true));
    lemma_offer(d1, u, st, "IsKey"@, c.is_key, NoteVal::Bool(true));
    let d3 = offer(d2, u, st, "IsLabel"@, is_label, NoteVal::Bool(true));
    lemma_offer(d2, u, st, "IsLabel"@, is_label, NoteVal::Bool(true));
    let c4 = !has_condition(u) && k.required == Some(true);
    let d4 = offer(d3, u, st, "IsRequired"@, c4, NoteVal::Bool(true));
    lemma_offer(d3, u, st, "IsRequired"@, c4, NoteVal::Bool(true));
    let c5 = !user_has(u, legacy_default_key()) && is_nonempty(k.default_value);
    let v5 = NoteVal::Text(k.default_value->0@);
    let d5 = offer(d4, u, st, default_key(), c5, v5);
    lemma_offer(d4, u, st, default_key(), c5, v5);
    let v6 = NoteVal::Text(c.description->0@);
    let d6 = offer(d5, u, st, "Description"@, is_nonempty(c.description), v6);
    lemma_offer(d5, u, st, "Description"@, is_nonempty(c.description), v6);
    let v7 = NoteVal::Text(valid_if_expr(k.pattern->0@));
    let d7 = offer(d6, u, st, "Valid_If"@, is_nonempty(k.pattern), v7);
    lemma_offer(d6, u, st, "Valid_If"@, is_nonempty(k.pattern), v7);
    let d8 = offer(d7, u, st, "MinValue"@, k.min_value is Some, number_val(k.min_value->0));
    lemma_offer(d7, u, st, "MinValue"@, k.min_value is Some, number_val(k.min_value->0));
    let d9 = offer(d8, u, st, "MaxValue"@, k.max_value is Some, number_val(k.max_value->0));
    lemma_offer(d8, u, st, "MaxValue"@, k.max_value is Some, number_val(k.max_value->0));
    assert(d9 == synth_basic(c, u, is_label, st));
    let vs = k.enum_values;
    let e = synth_enum(d9, c, u, st);
    if is_enum_type(c.column_type@) && gate("EnumValues"@, st) && !user_has(u, "EnumValues"@)
        && vs is Some && vs->0@.len() > 0 {
        let e1 = put(d9, "EnumValues"@, texts_val(vs->0@));
        lemma_put(d9, "EnumValues"@, texts_val(vs->0@));
        lemma_offer(e1, u, st, "BaseType"@, true, NoteVal::Text(base_type_of(vs->0@)));
    }
    let tp = ref_table_pos(c, tables);
    if c.column_type@ == "Ref"@ && tp >= 0 {
        let rt = tables[tp];
        let r1 = offer(e, u, st, "ReferencedTableName"@, true, NoteVal::Text(rt.name@));
        lemma_offer(e, u, st, "ReferencedTableName"@, true, NoteVal::Text(rt.name@));
        let rc = ref_column_pos(rt, c.constraints.ref_column_id);
        if rc >= 0 {
            let col = rt.columns@[rc];
            let r2 = offer(r1, u, st, "ReferencedKeyColumn"@, true, NoteVal::Text(col.name@));
            lemma_offer(r1, u, st, "ReferencedKeyColumn"@, true, NoteVal::Text(col.name@));
            lemma_offer(r2, u, st, "ReferencedType"@, true, NoteVal::Text(col.column_type@));
        }
    }
}

/// What merging preserves.
proof fn lemma_merge(
    d: Seq<(Seq<char>, NoteVal)>,
    u: Seq<(Seq<char>, NoteVal)>,
    st: Option<Seq<(Seq<char>, bool)>>,
    n: int,
)
    requires
        keys_unique(d),
        keys_unique(u),
        0 <= n <= u.len(),
    ensures
        keys_unique(merge_prefix(d, u, st, n)),
        requires_condition(u) && !has_key(d, "IsRequired"@) ==> !has_key(
            merge_prefix(d, u, st, n),
            "IsRequired"@,
        ),
        get(d, "Required_If"@) is None ==> (get(merge_prefix(d, u, st, n), "Required_If"@) is None
            || get(merge_prefix(d, u, st, n), "Required_If"@) == get(u, "Required_If"@)),
        !has_key(d, legacy_default_key()) ==> !has_key(
            merge_prefix(d, u, st, n),
            legacy_default_key(),
        ),
    decreases n,
{
    if n > 0 {
        lemma_merge(d, u, st, n - 1);
        lemma_key_literals();
        let p = merge_prefix(d, u, st, n - 1);
        let e = u[n - 1];
        let k = canonical_key(e.0);
        lemma_put(p, k, e.1);
        lemma_without(p, k);
        if k == "Required_If"@ {
            lemma_unique_index(u, "Required_If"@, n - 1);
        }
    }
}

/// Relocation of formula keys: in a structure with unique keys, none of the
/// four formula keys stays at the top level; when any carries an expression,
/// the auxiliary-data key holds the encoded object in which each carried
/// formula has its expression, the other members being the pre-existing
/// auxiliary data; every other key keeps its value.
pub proof fn law_formula_relocation(d: Seq<(Seq<char>, NoteVal)>)
    requires
        keys_unique(d),
    ensures
        forall|f: Seq<char>| is_formula_key(f) ==> !#[trigger] has_key(relocated(d), f),
        carries_any_formula(d) ==> get(relocated(d), aux_key()) == Some(
            NoteVal::Text(encoded_object_text(relocation_aux(d))),
        ),
        forall|f: Seq<char>|
            is_formula_key(f) && #[trigger] carries_formula(d, f) ==> get(relocation_aux(d), f) == Some(
                json_quoted(formula_text(get(d, f)->0)->0),
            ),
        forall|f: Seq<char>|
            is_formula_key(f) && !#[trigger] carries_formula(d, f) ==> get(relocation_aux(d), f)
                == get(aux_base(get(d, aux_key())), f),
        forall|k: Seq<char>|
            !is_formula_key(k) && k != aux_key() ==> #[trigger] get(relocated(d), k) == get(d, k),
{
    lemma_key_literals();
    let f1 = "Show_If"@;
    let f2 = "Required_If"@;
    let f3 = "Editable_If"@;
    let f4 = "Reset_If"@;
    let a0 = aux_base(get(d, aux_key()));
    let a1 = add_formula(a0, d, f1);
    let a2 = add_formula(a1, d, f2);
    let a3 = add_formula(a2, d, f3);
    let a4 = add_formula(a3, d, f4);
    assert(a4 == relocation_aux(d));
    if get(d, f1) is Some && formula_text(get(d, f1)->0) is Some {
        lemma_put(a0, f1, json_quoted(formula_text(get(d, f1)->0)->0));
    }
    if get(d, f2) is Some && formula_text(get(d, f2)->0) is Some {
        lemma_put(a1, f2, json_quoted(formula_text(get(d, f2)->0)->0));
    }
    if get(d, f3) is Some && formula_text(get(d, f3)->0) is Some {
        lemma_put(a2, f3, json_quoted(formula_text(get(d, f3)->0)->0));
    }
    if get(d, f4) is Some && formula_text(get(d, f4)->0) is Some {
        lemma_put(a3, f4, json_quoted(formula_text(get(d, f4)->0)->0));
    }
    if has_key(d, f1) || has_key(d, f2) || has_key(d, f3) || has_key(d, f4) {
        let w1 = without(d, f1);
        lemma_without(d, f1);
        let w2 = without(w1, f2);
        lemma_without(w1, f2);
        let w3 = without(w2, f3);
        lemma_without(w2, f3);
        let w4 = without(w3, f4);
        lemma_without(w3, f4);
        lemma_put(w4, aux_key(), NoteVal::Text(encoded_object_text(a4)));
    }
}


/// Merging keeps the keys unique.
proof fn lemma_merged_unique(
    c: Column,
    u: Option<Seq<(Seq<char>, NoteVal)>>,
    is_label: bool,
    tables: Seq<Table>,
    st: Option<Seq<(Seq<char>, bool)>>,
)
    requires
        u matches Some(s) ==> keys_unique(s),
    ensures
        keys_unique(merged(synthesized(c, u, is_label, tables, st), u, st)),
{
    lemma_synth(c, u, is_label, tables, st);
    if let Some(s) = u {
        lemma_merge(synthesized(c, u, is_label, tables, st), s, st, s.len() as int);
    }
}

/// No formula key appears at the top level of a generated annotation.
pub proof fn law_no_top_level_formula(
    c: Column,
    u: Option<Seq<(Seq<char>, NoteVal)>>,
    is_label: bool,
    tables: Seq<Table>,
    st: Option<Seq<(Seq<char>, bool)>>,
)
    requires
        u matches Some(s) ==> keys_unique(s),
    ensures
        forall|f: Seq<char>|
            is_formula_key(f) ==> !#[trigger] has_key(generated_with(c, u, is_label, tables, st), f),
{
    lemma_merged_unique(c, u, is_label, tables, st);
    law_formula_relocation(merged(synthesized(c, u, is_label, tables, st), u, st));
}

/// Required suppression: when the merged structure holds a non-empty
/// conditional-requirement expression, the plain required key is absent from
/// it and from the generated annotation, even when the user set it.
pub proof fn law_required_suppressed(
    c: Column,
    u: Option<Seq<(Seq<char>, NoteVal)>>,
    is_label: bool,
    tables: Seq<Table>,
    st: Option<Seq<(Seq<char>, bool)>>,
)
    requires
        u matches Some(s) ==> keys_unique(s),
    ensures
        carries_formula(merged(synthesized(c, u, is_label, tables, st), u, st), "Required_If"@) ==> {
            &&& !has_key(merged(synthesized(c, u, is_label, tables, st), u, st), "IsRequired"@)
            &&& !has_key(generated_with(c, u, is_label, tables, st), "IsRequired"@)
        },
{
    lemma_key_literals();
    let d = synthesized(c, u, is_label, tables, st);
    let m = merged(d, u, st);
    lemma_synth(c, u, is_label, tables, st);
    lemma_merged_unique(c, u, is_label, tables, st);
    law_formula_relocation(m);
    assert(!has_key(d, "Required_If"@));
    if let Some(s) = u {
        lemma_merge(d, s, st, s.len() as int);
        if requires_condition(s) {
            lemma_index_of(s, "Required_If"@);
        }
    }
    assert(get(relocated(m), "IsRequired"@) == get(m, "IsRequired"@));
}

/// Maturity gating by default: without user settings and overrides, every
/// key of the generated annotation has status `Verified`.
pub proof fn law_default_emits_verified_only(
    c: Column,
    is_label: bool,
    tables: Seq<Table>,
)
    ensures
        forall|k: Seq<char>|
            #[trigger] has_key(generated_with(c, None, is_label, tables, None), k) ==> status_of(k)
                == NoteParamStatus::Verified,
{
    lemma_key_literals();
    let d = synthesized(c, None, is_label, tables, None);
    lemma_synth(c, None, is_label, tables, None);
    assert(relocated(d) == d);
}


proof fn lemma_merge_gate(
    d: Seq<(Seq<char>, NoteVal)>,
    u: Seq<(Seq<char>, NoteVal)>,
    st1: Option<Seq<(Seq<char>, bool)>>,
    st2: Option<Seq<(Seq<char>, bool)>>,
    n: int,
)
    requires
        forall|k: Seq<char>| #[trigger] gate(k, st1) == gate(k, st2),
    ensures
        merge_prefix(d, u, st1, n) == merge_prefix(d, u, st2, n),
    decreases n,
{
    if n > 0 {
        lemma_merge_gate(d, u, st1, st2, n - 1);
    }
}

/// Settings that allow exactly the same keys give the same annotation.
proof fn lemma_gate_congruence(
    c: Column,
    u: Option<Seq<(Seq<char>, NoteVal)>>,
    is_label: bool,
    tables: Seq<Table>,
    st1: Option<Seq<(Seq<char>, bool)>>,
    st2: Option<Seq<(Seq<char>, bool)>>,
)
    requires
        forall|k: Seq<char>| #[trigger] gate(k, st1) == gate(k, st2),
    ensures
        note_text_with(c, u, is_label, tables, st1) == note_text_with(c, u, is_label, tables, st2),
{
    let d1 = synthesized(c, u, is_label, tables, st1);
    let d2 = synthesized(c, u, is_label, tables, st2);
    assert(synth_basic(c, u, is_label, st1) == synth_basic(c, u, is_label, st2));
    assert(synth_enum(synth_basic(c, u, is_label, st1), c, u, st1) == synth_enum(
        synth_basic(c, u, is_label, st1),
        c,
        u,
        st2,
    ));
    assert(d1 == d2);
    if let Some(s) = u {
        lemma_merge_gate(d1, s, st1, st2, s.len() as int);
    }
}

/// Renaming the entry at `i` from `from` to `to`, where neither is `k`, keeps
/// every lookup of `k`.
proof fn lemma_rename_get<V>(s: Seq<(Seq<char>, V)>, i: int, to: Seq<char>, k: Seq<char>)
    requires
        0 <= i < s.len(),
        k != s[i].0,
        k != to,
    ensures
        get(s.update(i, (to, s[i].1)), k) == get(s, k),
        has_key(s.update(i, (to, s[i].1)), k) == has_key(s, k),
{
    let t = s.update(i, (to, s[i].1));
    let a = keys_of(s);
    let b = keys_of(t);
    lemma_key_pos_same(a, b, k, s.len() as int);
    lemma_index_of(s, k);
    lemma_index_of(t, k);
}

/// Alias unification in settings: allowing the default-value key under its
/// legacy spelling gives the same annotation as allowing it under the
/// current spelling.
pub proof fn law_default_alias_settings(
    c: Column,
    u: Option<Seq<(Seq<char>, NoteVal)>>,
    is_label: bool,
    tables: Seq<Table>,
    s1: Seq<(Seq<char>, bool)>,
    i: int,
)
    requires
        keys_unique(s1),
        0 <= i < s1.len(),
        s1[i].0 == legacy_default_key(),
        !has_key(s1, default_key()),
    ensures
        note_text_with(c, u, is_label, tables, Some(s1)) == note_text_with(
            c,
            u,
            is_label,
            tables,
            Some(s1.update(i, (default_key(), s1[i].1))),
        ),
{
    lemma_key_literals();
    let s2 = s1.update(i, (default_key(), s1[i].1));
    lemma_unique_index(s1, legacy_default_key(), i);
    lemma_index_of(s1, default_key());
    assert forall|j: int| 0 <= j < s2.len() && s2[j].0 == default_key() implies j == i by {}
    lemma_index_of(s2, default_key());
    assert(s2[i].0 == default_key());
    let idx = index_of(s2, default_key());
    assert(s2[idx].0 == default_key());
    assert(idx == i);
    assert(get(s2, default_key()) == Some(s1[i].1));
    assert forall|k: Seq<char>| #[trigger] gate(k, Some(s1)) == gate(k, Some(s2)) by {
        if k != legacy_default_key() && k != default_key() {
            lemma_rename_get(s1, i, default_key(), k);
        }
    }
    lemma_gate_congruence(c, u, is_label, tables, Some(s1), Some(s2));
}

proof fn lemma_merge_alias(
    d: Seq<(Seq<char>, NoteVal)>,
    u1: Seq<(Seq<char>, NoteVal)>,
    u2: Seq<(Seq<char>, NoteVal)>,
    st: Option<Seq<(Seq<char>, bool)>>,
    i: int,
    n: int,
)
    requires
        keys_unique(u1),
        0 <= i < u1.len(),
        u1[i].0 == legacy_default_key(),
        !has_key(u1, default_key()),
        u2 == u1.update(i, (default_key(), u1[i].1)),
        requires_condition(u1) == requires_condition(u2),
        0 <= n <= u1.len(),
    ensures
        merge_prefix(d, u1, st, n) == merge_prefix(d, u2, st, n),
    decreases n,
{
    lemma_key_literals();
    if n > 0 {
        lemma_merge_alias(d, u1, u2, st, i, n - 1);
        lemma_index_of(u1, default_key());
        if n - 1 != i {
            assert(u1[n - 1].0 != legacy_default_key());
            assert(u1[n - 1].0 != default_key());
        }
    }
}

/// Alias unification in overrides: an override of the default-value key
/// under its legacy spelling gives the same annotation as the same override
/// under the current spelling.
pub proof fn law_default_alias_overrides(
    c: Column,
    u1: Seq<(Seq<char>, NoteVal)>,
    is_label: bool,
    tables: Seq<Table>,
    st: Option<Seq<(Seq<char>, bool)>>,
    i: int,
)
    requires
        keys_unique(u1),
        0 <= i < u1.len(),
        u1[i].0 == legacy_default_key(),
        !has_key(u1, default_key()),
    ensures
        note_text_with(c, Some(u1), is_label, tables, st) == note_text_with(
            c,
            Some(u1.update(i, (default_key(), u1[i].1))),
            is_label,
            tables,
            st,
        ),
{
    lemma_key_literals();
    let u2 = u1.update(i, (default_key(), u1[i].1));
    lemma_index_of(u1, legacy_default_key());
    lemma_index_of(u2, default_key());
    assert(u2[i].0 == default_key());
    assert forall|k: Seq<char>|
        k != legacy_default_key() && k != default_key() implies #[trigger] user_has(Some(u1), k)
        == user_has(Some(u2), k) && get(u1, k) == get(u2, k) by {
        lemma_rename_get(u1, i, default_key(), k);
    }
    lemma_rename_get(u1, i, default_key(), "Required_If"@);
    lemma_rename_get(u1, i, default_key(), raw_key());
    assert(raw_override_of(Some(u1)) == raw_override_of(Some(u2)));
    let d1 = synthesized(c, Some(u1), is_label, tables, st);
    let d2 = synthesized(c, Some(u2), is_label, tables, st);
    assert(synth_basic(c, Some(u1), is_label, st) == synth_basic(c, Some(u2), is_label, st));
    assert(d1 == d2);
    lemma_merge_alias(d1, u1, u2, st, i, u1.len() as int);
}


/// Alias unification, spelling: the default-value key never appears under
/// its legacy spelling at the top level of a generated annotation.
pub proof fn law_default_spelled_current(
    c: Column,
    u: Option<Seq<(Seq<char>, NoteVal)>>,
    is_label: bool,
    tables: Seq<Table>,
    st: Option<Seq<(Seq<char>, bool)>>,
)
    requires
        u matches Some(s) ==> keys_unique(s),
    ensures
        !has_key(generated_with(c, u, is_label, tables, st), legacy_default_key()),
{
    lemma_key_literals();
    let d = synthesized(c, u, is_label, tables, st);
    let m = merged(d, u, st);
    lemma_synth(c, u, is_label, tables, st);
    lemma_merged_unique(c, u, is_label, tables, st);
    if let Some(s) = u {
        lemma_merge(d, s, st, s.len() as int);
    }
    law_formula_relocation(m);
    assert(get(relocated(m), legacy_default_key()) == get(m, legacy_default_key()));
}

} // verus!
