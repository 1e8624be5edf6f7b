//! Moving the formula-valued keys out of the top level into the
//! string-encoded auxiliary data.
use vstd::prelude::*;
use crate::json::{
    encoded_object_text, json_object_members, json_quoted, json_string_value, parse_object_members,
    parse_string_literal, render_encoded_object, render_value, text_entries, value_text,
    write_quoted,
};
use crate::merge::{formula_string, formula_text};
use crate::value::{
    NoteVal, NoteValue, entries_view, get, has_key, key_index, keys_of, lemma_entries_view,
    lemma_key_pos, put, put_value, remove_value, string_keys, without,
};

verus! {

/// The key of the auxiliary data into which formula keys are relocated.
pub open spec fn aux_key() -> Seq<char> {
    "TypeAuxData"@
}

/// Pre-existing auxiliary data given as text: parsed as a JSON object, else
/// unescaped as the contents of a JSON string and then parsed; else empty.
pub open spec fn aux_from_text(t: Seq<char>) -> Seq<(Seq<char>, Seq<char>)> {
    match json_object_members(t) {
        Some(ms) => ms,
        None => match json_string_value(seq!['"'] + t + seq!['"']) {
            Some(inner) => match json_object_members(inner) {
                Some(ms) => ms,
                None => Seq::empty(),
            },
            None => Seq::empty(),
        },
    }
}

/// The members of pre-existing auxiliary data, each value encoded.
pub open spec fn aux_base(v: Option<NoteVal>) -> Seq<(Seq<char>, Seq<char>)> {
    match v {
        Some(NoteVal::Object(es)) => es.map_values(
            |e: (Seq<char>, NoteVal)| (e.0, value_text(e.1)),
        ),
        Some(NoteVal::Text(t)) => aux_from_text(t),
        _ => Seq::empty(),
    }
}

/// Adds the formula under `f` in `d`, if it carries an expression, to `aux`.
pub open spec fn add_formula(
    aux: Seq<(Seq<char>, Seq<char>)>,
    d: Seq<(Seq<char>, NoteVal)>,
    f: Seq<char>,
) -> Seq<(Seq<char>, Seq<char>)> {
    match get(d, f) {
        Some(v) => match formula_text(v) {
            Some(t) => put(aux, f, json_quoted(t)),
            None => aux,
        },
        None => aux,
    }
}

/// Whether the entry of `f` in `d` carries an expression.
pub open spec fn carries_formula(d: Seq<(Seq<char>, NoteVal)>, f: Seq<char>) -> bool {
    get(d, f) is Some && formula_text(get(d, f)->0) is Some
}

/// The auxiliary data after relocation: the pre-existing members of `d`'s
/// auxiliary data with each formula that carries an expression put under its key.
pub open spec fn relocation_aux(d: Seq<(Seq<char>, NoteVal)>) -> Seq<(Seq<char>, Seq<char>)> {
    add_formula(
        add_formula(
            add_formula(add_formula(aux_base(get(d, aux_key())), d, "Show_If"@), d, "Required_If"@),
            d,
            "Editable_If"@,
        ),
        d,
        "Reset_If"@,
    )
}

/// Whether any formula key of `d` carries an expression.
pub open spec fn carries_any_formula(d: Seq<(Seq<char>, NoteVal)>) -> bool {
    carries_formula(d, "Show_If"@) || carries_formula(d, "Required_If"@) || carries_formula(
        d,
        "Editable_If"@,
    ) || carries_formula(d, "Reset_If"@)
}

/// The formula keys moved out of the top level of `d` and, when any carries
/// an expression, folded into the string-encoded auxiliary data.
pub open spec fn relocated(d: Seq<(Seq<char>, NoteVal)>) -> Seq<(Seq<char>, NoteVal)> {
    if has_key(d, "Show_If"@) || has_key(d, "Required_If"@) || has_key(d, "Editable_If"@) || has_key(
        d,
        "Reset_If"@,
    ) {
        let d1 = without(
            without(without(without(d, "Show_If"@), "Required_If"@), "Editable_If"@),
            "Reset_If"@,
        );
        if carries_any_formula(d) {
            put(d1, aux_key(), NoteVal::Text(encoded_object_text(relocation_aux(d))))
        } else {
            d1
        }
    } else {
        d
    }
}

/// The text form of a formula value, for the auxiliary data.
fn add_formula_exec(
    aux: &mut Vec<(String, String)>,
    d: &Vec<(String, NoteValue)>,
    f: &str,
) -> (kept: bool)
    ensures
        text_entries(final(aux)@) == add_formula(text_entries(old(aux)@), entries_view(d@), f@),
        kept == carries_formula(entries_view(d@), f@),
{
    proof {
        lemma_entries_view(d@);
        lemma_key_pos(string_keys(d@), f@, d@.len() as int);
    }
    match key_index(d, f) {
        Some(i) => match formula_string(&d[i].1) {
            Some(t) => {
                let mut q = String::new();
                write_quoted(t.as_str(), &mut q);
                put_text(aux, String::from_str(f), q);
                true
            },
            None => false,
        },
        None => false,
    }
}

/// Inserts an encoded member with map semantics.
fn put_text(m: &mut Vec<(String, String)>, k: String, v: String)
    ensures
        text_entries(final(m)@) == put(text_entries(old(m)@), k@, v@),
{
    let ghost kv = k@;
    let ghost vv = v@;
    proof {
        assert(string_keys(m@) =~= keys_of(text_entries(m@)));
        lemma_key_pos(string_keys(m@), k@, m@.len() as int);
    }
    match key_index(m, k.as_str()) {
        Some(i) => {
            m.remove(i);
            m.insert(i, (k, v));
        },
        None => {
            m.push((k, v));
        },
    }
    assert(text_entries(m@) =~= put(text_entries(old(m)@), kv, vv));
}

/// The members of pre-existing auxiliary data given as text.
fn aux_from_text_exec(t: &String) -> (r: Vec<(String, String)>)
    ensures
        text_entries(r@) == aux_from_text(t@),
{
    match parse_object_members(t.as_str()) {
        Some(ms) => ms,
        None => {
            let mut q = String::from_str("\"");
            q.append(t.as_str());
            q.append("\"");
            assert(q@ =~= seq!['"'] + t@ + seq!['"']) by {
                reveal_strlit("\"");
            }
            match parse_string_literal(q.as_str()) {
                Some(inner) => match parse_object_members(inner.as_str()) {
                    Some(ms) => ms,
                    None => {
                        let r: Vec<(String, String)> = Vec::new();
                        assert(text_entries(r@) =~= Seq::empty());
                        r
                    },
                },
                None => {
                    let r: Vec<(String, String)> = Vec::new();
                    assert(text_entries(r@) =~= Seq::empty());
                    r
                },
            }
        },
    }
}

/// The members of the pre-existing auxiliary data of `d`.
fn existing_aux(d: &Vec<(String, NoteValue)>) -> (r: Vec<(String, String)>)
    ensures
        text_entries(r@) == aux_base(get(entries_view(d@), aux_key())),
{
    proof {
        lemma_entries_view(d@);
        lemma_key_pos(string_keys(d@), aux_key(), d@.len() as int);
    }
    let mut r: Vec<(String, String)> = Vec::new();
    match key_index(d, "TypeAuxData") {
        Some(i) => match &d[i].1 {
            NoteValue::Object(es) => {
                proof {
                    lemma_entries_view(es@);
                }
                let ghost ev = entries_view(es@);
                let mut j: usize = 0;
                while j < es.len()
                    invariant
                        j <= es@.len(),
                        ev == entries_view(es@),
                        ev.len() == es@.len(),
                        forall|k: int| 0 <= k < es@.len() ==> #[trigger] ev[k] == (es@[k].0@, es@[k].1@),
                        r@.len() == j,
                        forall|k: int|
                            0 <= k < j ==> #[trigger] r@[k].0@ == ev[k].0 && r@[k].1@ == value_text(
                                ev[k].1,
                            ),
                    decreases es@.len() - j,
                {
                    r.push((es[j].0.clone(), render_value(&es[j].1)));
                    j = j + 1;
                }
                assert(text_entries(r@) =~= ev.map_values(
                    |e: (Seq<char>, NoteVal)| (e.0, value_text(e.1)),
                ));
                r
            },
            NoteValue::Text(t) => aux_from_text_exec(t),
            _ => {
                assert(text_entries(r@) =~= Seq::empty());
                r
            },
        },
        None => {
            assert(text_entries(r@) =~= Seq::empty());
            r
        },
    }
}

/// Moves the formula keys of `d` into its auxiliary data.
pub(crate) fn relocate_formulas(d: &mut Vec<(String, NoteValue)>)
    ensures
        entries_view(final(d)@) == relocated(entries_view(old(d)@)),
{
    proof {
        lemma_entries_view(d@);
    }
    let present = key_index(d, "Show_If").is_some() || key_index(d, "Required_If").is_some()
        || key_index(d, "Editable_If").is_some() || key_index(d, "Reset_If").is_some();
    if !present {
        return;
    }
    let ghost d0 = entries_view(d@);
    let mut aux = existing_aux(d);
    let k1 = add_formula_exec(&mut aux, d, "Show_If");
    let k2 = add_formula_exec(&mut aux, d, "Required_If");
    let k3 = add_formula_exec(&mut aux, d, "Editable_If");
    let k4 = add_formula_exec(&mut aux, d, "Reset_If");
    remove_value(d, "Show_If");
    remove_value(d, "Required_If");
    remove_value(d, "Editable_If");
    remove_value(d, "Reset_If");
    if k1 || k2 || k3 || k4 {
        let text = render_encoded_object(&aux);
        put_value(d, String::from_str("TypeAuxData"), NoteValue::Text(text));
    }
}

} // verus!
