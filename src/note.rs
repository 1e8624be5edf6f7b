//! The annotation of a column: the raw override when it fires, else the
//! derived, merged and relocated structure rendered after `AppSheet:`.
use vstd::prelude::*;
use crate::json::{object_text, render_object};
use crate::merge::{merge_overrides, merged};
use crate::relocate::{relocate_formulas, relocated};
use crate::schema::{Column, Table};
use crate::synth::{
    settings_of, synth_basic, synth_enum, synth_ref, synthesize_basic, synthesize_enum,
    synthesize_ref, user_model,
};
use crate::text::trimmed;
use crate::value::{
    NoteVal, NoteValue, entries_view, get, key_index, lemma_entries_view, lemma_key_pos,
    string_keys,
};

verus! {

/// The key of the raw override that replaces the whole annotation.
pub open spec fn raw_key() -> Seq<char> {
    "RawNoteParameters"@
}

/// The raw override text, when the overrides `u` hold one.
pub open spec fn raw_override_of(u: Option<Seq<(Seq<char>, NoteVal)>>) -> Option<Seq<char>> {
    match u {
        Some(s) => match get(s, raw_key()) {
            Some(NoteVal::Text(t)) => Some(t),
            _ => None,
        },
        None => None,
    }
}

/// Whether the raw override in `u` replaces the generated annotation.
pub open spec fn raw_fires_of(u: Option<Seq<(Seq<char>, NoteVal)>>) -> bool {
    raw_override_of(u) is Some && trimmed(raw_override_of(u)->0).len() > 0
}

/// The raw override text of a column.
pub open spec fn raw_override(c: Column) -> Option<Seq<char>> {
    raw_override_of(user_model(c))
}

/// Whether a column's raw override replaces its generated annotation.
pub open spec fn raw_fires(c: Column) -> bool {
    raw_fires_of(user_model(c))
}

/// The generated key/value structure for column `c` with overrides `u`,
/// before rendering.
pub open spec fn generated_with(
    c: Column,
    u: Option<Seq<(Seq<char>, NoteVal)>>,
    is_label: bool,
    tables: Seq<Table>,
    st: Option<Seq<(Seq<char>, bool)>>,
) -> Seq<(Seq<char>, NoteVal)> {
    relocated(
        merged(
            synth_ref(synth_enum(synth_basic(c, u, is_label, st), c, u, st), c, u, tables, st),
            u,
            st,
        ),
    )
}

/// The annotation text for column `c` with overrides `u`.
pub open spec fn note_text_with(
    c: Column,
    u: Option<Seq<(Seq<char>, NoteVal)>>,
    is_label: bool,
    tables: Seq<Table>,
    st: Option<Seq<(Seq<char>, bool)>>,
) -> Seq<char> {
    if raw_fires_of(u) {
        trimmed(raw_override_of(u)->0)
    } else {
        "AppSheet:"@ + object_text(generated_with(c, u, is_label, tables, st))
    }
}

/// The generated key/value structure of a column, before rendering.
pub open spec fn generated(
    c: Column,
    is_label: bool,
    tables: Seq<Table>,
    st: Option<Seq<(Seq<char>, bool)>>,
) -> Seq<(Seq<char>, NoteVal)> {
    generated_with(c, user_model(c), is_label, tables, st)
}

/// The annotation text of a column whose effective label flag is `is_label`.
pub open spec fn note_text(
    c: Column,
    is_label: bool,
    tables: Seq<Table>,
    st: Option<Seq<(Seq<char>, bool)>>,
) -> Seq<char> {
    note_text_with(c, user_model(c), is_label, tables, st)
}

/// Relies on `str::trim`: the text without leading and trailing white space.
#[verifier::external_body]
fn trim_text(s: &str) -> (r: String)
    ensures
        r@ == trimmed(s@),
{
    s.trim().to_string()
}

/// The generated key/value structure of a column (see `generated`).
pub fn generate_entries(
    column: &Column,
    is_label: bool,
    tables: &[Table],
    settings: Option<&Vec<(String, bool)>>,
) -> (r: Vec<(String, NoteValue)>)
    ensures
        entries_view(r@) == generated(*column, is_label, tables@, settings_of(settings)),
{
    let mut d = synthesize_basic(column, is_label, settings);
    synthesize_enum(&mut d, column, settings);
    synthesize_ref(&mut d, column, tables, settings);
    merge_overrides(&mut d, column, settings);
    relocate_formulas(&mut d);
    d
}

/// The raw override text when it replaces the generated annotation.
fn raw_note(column: &Column) -> (r: Option<String>)
    ensures
        match r {
            Some(t) => raw_fires(*column) && t@ == trimmed(raw_override(*column)->0),
            None => !raw_fires(*column),
        },
{
    match &column.app_sheet {
        Some(u) => {
            proof {
                lemma_entries_view(u@);
                lemma_key_pos(string_keys(u@), raw_key(), u@.len() as int);
            }
            match key_index(u, "RawNoteParameters") {
                Some(i) => match &u[i].1 {
                    NoteValue::Text(t) => {
                        let trimmed_text = trim_text(t.as_str());
                        if trimmed_text.unicode_len() > 0 {
                            Some(trimmed_text)
                        } else {
                            None
                        }
                    },
                    _ => None,
                },
                None => None,
            }
        },
        None => None,
    }
}

/// The annotation of a column whose effective label flag is `is_label`: the
/// raw override when it fires, else `AppSheet:` and the rendered structure.
/// Also tells whether the annotation is to be attached: always for a raw
/// override, else only when the structure is not empty.
pub fn column_note(
    column: &Column,
    is_label: bool,
    tables: &[Table],
    settings: Option<&Vec<(String, bool)>>,
) -> (r: (String, bool))
    ensures
        r.0@ == note_text(*column, is_label, tables@, settings_of(settings)),
        r.1 == (raw_fires(*column) || generated(*column, is_label, tables@, settings_of(settings)).len() > 0),
{
    match raw_note(column) {
        Some(t) => (t, true),
        None => {
            let d = generate_entries(column, is_label, tables, settings);
            proof {
                lemma_entries_view(d@);
            }
            let mut out = String::from_str("AppSheet:");
            let body = render_object(&d);
            out.append(body.as_str());
            let attach = d.len() > 0;
            (out, attach)
        },
    }
}

/// The annotation of a column under the default policy, with its own
/// `is_label` flag taken as the effective one (see `column_note`).
pub fn generate_column_note(column: &Column, tables: &[Table]) -> (r: String)
    ensures
        r@ == note_text(*column, column.is_label, tables@, None),
{
    column_note(column, column.is_label, tables, None).0
}

/// The annotation of a column under `settings`, with its own `is_label` flag
/// taken as the effective one (see `column_note`).
pub fn generate_column_note_with_settings(
    column: &Column,
    tables: &[Table],
    settings: Option<&Vec<(String, bool)>>,
) -> (r: String)
    ensures
        r@ == note_text(*column, column.is_label, tables@, settings_of(settings)),
{
    column_note(column, column.is_label, tables, settings).0
}

} // verus!
