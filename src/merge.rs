//! Merging the user's per-column overrides on top of the derived defaults.
use vstd::prelude::*;
use crate::json::{render_value, value_text};
use crate::registry::{default_key, gate, legacy_default_key, may_emit};
use crate::schema::Column;
use crate::synth::{settings_of, user_model};
use crate::text::text_eq;
use crate::value::{
    NoteVal, NoteValue, duplicate, entries_view, get, has_key, key_index, lemma_entries_view,
    lemma_key_pos, put, put_value, remove_value, string_keys, without,
};

verus! {

/// The stored spelling of a key: the legacy default-value key becomes the
/// current one.
pub open spec fn canonical_key(k: Seq<char>) -> Seq<char> {
    if k == legacy_default_key() {
        default_key()
    } else {
        k
    }
}

/// The formula-valued keys, relocated into the auxiliary data.
pub open spec fn is_formula_key(k: Seq<char>) -> bool {
    k == "Show_If"@ || k == "Required_If"@ || k == "Editable_If"@ || k == "Reset_If"@
}

/// The expression text a formula value carries: none for null or empty text;
/// other non-text values as their rendering.
pub open spec fn formula_text(v: NoteVal) -> Option<Seq<char>> {
    match v {
        NoteVal::Null => None,
        NoteVal::Text(s) => if s.len() == 0 {
            None
        } else {
            Some(s)
        },
        _ => Some(value_text(v)),
    }
}

/// Whether the overrides set a non-empty conditional-requirement expression.
pub open spec fn requires_condition(u: Seq<(Seq<char>, NoteVal)>) -> bool {
    match get(u, "Required_If"@) {
        Some(v) => formula_text(v) is Some,
        None => false,
    }
}

/// Merging one override entry `e` of the overrides `u` into `d`: the legacy
/// spelling of the default-value key is skipped when the current spelling is
/// also present, and is otherwise stored under the current one; the plain
/// required key is skipped under a non-empty conditional requirement; a null
/// value removes the key; formula keys are always taken, other keys only when
/// they may be emitted.
pub open spec fn merge_step(
    d: Seq<(Seq<char>, NoteVal)>,
    u: Seq<(Seq<char>, NoteVal)>,
    st: Option<Seq<(Seq<char>, bool)>>,
    e: (Seq<char>, NoteVal),
) -> Seq<(Seq<char>, NoteVal)> {
    let k = canonical_key(e.0);
    if e.0 == legacy_default_key() && has_key(u, default_key()) {
        d
    } else if k == "IsRequired"@ && requires_condition(u) {
        d
    } else if e.1 is Null {
        without(d, k)
    } else if is_formula_key(k) || gate(k, st) {
        put(d, k, e.1)
    } else {
        d
    }
}

/// Merging the first `n` override entries, in order.
pub open spec fn merge_prefix(
    d: Seq<(Seq<char>, NoteVal)>,
    u: Seq<(Seq<char>, NoteVal)>,
    st: Option<Seq<(Seq<char>, bool)>>,
    n: int,
) -> Seq<(Seq<char>, NoteVal)>
    decreases n,
{
    if n <= 0 {
        d
    } else {
        merge_step(merge_prefix(d, u, st, n - 1), u, st, u[n - 1])
    }
}

/// The defaults `d` with the overrides merged on top.
pub open spec fn merged(
    d: Seq<(Seq<char>, NoteVal)>,
    u: Option<Seq<(Seq<char>, NoteVal)>>,
    st: Option<Seq<(Seq<char>, bool)>>,
) -> Seq<(Seq<char>, NoteVal)> {
    match u {
        Some(s) => merge_prefix(d, s, st, s.len() as int),
        None => d,
    }
}

/// The expression text of a formula value (see `formula_text`).
pub(crate) fn formula_string(v: &NoteValue) -> (r: Option<String>)
    ensures
        match r {
            Some(t) => formula_text(v@) == Some(t@),
            None => formula_text(v@) is None,
        },
{
    match v {
        NoteValue::Null => None,
        NoteValue::Text(s) => if s.unicode_len() == 0 {
            None
        } else {
            Some(s.clone())
        },
        _ => Some(render_value(v)),
    }
}

/// Whether a key is formula-valued.
fn is_formula(k: &str) -> (r: bool)
    ensures
        r == is_formula_key(k@),
{
    text_eq(k, "Show_If") || text_eq(k, "Required_If") || text_eq(k, "Editable_If") || text_eq(
        k,
        "Reset_If",
    )
}

/// Whether the overrides set a non-empty conditional requirement.
pub(crate) fn has_required_condition(u: &Vec<(String, NoteValue)>) -> (r: bool)
    ensures
        r == requires_condition(entries_view(u@)),
{
    proof {
        lemma_entries_view(u@);
        lemma_key_pos(string_keys(u@), "Required_If"@, u@.len() as int);
    }
    match key_index(u, "Required_If") {
        Some(i) => formula_string(&u[i].1).is_some(),
        None => false,
    }
}

/// Merges the column's overrides into `d`.
pub(crate) fn merge_overrides(d: &mut Vec<(String, NoteValue)>, c: &Column, st: Option<&Vec<(String, bool)>>)
    ensures
        entries_view(final(d)@) == merged(entries_view(old(d)@), user_model(*c), settings_of(st)),
{
    let u = match &c.app_sheet {
        Some(u) => u,
        None => {
            return;
        },
    };
    let ghost uv = entries_view(u@);
    let ghost d0 = entries_view(d@);
    let ghost sv = settings_of(st);
    proof {
        lemma_entries_view(u@);
        lemma_key_pos(string_keys(u@), "Required_If"@, u@.len() as int);
    }
    let required_if = has_required_condition(u);
    let has_current = key_index(u, "Default").is_some();
    let mut i: usize = 0;
    while i < u.len()
        invariant
            i <= u@.len(),
            uv == entries_view(u@),
            uv.len() == u@.len(),
            forall|j: int| 0 <= j < u@.len() ==> #[trigger] uv[j] == (u@[j].0@, u@[j].1@),
            required_if == requires_condition(uv),
            has_current == has_key(uv, default_key()),
            sv == settings_of(st),
            entries_view(d@) == merge_prefix(d0, uv, sv, i as int),
        decreases u@.len() - i,
    {
        let k = &u[i].0;
        let v = &u[i].1;
        let legacy = text_eq(k.as_str(), "DEFAULT");
        if legacy && has_current {
        } else {
            let key = if legacy {
                String::from_str("Default")
            } else {
                k.clone()
            };
            if text_eq(key.as_str(), "IsRequired") && required_if {
            } else if let NoteValue::Null = v {
                remove_value(d, key.as_str());
            } else if is_formula(key.as_str()) || may_emit(key.as_str(), st) {
                put_value(d, key, duplicate(v));
            }
        }
        i = i + 1;
    }
}


} // verus!
