//! How well each annotation key is known to be read downstream, and the
//! policy that decides whether a key may be emitted.
use vstd::prelude::*;
use crate::text::text_eq;
use crate::value::{get, key_pos, keys_of, lemma_key_pos, string_keys};

verus! {

/// How well the downstream platform is known to read an annotation key.
#[derive(Clone, Copy, Debug, PartialEq, Eq, Structural)]
pub enum NoteParamStatus {
    /// Confirmed to be read correctly.
    Verified,
    /// Read in some environments and not in others.
    Unstable,
    /// Known not to be read.
    Unsupported,
    /// Not confirmed either way.
    Untested,
}

/// Current spelling of the default-value key.
pub open spec fn default_key() -> Seq<char> {
    "Default"@
}

/// Legacy spelling of the default-value key.
pub open spec fn legacy_default_key() -> Seq<char> {
    "DEFAULT"@
}

/// The known keys and their status.
pub open spec fn status_table() -> Seq<(Seq<char>, NoteParamStatus)> {
    seq![
        ("Type"@, NoteParamStatus::Verified),
        ("IsRequired"@, NoteParamStatus::Untested),
        ("Required_If"@, NoteParamStatus::Untested),
        ("IsHidden"@, NoteParamStatus::Untested),
        ("Show_If"@, NoteParamStatus::Untested),
        ("DisplayName"@, NoteParamStatus::Untested),
        ("Description"@, NoteParamStatus::Untested),
        ("Default"@, NoteParamStatus::Untested),
        ("DEFAULT"@, NoteParamStatus::Untested),
        ("AppFormula"@, NoteParamStatus::Untested),
        ("IsKey"@, NoteParamStatus::Verified),
        ("IsLabel"@, NoteParamStatus::Unstable),
        ("IsScannable"@, NoteParamStatus::Untested),
        ("IsNfcScannable"@, NoteParamStatus::Untested),
        ("Searchable"@, NoteParamStatus::Untested),
        ("IsSensitive"@, NoteParamStatus::Untested),
        ("Valid_If"@, NoteParamStatus::Untested),
        ("Error_Message_If_Invalid"@, NoteParamStatus::Untested),
        ("Suggested_Values"@, NoteParamStatus::Untested),
        ("Editable_If"@, NoteParamStatus::Untested),
        ("Reset_If"@, NoteParamStatus::Untested),
        ("MinValue"@, NoteParamStatus::Untested),
        ("MaxValue"@, NoteParamStatus::Untested),
        ("DecimalDigits"@, NoteParamStatus::Untested),
        ("NumericDigits"@, NoteParamStatus::Untested),
        ("ShowThousandsSeparator"@, NoteParamStatus::Untested),
        ("NumberDisplayMode"@, NoteParamStatus::Untested),
        ("StepValue"@, NoteParamStatus::Untested),
        ("EnumValues"@, NoteParamStatus::Untested),
        ("BaseType"@, NoteParamStatus::Untested),
        ("EnumInputMode"@, NoteParamStatus::Untested),
        ("AllowOtherValues"@, NoteParamStatus::Untested),
        ("AutoCompleteOtherValues"@, NoteParamStatus::Untested),
        ("ReferencedRootTableName"@, NoteParamStatus::Untested),
        ("ReferencedTableName"@, NoteParamStatus::Untested),
        ("ReferencedKeyColumn"@, NoteParamStatus::Untested),
        ("ReferencedType"@, NoteParamStatus::Untested),
        ("IsAPartOf"@, NoteParamStatus::Untested),
        ("InputMode"@, NoteParamStatus::Untested),
        ("LongTextFormatting"@, NoteParamStatus::Untested),
        ("ItemSeparator"@, NoteParamStatus::Untested),
        ("TypeAuxData"@, NoteParamStatus::Untested),
        ("BaseTypeQualifier"@, NoteParamStatus::Untested),
        ("UpdateMode"@, NoteParamStatus::Untested),
        ("ChangeColumns"@, NoteParamStatus::Untested),
        ("ChangeValues"@, NoteParamStatus::Untested),
    ]
}

/// Status of a key: its entry in the table, `Untested` for a key not listed.
pub open spec fn status_of(k: Seq<char>) -> NoteParamStatus {
    match get(status_table(), k) {
        Some(s) => s,
        None => NoteParamStatus::Untested,
    }
}

/// Keys emitted under the default policy whatever their status (none so far).
pub open spec fn export_allow_listed(k: Seq<char>) -> bool {
    false
}

/// The model of user settings: key to "emit this key".
pub open spec fn settings_view(s: Seq<(String, bool)>) -> Seq<(Seq<char>, bool)> {
    s.map_values(|e: (String, bool)| (e.0@, e.1))
}

/// Whether `k` may be emitted. Without settings: only `Verified` keys (and the
/// allow-list). With settings: exactly the keys set true; the default-value key
/// reads its current spelling, else its legacy one.
pub open spec fn gate(k: Seq<char>, settings: Option<Seq<(Seq<char>, bool)>>) -> bool {
    match settings {
        None => status_of(k) == NoteParamStatus::Verified || export_allow_listed(k),
        Some(s) => if k == default_key() || k == legacy_default_key() {
            match get(s, default_key()) {
                Some(b) => b,
                None => get(s, legacy_default_key()) == Some(true),
            }
        } else {
            get(s, k) == Some(true)
        },
    }
}

/// The status table as data.
pub fn note_param_table() -> (r: Vec<(&'static str, NoteParamStatus)>)
    ensures
        r@.map_values(|e: (&'static str, NoteParamStatus)| (e.0@, e.1)) == status_table(),
{
    let r = vec![
        ("Type", NoteParamStatus::Verified),
        ("IsRequired", NoteParamStatus::Untested),
        ("Required_If", NoteParamStatus::Untested),
        ("IsHidden", NoteParamStatus::Untested),
        ("Show_If", NoteParamStatus::Untested),
        ("DisplayName", NoteParamStatus::Untested),
        ("Description", NoteParamStatus::Untested),
        ("Default", NoteParamStatus::Untested),
        ("DEFAULT", NoteParamStatus::Untested),
        ("AppFormula", NoteParamStatus::Untested),
        ("IsKey", NoteParamStatus::Verified),
        ("IsLabel", NoteParamStatus::Unstable),
        ("IsScannable", NoteParamStatus::Untested),
        ("IsNfcScannable", NoteParamStatus::Untested),
        ("Searchable", NoteParamStatus::Untested),
        ("IsSensitive", NoteParamStatus::Untested),
        ("Valid_If", NoteParamStatus::Untested),
        ("Error_Message_If_Invalid", NoteParamStatus::Untested),
        ("Suggested_Values", NoteParamStatus::Untested),
        ("Editable_If", NoteParamStatus::Untested),
        ("Reset_If", NoteParamStatus::Untested),
        ("MinValue", NoteParamStatus::Untested),
        ("MaxValue", NoteParamStatus::Untested),
        ("DecimalDigits", NoteParamStatus::Untested),
        ("NumericDigits", NoteParamStatus::Untested),
        ("ShowThousandsSeparator", NoteParamStatus::Untested),
        ("NumberDisplayMode", NoteParamStatus::Untested),
        ("StepValue", NoteParamStatus::Untested),
        ("EnumValues", NoteParamStatus::Untested),
        ("BaseType", NoteParamStatus::Untested),
        ("EnumInputMode", NoteParamStatus::Untested),
        ("AllowOtherValues", NoteParamStatus::Untested),
        ("AutoCompleteOtherValues", NoteParamStatus::Untested),
        ("ReferencedRootTableName", NoteParamStatus::Untested),
        ("ReferencedTableName", NoteParamStatus::Untested),
        ("ReferencedKeyColumn", NoteParamStatus::Untested),
        ("ReferencedType", NoteParamStatus::Untested),
        ("IsAPartOf", NoteParamStatus::Untested),
        ("InputMode", NoteParamStatus::Untested),
        ("LongTextFormatting", NoteParamStatus::Untested),
        ("ItemSeparator", NoteParamStatus::Untested),
        ("TypeAuxData", NoteParamStatus::Untested),
        ("BaseTypeQualifier", NoteParamStatus::Untested),
        ("UpdateMode", NoteParamStatus::Untested),
        ("ChangeColumns", NoteParamStatus::Untested),
        ("ChangeValues", NoteParamStatus::Untested),
    ];
    assert(r@.map_values(|e: (&'static str, NoteParamStatus)| (e.0@, e.1)) =~= status_table());
    r
}

/// The status of an annotation key; `Untested` for an unknown key.
pub fn get_note_param_status(key: &str) -> (r: NoteParamStatus)
    ensures
        r == status_of(key@),
{
    let table = note_param_table();
    let ghost model = status_table();
    let ghost keys = keys_of(model);
    assert(keys =~= table@.map_values(|e: (&'static str, NoteParamStatus)| e.0@));
    let mut j: usize = table.len();
    while j > 0
        invariant
            j <= table@.len(),
            table@.len() == model.len(),
            model == status_table(),
            keys == keys_of(model),
            forall|i: int| 0 <= i < table@.len() ==> #[trigger] keys[i] == table@[i].0@,
            forall|i: int| 0 <= i < table@.len() ==> #[trigger] model[i].1 == table@[i].1,
            key_pos(keys, key@, model.len() as int) == key_pos(keys, key@, j as int),
        decreases j,
    {
        if text_eq(table[j - 1].0, key) {
            return table[j - 1].1;
        }
        j = j - 1;
    }
    NoteParamStatus::Untested
}

/// Whether `key` is on the allow-list of keys emitted regardless of status.
pub fn is_export_whitelisted_note_param(key: &str) -> (r: bool)
    ensures
        r == export_allow_listed(key@),
{
    false
}

/// Whether `key` is emitted under the default policy: `Verified` keys only.
pub fn should_output_note_param(key: &str) -> (r: bool)
    ensures
        r == (status_of(key@) == NoteParamStatus::Verified || export_allow_listed(key@)),
{
    get_note_param_status(key) == NoteParamStatus::Verified || is_export_whitelisted_note_param(key)
}

/// The flag set for `key` in `flags`, if any.
pub fn setting_flag(flags: &Vec<(String, bool)>, key: &str) -> (r: Option<bool>)
    ensures
        r == get(settings_view(flags@), key@),
{
    let ghost model = settings_view(flags@);
    let ghost keys = keys_of(model);
    assert(keys =~= string_keys(flags@));
    let mut j: usize = flags.len();
    while j > 0
        invariant
            j <= flags@.len(),
            model == settings_view(flags@),
            keys == keys_of(model),
            keys == string_keys(flags@),
            key_pos(keys, key@, model.len() as int) == key_pos(keys, key@, j as int),
        decreases j,
    {
        if text_eq(flags[j - 1].0.as_str(), key) {
            proof {
                lemma_key_pos(keys, key@, model.len() as int);
            }
            return Some(flags[j - 1].1);
        }
        j = j - 1;
    }
    proof {
        lemma_key_pos(keys, key@, model.len() as int);
    }
    None
}

/// Whether `key` may be emitted under `settings` (see `gate`).
pub fn may_emit(key: &str, settings: Option<&Vec<(String, bool)>>) -> (r: bool)
    ensures
        r == gate(key@, match settings {
            Some(s) => Some(settings_view(s@)),
            None => None,
        }),
{
    match settings {
        None => should_output_note_param(key),
        Some(flags) => {
            if text_eq(key, "Default") || text_eq(key, "DEFAULT") {
                match setting_flag(flags, "Default") {
                    Some(b) => b,
                    None => setting_flag(flags, "DEFAULT") == Some(true),
                }
            } else {
                setting_flag(flags, key) == Some(true)
            }
        },
    }
}

} // verus!
